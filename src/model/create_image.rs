//! Image generation: the request, its payload, and the response.
use vstd::prelude::*;
use crate::decode::{
    count_member, count_of, list_decodable, list_decodes, list_member, optional_text_member,
    optional_text_of, view_of_text, Decode,
};
use crate::error::{Error, unexpected};
use crate::json::{Json, json_quoted, member, members_view, object_text, quote, render_object, same_text};
use crate::payload::{
    count_option, count_text, has_key, optional_member as optional_entry, push_member,
    push_optional, quote_option, quoted_text, Members,
};

verus! {

/// An image generation request.
#[derive(Debug)]
pub struct Request {
    pub prompt: String,
    pub n: Option<usize>,
    pub size: Option<Size>,
    pub response_format: Option<ResponseFormat>,
    pub user: Option<String>,
}

/// The JSON text of an optional size.
pub open spec fn size_text(o: Option<Size>) -> Option<Seq<char>> {
    match o {
        Some(s) => Some(json_quoted(s.name())),
        None => None,
    }
}

/// The JSON text of an optional response format.
pub open spec fn format_text(o: Option<ResponseFormat>) -> Option<Seq<char>> {
    match o {
        Some(f) => Some(json_quoted(f.name())),
        None => None,
    }
}

impl Request {
    /// A request with the prompt and no optional parameter set.
    pub fn new(prompt: String) -> (r: Request)
        ensures
            r == (Request { prompt, n: None, size: None, response_format: None, user: None }),
    {
        Request { prompt, n: None, size: None, response_format: None, user: None }
    }

    /// Sets how the images come back.
    pub fn response_format(self, response_format: ResponseFormat) -> (r: Request)
        ensures
            r == (Request { response_format: Some(response_format), ..self }),
    {
        let mut r = self;
        r.response_format = Some(response_format);
        r
    }

    /// The payload's members, in the order they are written.
    pub open spec fn members(self) -> Members {
        seq![("prompt"@, json_quoted(self.prompt@))]
            + optional_entry("n"@, count_text(self.n))
            + optional_entry("size"@, size_text(self.size))
            + optional_entry("response_format"@, format_text(self.response_format))
            + optional_entry("user"@, quoted_text(self.user))
    }

    /// The JSON payload of the request.
    pub fn to_json(&self) -> (r: String)
        ensures
            r@ == object_text(self.members()),
    {
        let mut m: Vec<(String, String)> = Vec::new();
        push_member(&mut m, "prompt", quote(self.prompt.as_str()));
        assert(members_view(m@) =~= seq![("prompt"@, json_quoted(self.prompt@))]);
        push_optional(&mut m, "n", count_option(self.n));
        let size = match self.size {
            Some(s) => Some(quote(s.as_str())),
            None => None,
        };
        push_optional(&mut m, "size", size);
        let format = match self.response_format {
            Some(f) => Some(quote(f.as_str())),
            None => None,
        };
        push_optional(&mut m, "response_format", format);
        push_optional(&mut m, "user", quote_option(&self.user));
        render_object(&m)
    }
}

#[verifier::external_type_specification]
#[verifier::external_body]
pub struct ExUrl(url::Url);

/// Whether the `url` crate accepts the text as an absolute URL.
pub uninterp spec fn url_accepts(s: Seq<char>) -> bool;

/// Relies on `url::Url::parse`: it succeeds exactly on the texts that the
/// URL standard accepts as absolute URLs.
#[verifier::external_body]
fn parse_url(s: &str) -> (r: Option<url::Url>)
    ensures
        r is Some <==> url_accepts(s@),
{
    url::Url::parse(s).ok()
}

/// The bytes that standard, padded base64 text stands for, if it is such text.
pub uninterp spec fn base64_decoded(s: Seq<char>) -> Option<Seq<u8>>;

/// Relies on `base64`'s `STANDARD` engine `decode`: the bytes of padded
/// standard base64 text, an error for any other text.
#[verifier::external_body]
fn decode_base64(s: &str) -> (r: Option<Vec<u8>>)
    ensures
        match base64_decoded(s@) {
            Some(b) => r matches Some(v) && v@ == b,
            None => r is None,
        },
{
    base64::Engine::decode(&base64::engine::general_purpose::STANDARD, s).ok()
}

/// An image generation response.
#[derive(Debug)]
pub struct Response {
    pub created: usize,
    pub data: Vec<ImageUrl>,
}

/// One generated image: a hosted URL or inline base64 data, as the request's
/// response format chose.
#[derive(Debug)]
pub struct ImageUrl {
    pub url: Option<url::Url>,
    pub b64_json: Option<String>,
}

impl ImageUrl {
    /// The image bytes, when the entry carries valid base64 data.
    pub fn decode_b64_json(&self) -> (r: Option<Vec<u8>>)
        ensures
            match self.b64_json {
                Some(s) => match base64_decoded(s@) {
                    Some(b) => r matches Some(v) && v@ == b,
                    None => r is None,
                },
                None => r is None,
            },
    {
        match &self.b64_json {
            Some(s) => decode_base64(s.as_str()),
            None => None,
        }
    }
}

impl Decode for ImageUrl {
    open spec fn decodable(j: Json) -> bool {
        &&& optional_text_of(member(j, "url"@)) matches Some(u) && (u matches Some(t) ==> url_accepts(t))
        &&& optional_text_of(member(j, "b64_json"@)) is Some
    }

    open spec fn decodes_from(self, j: Json) -> bool {
        &&& optional_text_of(member(j, "url"@)) matches Some(u) && (self.url is Some <==> u is Some)
        &&& optional_text_of(member(j, "b64_json"@)) == Some(view_of_text(self.b64_json))
    }

    fn from_json(j: &Json) -> (r: Result<ImageUrl, Error>) {
        let url = match optional_text_member(j, "url")? {
            Some(t) => match parse_url(t.as_str()) {
                Some(u) => Some(u),
                None => {
                    return Err(unexpected(t.as_str()));
                },
            },
            None => None,
        };
        let b64_json = optional_text_member(j, "b64_json")?;
        Ok(ImageUrl { url, b64_json })
    }
}

impl Decode for Response {
    open spec fn decodable(j: Json) -> bool {
        &&& count_of(member(j, "created"@)) is Some
        &&& list_decodable::<ImageUrl>(member(j, "data"@))
    }

    open spec fn decodes_from(self, j: Json) -> bool {
        &&& count_of(member(j, "created"@)) == Some(self.created)
        &&& list_decodes(member(j, "data"@), self.data@)
    }

    fn from_json(j: &Json) -> (r: Result<Response, Error>) {
        let created = count_member(j, "created")?;
        let data = list_member(j, "data")?;
        Ok(Response { created, data })
    }
}

/// The parameter names of the payload are pairwise different.
proof fn lemma_parameter_names_distinct()
    ensures
        "prompt"@ != "n"@,
        "prompt"@ != "size"@,
        "prompt"@ != "response_format"@,
        "prompt"@ != "user"@,
        "n"@ != "size"@,
        "n"@ != "response_format"@,
        "n"@ != "user"@,
        "size"@ != "response_format"@,
        "size"@ != "user"@,
        "response_format"@ != "user"@,
{
    reveal_strlit("prompt");
    reveal_strlit("n");
    reveal_strlit("size");
    reveal_strlit("response_format");
    reveal_strlit("user");
    assert("prompt"@.len() == 6);
    assert("n"@.len() == 1);
    assert("size"@.len() == 4);
    assert("response_format"@.len() == 15);
    assert("user"@.len() == 4);
    let ghost a = "size"@;
    let ghost b = "user"@;
    assert(a[0] != b[0]);
}

/// Each optional parameter has a member in the payload exactly when it is
/// set: an unset one leaves no key at all, not even one with `null`.
pub proof fn lemma_unset_parameters_omitted(r: Request)
    ensures
        has_key(r.members(), "prompt"@),
        has_key(r.members(), "n"@) <==> r.n is Some,
        has_key(r.members(), "size"@) <==> r.size is Some,
        has_key(r.members(), "response_format"@) <==> r.response_format is Some,
        has_key(r.members(), "user"@) <==> r.user is Some,
{
    broadcast use crate::payload::group_has_key;

    lemma_parameter_names_distinct();
}

/// The pixel dimensions of a generated image.
#[derive(Clone, Copy, Debug, PartialEq, Eq, Structural)]
pub enum Size {
    _256x256_,
    _512x512_,
    _1024x1024_,
}

impl Size {
    /// The spelling that the wire carries for this value.
    pub open spec fn name(self) -> Seq<char> {
        match self {
            Size::_256x256_ => "256x256"@,
            Size::_512x512_ => "512x512"@,
            Size::_1024x1024_ => "1024x1024"@,
        }
    }

    /// The value that a user-supplied string names, if any.
    pub open spec fn from_name(s: Seq<char>) -> Option<Size> {
        if s == "256x256"@ {
            Some(Size::_256x256_)
        } else if s == "512x512"@ {
            Some(Size::_512x512_)
        } else if s == "1024x1024"@ {
            Some(Size::_1024x1024_)
        } else {
            None
        }
    }

    /// The spelling that the wire carries for this value.
    pub fn as_str(&self) -> (r: &'static str)
        ensures
            r@ == self.name(),
    {
        match self {
            Size::_256x256_ => "256x256",
            Size::_512x512_ => "512x512",
            Size::_1024x1024_ => "1024x1024",
        }
    }

    /// Resolves a user-supplied string; any other string is refused with `UnsupportedImageSize`.
    pub fn parse(s: &str) -> (r: Result<Size, Error>)
        ensures
            Size::from_name(s@) matches Some(v) ==> r == Ok::<Size, Error>(v),
            Size::from_name(s@) is None ==> (r matches Err(Error::UnsupportedImageSize(t)) && t@ == s@),
    {
        if same_text(s, "256x256") {
            Ok(Size::_256x256_)
        } else if same_text(s, "512x512") {
            Ok(Size::_512x512_)
        } else if same_text(s, "1024x1024") {
            Ok(Size::_1024x1024_)
        } else {
            Err(Error::UnsupportedImageSize(s.to_owned()))
        }
    }

}

impl std::str::FromStr for Size {
    type Err = Error;

    fn from_str(s: &str) -> Result<Size, Error> {
        Size::parse(s)
    }
}

/// Parsing then writing back a known size gives the same spelling, and each
/// value is parsed back from its own spelling.
pub proof fn lemma_size_name_round_trip(s: Seq<char>)
    ensures
        Size::from_name(s) matches Some(m) ==> m.name() == s,
        forall|m: Size| Size::from_name(#[trigger] m.name()) == Some(m),
{
    assert forall|m: Size| Size::from_name(#[trigger] m.name()) == Some(m) by {
        reveal_strlit("1024x1024");
        assert("1024x1024"@.len() == 9);
        reveal_strlit("256x256");
        assert("256x256"@.len() == 7);
        reveal_strlit("512x512");
        assert("512x512"@.len() == 7);
        let ghost a = "256x256"@;
        let ghost b = "512x512"@;
        assert(a[0] != b[0]);
        match m {
            Size::_256x256_ => assert(Size::from_name("256x256"@) == Some(Size::_256x256_)),
            Size::_512x512_ => assert(Size::from_name("512x512"@) == Some(Size::_512x512_)),
            Size::_1024x1024_ => assert(Size::from_name("1024x1024"@) == Some(Size::_1024x1024_)),
        }
    }
}

/// How generated images come back: as hosted URLs or as inline base64 data.
#[derive(Clone, Copy, Debug, PartialEq, Eq, Structural)]
pub enum ResponseFormat {
    Url,
    B64Json,
}

impl ResponseFormat {
    /// The spelling that the wire carries for this value.
    pub open spec fn name(self) -> Seq<char> {
        match self {
            ResponseFormat::Url => "url"@,
            ResponseFormat::B64Json => "b64_json"@,
        }
    }

    /// The value that a user-supplied string names, if any.
    pub open spec fn from_name(s: Seq<char>) -> Option<ResponseFormat> {
        if s == "url"@ {
            Some(ResponseFormat::Url)
        } else if s == "b64json"@ {
            Some(ResponseFormat::B64Json)
        } else {
            None
        }
    }

    /// The spelling that the wire carries for this value.
    pub fn as_str(&self) -> (r: &'static str)
        ensures
            r@ == self.name(),
    {
        match self {
            ResponseFormat::Url => "url",
            ResponseFormat::B64Json => "b64_json",
        }
    }

    /// Resolves a user-supplied string; any other string is refused with `UnsupportedResponseFormat`.
    pub fn parse(s: &str) -> (r: Result<ResponseFormat, Error>)
        ensures
            ResponseFormat::from_name(s@) matches Some(v) ==> r == Ok::<ResponseFormat, Error>(v),
            ResponseFormat::from_name(s@) is None ==> (r matches Err(Error::UnsupportedResponseFormat(t)) && t@ == s@),
    {
        if same_text(s, "url") {
            Ok(ResponseFormat::Url)
        } else if same_text(s, "b64json") {
            Ok(ResponseFormat::B64Json)
        } else {
            Err(Error::UnsupportedResponseFormat(s.to_owned()))
        }
    }

}

impl std::str::FromStr for ResponseFormat {
    type Err = Error;

    fn from_str(s: &str) -> Result<ResponseFormat, Error> {
        ResponseFormat::parse(s)
    }
}

} // verus!
