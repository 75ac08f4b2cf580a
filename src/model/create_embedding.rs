//! Embeddings: the request, its payload, and the response.
use vstd::prelude::*;
use crate::decode::{
    count_member, count_of, decodable_at, decodes_at, list_decodable, list_decodes, list_member,
    number_list_member, number_texts, numbers_of, value_member, Decode,
};
use crate::error::{Error, unexpected};
use crate::json::{Json, json_quoted, member, members_view, object_text, quote, render_object, same_text};
use crate::model::object::Object;
use crate::payload::{
    has_key, optional_member as optional_entry, push_member, push_optional, quote_option,
    quoted_text, Members,
};

verus! {

/// An embedding request for one input text.
#[derive(Debug)]
pub struct Request<'a> {
    pub model: Model,
    pub input: &'a str,
    pub user: &'a Option<String>,
}

impl<'a> Request<'a> {
    /// A request for the embedding of `input`, on behalf of `user` if given.
    pub fn new(model: Model, input: &'a str, user: &'a Option<String>) -> (r: Request<'a>)
        ensures
            r.model == model,
            r.input == input,
            r.user == user,
    {
        Request { model, input, user }
    }

    /// The payload's members, in the order they are written.
    pub open spec fn members(self) -> Members {
        seq![("model"@, json_quoted(self.model.name()))]
            + seq![("input"@, json_quoted(self.input@))]
            + optional_entry("user"@, quoted_text(*self.user))
    }

    /// The JSON payload of the request.
    pub fn to_json(&self) -> (r: String)
        ensures
            r@ == object_text(self.members()),
    {
        let mut m: Vec<(String, String)> = Vec::new();
        push_member(&mut m, "model", quote(self.model.as_str()));
        assert(members_view(m@) =~= seq![("model"@, json_quoted(self.model.name()))]);
        push_member(&mut m, "input", quote(self.input));
        push_optional(&mut m, "user", quote_option(self.user));
        render_object(&m)
    }
}

/// An embedding response.
#[derive(Debug)]
pub struct Response {
    pub object: Object,
    pub data: Vec<Data>,
    pub model: Model,
    pub usage: Usage,
}

/// One embedding vector. Each component is kept as the decimal text that the
/// response carries.
#[derive(Debug)]
pub struct Data {
    pub object: Object,
    pub embedding: Vec<String>,
    pub index: usize,
}

/// Token counts of an embedding request.
#[derive(Debug)]
pub struct Usage {
    pub prompt_tokens: usize,
    pub total_tokens: usize,
}

impl Decode for Usage {
    open spec fn decodable(j: Json) -> bool {
        &&& count_of(member(j, "prompt_tokens"@)) is Some
        &&& count_of(member(j, "total_tokens"@)) is Some
    }

    open spec fn decodes_from(self, j: Json) -> bool {
        &&& count_of(member(j, "prompt_tokens"@)) == Some(self.prompt_tokens)
        &&& count_of(member(j, "total_tokens"@)) == Some(self.total_tokens)
    }

    fn from_json(j: &Json) -> (r: Result<Usage, Error>) {
        let prompt_tokens = count_member(j, "prompt_tokens")?;
        let total_tokens = count_member(j, "total_tokens")?;
        Ok(Usage { prompt_tokens, total_tokens })
    }
}

impl Decode for Data {
    open spec fn decodable(j: Json) -> bool {
        &&& decodable_at::<Object>(member(j, "object"@))
        &&& numbers_of(member(j, "embedding"@)) is Some
        &&& count_of(member(j, "index"@)) is Some
    }

    open spec fn decodes_from(self, j: Json) -> bool {
        &&& decodes_at(member(j, "object"@), self.object)
        &&& numbers_of(member(j, "embedding"@)) is Some
        &&& number_texts(numbers_of(member(j, "embedding"@)).unwrap(), self.embedding@)
        &&& count_of(member(j, "index"@)) == Some(self.index)
    }

    fn from_json(j: &Json) -> (r: Result<Data, Error>) {
        let object = value_member(j, "object")?;
        let embedding = number_list_member(j, "embedding")?;
        let index = count_member(j, "index")?;
        Ok(Data { object, embedding, index })
    }
}

impl Decode for Response {
    open spec fn decodable(j: Json) -> bool {
        &&& decodable_at::<Object>(member(j, "object"@))
        &&& list_decodable::<Data>(member(j, "data"@))
        &&& decodable_at::<Model>(member(j, "model"@))
        &&& decodable_at::<Usage>(member(j, "usage"@))
    }

    open spec fn decodes_from(self, j: Json) -> bool {
        &&& decodes_at(member(j, "object"@), self.object)
        &&& list_decodes(member(j, "data"@), self.data@)
        &&& decodes_at(member(j, "model"@), self.model)
        &&& decodes_at(member(j, "usage"@), self.usage)
    }

    fn from_json(j: &Json) -> (r: Result<Response, Error>) {
        let object = value_member(j, "object")?;
        let data = list_member(j, "data")?;
        let model = value_member(j, "model")?;
        let usage = value_member(j, "usage")?;
        Ok(Response { object, data, model, usage })
    }
}

/// The parameter names of the payload are pairwise different.
proof fn lemma_parameter_names_distinct()
    ensures
        "model"@ != "input"@,
        "model"@ != "user"@,
        "input"@ != "user"@,
{
    reveal_strlit("model");
    reveal_strlit("input");
    reveal_strlit("user");
    assert("model"@.len() == 5);
    assert("input"@.len() == 5);
    assert("user"@.len() == 4);
    let ghost a = "model"@;
    let ghost b = "input"@;
    assert(a[0] != b[0]);
}

/// Each optional parameter has a member in the payload exactly when it is
/// set: an unset one leaves no key at all, not even one with `null`.
pub proof fn lemma_unset_parameters_omitted(r: Request<'_>)
    ensures
        has_key(r.members(), "model"@),
        has_key(r.members(), "input"@),
        has_key(r.members(), "user"@) <==> *r.user is Some,
{
    broadcast use crate::payload::group_has_key;

    lemma_parameter_names_distinct();
}

/// A model that embedding accepts. Responses name it with a `-v2` suffix.
#[derive(Clone, Copy, Debug, PartialEq, Eq, Structural)]
pub enum Model {
    TextEmbeddingAda002,
}

impl Model {
    /// The spelling that the wire carries for this value.
    pub open spec fn name(self) -> Seq<char> {
        match self {
            Model::TextEmbeddingAda002 => "text-embedding-ada-002"@,
        }
    }

    /// The value that a user-supplied string names, if any.
    pub open spec fn from_name(s: Seq<char>) -> Option<Model> {
        if s == "text-embedding-ada-002"@ {
            Some(Model::TextEmbeddingAda002)
        } else {
            None
        }
    }

    /// The value that a response carries under the given spelling, if any.
    pub open spec fn from_wire(s: Seq<char>) -> Option<Model> {
        if s == "text-embedding-ada-002-v2"@ {
            Some(Model::TextEmbeddingAda002)
        } else {
            None
        }
    }

    /// The value that a JSON string in a response stands for, if any.
    pub open spec fn decoded(j: Json) -> Option<Model> {
        match j {
            Json::Str(s) => Model::from_wire(s@),
            _ => None,
        }
    }

    /// The spelling that the wire carries for this value.
    pub fn as_str(&self) -> (r: &'static str)
        ensures
            r@ == self.name(),
    {
        match self {
            Model::TextEmbeddingAda002 => "text-embedding-ada-002",
        }
    }

    /// Resolves a user-supplied string; any other string is refused with `UnsupportedModel`.
    pub fn parse(s: &str) -> (r: Result<Model, Error>)
        ensures
            Model::from_name(s@) matches Some(v) ==> r == Ok::<Model, Error>(v),
            Model::from_name(s@) is None ==> (r matches Err(Error::UnsupportedModel(t)) && t@ == s@),
    {
        if same_text(s, "text-embedding-ada-002") {
            Ok(Model::TextEmbeddingAda002)
        } else {
            Err(Error::UnsupportedModel(s.to_owned()))
        }
    }

}

impl Decode for Model {
    open spec fn decodable(j: Json) -> bool {
        Model::decoded(j) is Some
    }

    open spec fn decodes_from(self, j: Json) -> bool {
        Model::decoded(j) == Some(self)
    }

    fn from_json(j: &Json) -> (r: Result<Model, Error>) {
        match j {
            Json::Str(s) => {
                if same_text(s.as_str(), "text-embedding-ada-002-v2") {
                    Ok(Model::TextEmbeddingAda002)
                } else {
                    Err(unexpected(s.as_str()))
                }
            },
            _ => Err(unexpected("Model")),
        }
    }
}

impl std::str::FromStr for Model {
    type Err = Error;

    fn from_str(s: &str) -> Result<Model, Error> {
        Model::parse(s)
    }
}

/// Parsing then writing back a known identifier gives the same spelling, and each
/// value is parsed back from its own spelling.
pub proof fn lemma_model_name_round_trip(s: Seq<char>)
    ensures
        Model::from_name(s) matches Some(m) ==> m.name() == s,
        forall|m: Model| Model::from_name(#[trigger] m.name()) == Some(m),
{
    assert forall|m: Model| Model::from_name(#[trigger] m.name()) == Some(m) by {
        reveal_strlit("text-embedding-ada-002");
        assert("text-embedding-ada-002"@.len() == 22);
        match m {
            Model::TextEmbeddingAda002 => assert(Model::from_name("text-embedding-ada-002"@) == Some(Model::TextEmbeddingAda002)),
        }
    }
}

} // verus!
