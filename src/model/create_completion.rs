//! Text completion: the request, its payload, and the response.
use vstd::prelude::*;
use crate::decode::{
    count_member, count_of, decodable_at, decodes_at, list_decodable, list_decodes, list_member,
    optional_count_member, optional_count_of, optional_decodable, optional_decodes,
    optional_member, text_member, text_of, value_member, Decode,
};
use crate::error::{Error, unexpected};
use crate::json::{Json, json_quoted, member, object_text, quote, render_object, same_text};
use crate::model::object::Object;
use crate::payload::{
    count_option, count_text, flag_option, flag_text, optional_member as optional_entry,
    has_key, push_member, push_optional, quote_option, quoted_text, signed_option, signed_text, Members,
};
use crate::temperature::{temperature_option, temperature_text, Temperature};

verus! {

/// A text completion request. Every parameter but the model and the prompt
/// is optional, and an unset one is left out of the payload.
#[derive(Debug)]
pub struct Request {
    pub model: Model,
    pub prompt: String,
    pub suffix: Option<String>,
    pub max_tokens: Option<usize>,
    pub temperature: Option<Temperature>,
    pub top_p: Option<usize>,
    pub n: Option<usize>,
    pub stream: Option<bool>,
    pub logprobs: Option<usize>,
    pub echo: Option<bool>,
    pub stop: Option<String>,
    pub presence_penalty: Option<isize>,
    pub frequency_penalty: Option<isize>,
    pub best_of: Option<usize>,
    pub logit_bias: Option<String>,
    pub user: Option<String>,
}

impl Request {
    /// A request with the model and the prompt and no optional parameter set.
    pub fn new(model: Model, prompt: String) -> (r: Request)
        ensures
            r == (Request {
                model,
                prompt,
                suffix: None,
                max_tokens: None,
                temperature: None,
                top_p: None,
                n: None,
                stream: None,
                logprobs: None,
                echo: None,
                stop: None,
                presence_penalty: None,
                frequency_penalty: None,
                best_of: None,
                logit_bias: None,
                user: None,
            }),
    {
        Request {
            model,
            prompt,
            suffix: None,
            max_tokens: None,
            temperature: None,
            top_p: None,
            n: None,
            stream: None,
            logprobs: None,
            echo: None,
            stop: None,
            presence_penalty: None,
            frequency_penalty: None,
            best_of: None,
            logit_bias: None,
            user: None,
        }
    }

    /// Sets the text that follows the completion.
    pub fn suffix(self, suffix: String) -> (r: Request)
        ensures
            r == (Request { suffix: Some(suffix), ..self }),
    {
        let mut r = self;
        r.suffix = Some(suffix);
        r
    }

    /// Sets the most tokens to generate.
    pub fn max_tokens(self, max_tokens: usize) -> (r: Request)
        ensures
            r == (Request { max_tokens: Some(max_tokens), ..self }),
    {
        let mut r = self;
        r.max_tokens = Some(max_tokens);
        r
    }

    /// Sets the sampling temperature. The bound check lets a value through
    /// when it is at most `2.0` or at least `0.0`; every value is one or the
    /// other, so the value is always kept, also outside the documented range
    /// of `0.0` to `2.0`.
    pub fn temperature(self, temperature: Temperature) -> (r: Request)
        ensures
            r == (Request { temperature: Some(temperature), ..self }),
    {
        let mut r = self;
        if temperature.thousandths <= 2000 || temperature.thousandths >= 0 {
            r.temperature = Some(temperature);
        }
        r
    }

    /// The payload's members, in the order they are written.
    pub open spec fn members(self) -> Members {
        seq![("model"@, json_quoted(self.model.name()))] + seq![("prompt"@, json_quoted(self.prompt@))]
            + optional_entry("suffix"@, quoted_text(self.suffix))
            + optional_entry("max_tokens"@, count_text(self.max_tokens))
            + optional_entry("temperature"@, temperature_text(self.temperature))
            + optional_entry("top_p"@, count_text(self.top_p))
            + optional_entry("n"@, count_text(self.n))
            + optional_entry("stream"@, flag_text(self.stream))
            + optional_entry("logprobs"@, count_text(self.logprobs))
            + optional_entry("echo"@, flag_text(self.echo))
            + optional_entry("stop"@, quoted_text(self.stop))
            + optional_entry("presence_penalty"@, signed_text(self.presence_penalty))
            + optional_entry("frequency_penalty"@, signed_text(self.frequency_penalty))
            + optional_entry("best_of"@, count_text(self.best_of))
            + optional_entry("logit_bias"@, quoted_text(self.logit_bias))
            + optional_entry("user"@, quoted_text(self.user))
    }

    /// The JSON payload of the request.
    pub fn to_json(&self) -> (r: String)
        ensures
            r@ == object_text(self.members()),
    {
        let mut m: Vec<(String, String)> = Vec::new();
        push_member(&mut m, "model", quote(self.model.as_str()));
        assert(crate::json::members_view(m@) =~= seq![("model"@, json_quoted(self.model.name()))]);
        push_member(&mut m, "prompt", quote(self.prompt.as_str()));
        push_optional(&mut m, "suffix", quote_option(&self.suffix));
        push_optional(&mut m, "max_tokens", count_option(self.max_tokens));
        push_optional(&mut m, "temperature", temperature_option(self.temperature));
        push_optional(&mut m, "top_p", count_option(self.top_p));
        push_optional(&mut m, "n", count_option(self.n));
        push_optional(&mut m, "stream", flag_option(self.stream));
        push_optional(&mut m, "logprobs", count_option(self.logprobs));
        push_optional(&mut m, "echo", flag_option(self.echo));
        push_optional(&mut m, "stop", quote_option(&self.stop));
        push_optional(&mut m, "presence_penalty", signed_option(self.presence_penalty));
        push_optional(&mut m, "frequency_penalty", signed_option(self.frequency_penalty));
        push_optional(&mut m, "best_of", count_option(self.best_of));
        push_optional(&mut m, "logit_bias", quote_option(&self.logit_bias));
        push_optional(&mut m, "user", quote_option(&self.user));
        render_object(&m)
    }
}

/// A completion response.
#[derive(Debug)]
pub struct Response {
    pub id: String,
    pub object: Object,
    pub created: usize,
    pub model: Model,
    pub choices: Vec<Choice>,
    pub usage: Usage,
}

/// One generated completion.
#[derive(Debug)]
pub struct Choice {
    pub text: String,
    pub index: usize,
    pub logprobs: Option<usize>,
    pub finish_reason: Option<FinishReason>,
}

/// Token counts of a completion.
#[derive(Debug)]
pub struct Usage {
    pub prompt_tokens: usize,
    pub completion_tokens: usize,
    pub total_tokens: usize,
}

impl Decode for Usage {
    open spec fn decodable(j: Json) -> bool {
        &&& count_of(member(j, "prompt_tokens"@)) is Some
        &&& count_of(member(j, "completion_tokens"@)) is Some
        &&& count_of(member(j, "total_tokens"@)) is Some
    }

    open spec fn decodes_from(self, j: Json) -> bool {
        &&& count_of(member(j, "prompt_tokens"@)) == Some(self.prompt_tokens)
        &&& count_of(member(j, "completion_tokens"@)) == Some(self.completion_tokens)
        &&& count_of(member(j, "total_tokens"@)) == Some(self.total_tokens)
    }

    fn from_json(j: &Json) -> (r: Result<Usage, Error>) {
        let prompt_tokens = count_member(j, "prompt_tokens")?;
        let completion_tokens = count_member(j, "completion_tokens")?;
        let total_tokens = count_member(j, "total_tokens")?;
        Ok(Usage { prompt_tokens, completion_tokens, total_tokens })
    }
}

impl Decode for Choice {
    open spec fn decodable(j: Json) -> bool {
        &&& text_of(member(j, "text"@)) is Some
        &&& count_of(member(j, "index"@)) is Some
        &&& optional_count_of(member(j, "logprobs"@)) is Some
        &&& optional_decodable::<FinishReason>(member(j, "finish_reason"@))
    }

    open spec fn decodes_from(self, j: Json) -> bool {
        &&& text_of(member(j, "text"@)) == Some(self.text@)
        &&& count_of(member(j, "index"@)) == Some(self.index)
        &&& optional_count_of(member(j, "logprobs"@)) == Some(self.logprobs)
        &&& optional_decodes(member(j, "finish_reason"@), self.finish_reason)
    }

    fn from_json(j: &Json) -> (r: Result<Choice, Error>) {
        let text = text_member(j, "text")?;
        let index = count_member(j, "index")?;
        let logprobs = optional_count_member(j, "logprobs")?;
        let finish_reason = optional_member(j, "finish_reason")?;
        Ok(Choice { text, index, logprobs, finish_reason })
    }
}

impl Decode for Response {
    open spec fn decodable(j: Json) -> bool {
        &&& text_of(member(j, "id"@)) is Some
        &&& decodable_at::<Object>(member(j, "object"@))
        &&& count_of(member(j, "created"@)) is Some
        &&& decodable_at::<Model>(member(j, "model"@))
        &&& list_decodable::<Choice>(member(j, "choices"@))
        &&& decodable_at::<Usage>(member(j, "usage"@))
    }

    open spec fn decodes_from(self, j: Json) -> bool {
        &&& text_of(member(j, "id"@)) == Some(self.id@)
        &&& decodes_at(member(j, "object"@), self.object)
        &&& count_of(member(j, "created"@)) == Some(self.created)
        &&& decodes_at(member(j, "model"@), self.model)
        &&& list_decodes(member(j, "choices"@), self.choices@)
        &&& decodes_at(member(j, "usage"@), self.usage)
    }

    fn from_json(j: &Json) -> (r: Result<Response, Error>) {
        let id = text_member(j, "id")?;
        let object = value_member(j, "object")?;
        let created = count_member(j, "created")?;
        let model = value_member(j, "model")?;
        let choices = list_member(j, "choices")?;
        let usage = value_member(j, "usage")?;
        Ok(Response { id, object, created, model, choices, usage })
    }
}

/// The parameter names of the payload are pairwise different.
proof fn lemma_parameter_names_distinct()
    ensures
        "model"@ != "prompt"@,
        "model"@ != "suffix"@,
        "model"@ != "max_tokens"@,
        "model"@ != "temperature"@,
        "model"@ != "top_p"@,
        "model"@ != "n"@,
        "model"@ != "stream"@,
        "model"@ != "logprobs"@,
        "model"@ != "echo"@,
        "model"@ != "stop"@,
        "model"@ != "presence_penalty"@,
        "model"@ != "frequency_penalty"@,
        "model"@ != "best_of"@,
        "model"@ != "logit_bias"@,
        "model"@ != "user"@,
        "prompt"@ != "suffix"@,
        "prompt"@ != "max_tokens"@,
        "prompt"@ != "temperature"@,
        "prompt"@ != "top_p"@,
        "prompt"@ != "n"@,
        "prompt"@ != "stream"@,
        "prompt"@ != "logprobs"@,
        "prompt"@ != "echo"@,
        "prompt"@ != "stop"@,
        "prompt"@ != "presence_penalty"@,
        "prompt"@ != "frequency_penalty"@,
        "prompt"@ != "best_of"@,
        "prompt"@ != "logit_bias"@,
        "prompt"@ != "user"@,
        "suffix"@ != "max_tokens"@,
        "suffix"@ != "temperature"@,
        "suffix"@ != "top_p"@,
        "suffix"@ != "n"@,
        "suffix"@ != "stream"@,
        "suffix"@ != "logprobs"@,
        "suffix"@ != "echo"@,
        "suffix"@ != "stop"@,
        "suffix"@ != "presence_penalty"@,
        "suffix"@ != "frequency_penalty"@,
        "suffix"@ != "best_of"@,
        "suffix"@ != "logit_bias"@,
        "suffix"@ != "user"@,
        "max_tokens"@ != "temperature"@,
        "max_tokens"@ != "top_p"@,
        "max_tokens"@ != "n"@,
        "max_tokens"@ != "stream"@,
        "max_tokens"@ != "logprobs"@,
        "max_tokens"@ != "echo"@,
        "max_tokens"@ != "stop"@,
        "max_tokens"@ != "presence_penalty"@,
        "max_tokens"@ != "frequency_penalty"@,
        "max_tokens"@ != "best_of"@,
        "max_tokens"@ != "logit_bias"@,
        "max_tokens"@ != "user"@,
        "temperature"@ != "top_p"@,
        "temperature"@ != "n"@,
        "temperature"@ != "stream"@,
        "temperature"@ != "logprobs"@,
        "temperature"@ != "echo"@,
        "temperature"@ != "stop"@,
        "temperature"@ != "presence_penalty"@,
        "temperature"@ != "frequency_penalty"@,
        "temperature"@ != "best_of"@,
        "temperature"@ != "logit_bias"@,
        "temperature"@ != "user"@,
        "top_p"@ != "n"@,
        "top_p"@ != "stream"@,
        "top_p"@ != "logprobs"@,
        "top_p"@ != "echo"@,
        "top_p"@ != "stop"@,
        "top_p"@ != "presence_penalty"@,
        "top_p"@ != "frequency_penalty"@,
        "top_p"@ != "best_of"@,
        "top_p"@ != "logit_bias"@,
        "top_p"@ != "user"@,
        "n"@ != "stream"@,
        "n"@ != "logprobs"@,
        "n"@ != "echo"@,
        "n"@ != "stop"@,
        "n"@ != "presence_penalty"@,
        "n"@ != "frequency_penalty"@,
        "n"@ != "best_of"@,
        "n"@ != "logit_bias"@,
        "n"@ != "user"@,
        "stream"@ != "logprobs"@,
        "stream"@ != "echo"@,
        "stream"@ != "stop"@,
        "stream"@ != "presence_penalty"@,
        "stream"@ != "frequency_penalty"@,
        "stream"@ != "best_of"@,
        "stream"@ != "logit_bias"@,
        "stream"@ != "user"@,
        "logprobs"@ != "echo"@,
        "logprobs"@ != "stop"@,
        "logprobs"@ != "presence_penalty"@,
        "logprobs"@ != "frequency_penalty"@,
        "logprobs"@ != "best_of"@,
        "logprobs"@ != "logit_bias"@,
        "logprobs"@ != "user"@,
        "echo"@ != "stop"@,
        "echo"@ != "presence_penalty"@,
        "echo"@ != "frequency_penalty"@,
        "echo"@ != "best_of"@,
        "echo"@ != "logit_bias"@,
        "echo"@ != "user"@,
        "stop"@ != "presence_penalty"@,
        "stop"@ != "frequency_penalty"@,
        "stop"@ != "best_of"@,
        "stop"@ != "logit_bias"@,
        "stop"@ != "user"@,
        "presence_penalty"@ != "frequency_penalty"@,
        "presence_penalty"@ != "best_of"@,
        "presence_penalty"@ != "logit_bias"@,
        "presence_penalty"@ != "user"@,
        "frequency_penalty"@ != "best_of"@,
        "frequency_penalty"@ != "logit_bias"@,
        "frequency_penalty"@ != "user"@,
        "best_of"@ != "logit_bias"@,
        "best_of"@ != "user"@,
        "logit_bias"@ != "user"@,
{
    reveal_strlit("model");
    reveal_strlit("prompt");
    reveal_strlit("suffix");
    reveal_strlit("max_tokens");
    reveal_strlit("temperature");
    reveal_strlit("top_p");
    reveal_strlit("n");
    reveal_strlit("stream");
    reveal_strlit("logprobs");
    reveal_strlit("echo");
    reveal_strlit("stop");
    reveal_strlit("presence_penalty");
    reveal_strlit("frequency_penalty");
    reveal_strlit("best_of");
    reveal_strlit("logit_bias");
    reveal_strlit("user");
    assert("model"@.len() == 5);
    assert("prompt"@.len() == 6);
    assert("suffix"@.len() == 6);
    assert("max_tokens"@.len() == 10);
    assert("temperature"@.len() == 11);
    assert("top_p"@.len() == 5);
    assert("n"@.len() == 1);
    assert("stream"@.len() == 6);
    assert("logprobs"@.len() == 8);
    assert("echo"@.len() == 4);
    assert("stop"@.len() == 4);
    assert("presence_penalty"@.len() == 16);
    assert("frequency_penalty"@.len() == 17);
    assert("best_of"@.len() == 7);
    assert("logit_bias"@.len() == 10);
    assert("user"@.len() == 4);
    let ghost a = "model"@;
    let ghost b = "top_p"@;
    assert(a[0] != b[0]);
    let ghost a = "prompt"@;
    let ghost b = "suffix"@;
    assert(a[0] != b[0]);
    let ghost a = "prompt"@;
    let ghost b = "stream"@;
    assert(a[0] != b[0]);
    let ghost a = "suffix"@;
    let ghost b = "stream"@;
    assert(a[1] != b[1]);
    let ghost a = "max_tokens"@;
    let ghost b = "logit_bias"@;
    assert(a[0] != b[0]);
    let ghost a = "echo"@;
    let ghost b = "stop"@;
    assert(a[0] != b[0]);
    let ghost a = "echo"@;
    let ghost b = "user"@;
    assert(a[0] != b[0]);
    let ghost a = "stop"@;
    let ghost b = "user"@;
    assert(a[0] != b[0]);
}

/// Each optional parameter has a member in the payload exactly when it is
/// set: an unset one leaves no key at all, not even one with `null`.
pub proof fn lemma_unset_parameters_omitted(r: Request)
    ensures
        has_key(r.members(), "model"@),
        has_key(r.members(), "prompt"@),
        has_key(r.members(), "suffix"@) <==> r.suffix is Some,
        has_key(r.members(), "max_tokens"@) <==> r.max_tokens is Some,
        has_key(r.members(), "temperature"@) <==> r.temperature is Some,
        has_key(r.members(), "top_p"@) <==> r.top_p is Some,
        has_key(r.members(), "n"@) <==> r.n is Some,
        has_key(r.members(), "stream"@) <==> r.stream is Some,
        has_key(r.members(), "logprobs"@) <==> r.logprobs is Some,
        has_key(r.members(), "echo"@) <==> r.echo is Some,
        has_key(r.members(), "stop"@) <==> r.stop is Some,
        has_key(r.members(), "presence_penalty"@) <==> r.presence_penalty is Some,
        has_key(r.members(), "frequency_penalty"@) <==> r.frequency_penalty is Some,
        has_key(r.members(), "best_of"@) <==> r.best_of is Some,
        has_key(r.members(), "logit_bias"@) <==> r.logit_bias is Some,
        has_key(r.members(), "user"@) <==> r.user is Some,
{
    broadcast use crate::payload::group_has_key;

    lemma_parameter_names_distinct();
}

/// A model that text completion accepts.
#[derive(Clone, Copy, Debug, PartialEq, Eq, Structural)]
pub enum Model {
    TextDavinci003,
    TextDavinci002,
    TextCurie001,
    TextBabbage001,
    TextAda001,
}

impl Model {
    /// The spelling that the wire carries for this value.
    pub open spec fn name(self) -> Seq<char> {
        match self {
            Model::TextDavinci003 => "text-davinci-003"@,
            Model::TextDavinci002 => "text-davinci-002"@,
            Model::TextCurie001 => "text-curie-001"@,
            Model::TextBabbage001 => "text-babbage-001"@,
            Model::TextAda001 => "text-ada-001"@,
        }
    }

    /// The value that a user-supplied string names, if any.
    pub open spec fn from_name(s: Seq<char>) -> Option<Model> {
        if s == "text-davinci-003"@ {
            Some(Model::TextDavinci003)
        } else if s == "text-davinci-002"@ {
            Some(Model::TextDavinci002)
        } else if s == "text-curie-001"@ {
            Some(Model::TextCurie001)
        } else if s == "text-babbage-001"@ {
            Some(Model::TextBabbage001)
        } else if s == "text-ada-001"@ {
            Some(Model::TextAda001)
        } else {
            None
        }
    }

    /// The value that a response carries under the given spelling, if any.
    pub open spec fn from_wire(s: Seq<char>) -> Option<Model> {
        Model::from_name(s)
    }

    /// The value that a JSON string in a response stands for, if any.
    pub open spec fn decoded(j: Json) -> Option<Model> {
        match j {
            Json::Str(s) => Model::from_wire(s@),
            _ => None,
        }
    }

    /// The spelling that the wire carries for this value.
    pub fn as_str(&self) -> (r: &'static str)
        ensures
            r@ == self.name(),
    {
        match self {
            Model::TextDavinci003 => "text-davinci-003",
            Model::TextDavinci002 => "text-davinci-002",
            Model::TextCurie001 => "text-curie-001",
            Model::TextBabbage001 => "text-babbage-001",
            Model::TextAda001 => "text-ada-001",
        }
    }

    /// Resolves a user-supplied string; any other string is refused with `UnsupportedModel`.
    pub fn parse(s: &str) -> (r: Result<Model, Error>)
        ensures
            Model::from_name(s@) matches Some(v) ==> r == Ok::<Model, Error>(v),
            Model::from_name(s@) is None ==> (r matches Err(Error::UnsupportedModel(t)) && t@ == s@),
    {
        if same_text(s, "text-davinci-003") {
            Ok(Model::TextDavinci003)
        } else if same_text(s, "text-davinci-002") {
            Ok(Model::TextDavinci002)
        } else if same_text(s, "text-curie-001") {
            Ok(Model::TextCurie001)
        } else if same_text(s, "text-babbage-001") {
            Ok(Model::TextBabbage001)
        } else if same_text(s, "text-ada-001") {
            Ok(Model::TextAda001)
        } else {
            Err(Error::UnsupportedModel(s.to_owned()))
        }
    }

}

impl Decode for Model {
    open spec fn decodable(j: Json) -> bool {
        Model::decoded(j) is Some
    }

    open spec fn decodes_from(self, j: Json) -> bool {
        Model::decoded(j) == Some(self)
    }

    fn from_json(j: &Json) -> (r: Result<Model, Error>) {
        match j {
            Json::Str(s) => {
                if same_text(s.as_str(), "text-davinci-003") {
                    Ok(Model::TextDavinci003)
                } else if same_text(s.as_str(), "text-davinci-002") {
                    Ok(Model::TextDavinci002)
                } else if same_text(s.as_str(), "text-curie-001") {
                    Ok(Model::TextCurie001)
                } else if same_text(s.as_str(), "text-babbage-001") {
                    Ok(Model::TextBabbage001)
                } else if same_text(s.as_str(), "text-ada-001") {
                    Ok(Model::TextAda001)
                } else {
                    Err(unexpected(s.as_str()))
                }
            },
            _ => Err(unexpected("Model")),
        }
    }
}

impl std::str::FromStr for Model {
    type Err = Error;

    fn from_str(s: &str) -> Result<Model, Error> {
        Model::parse(s)
    }
}

/// Parsing then writing back a known identifier gives the same spelling, and each
/// value is parsed back from its own spelling.
pub proof fn lemma_model_name_round_trip(s: Seq<char>)
    ensures
        Model::from_name(s) matches Some(m) ==> m.name() == s,
        forall|m: Model| Model::from_name(#[trigger] m.name()) == Some(m),
{
    assert forall|m: Model| Model::from_name(#[trigger] m.name()) == Some(m) by {
        reveal_strlit("text-ada-001");
        assert("text-ada-001"@.len() == 12);
        reveal_strlit("text-babbage-001");
        assert("text-babbage-001"@.len() == 16);
        reveal_strlit("text-curie-001");
        assert("text-curie-001"@.len() == 14);
        reveal_strlit("text-davinci-002");
        assert("text-davinci-002"@.len() == 16);
        reveal_strlit("text-davinci-003");
        assert("text-davinci-003"@.len() == 16);
        let ghost a = "text-babbage-001"@;
        let ghost b = "text-davinci-002"@;
        assert(a[5] != b[5]);
        let ghost a = "text-babbage-001"@;
        let ghost b = "text-davinci-003"@;
        assert(a[5] != b[5]);
        let ghost a = "text-davinci-002"@;
        let ghost b = "text-davinci-003"@;
        assert(a[15] != b[15]);
        match m {
            Model::TextDavinci003 => assert(Model::from_name("text-davinci-003"@) == Some(Model::TextDavinci003)),
            Model::TextDavinci002 => assert(Model::from_name("text-davinci-002"@) == Some(Model::TextDavinci002)),
            Model::TextCurie001 => assert(Model::from_name("text-curie-001"@) == Some(Model::TextCurie001)),
            Model::TextBabbage001 => assert(Model::from_name("text-babbage-001"@) == Some(Model::TextBabbage001)),
            Model::TextAda001 => assert(Model::from_name("text-ada-001"@) == Some(Model::TextAda001)),
        }
    }
}

/// Why a completion stopped.
#[derive(Clone, Copy, Debug, PartialEq, Eq, Structural)]
pub enum FinishReason {
    Length,
    Stop,
}

impl FinishReason {
    /// The value that a response carries under the given spelling, if any.
    pub open spec fn from_wire(s: Seq<char>) -> Option<FinishReason> {
        if s == "length"@ {
            Some(FinishReason::Length)
        } else if s == "stop"@ {
            Some(FinishReason::Stop)
        } else {
            None
        }
    }

    /// The value that a JSON string in a response stands for, if any.
    pub open spec fn decoded(j: Json) -> Option<FinishReason> {
        match j {
            Json::Str(s) => FinishReason::from_wire(s@),
            _ => None,
        }
    }

}

impl Decode for FinishReason {
    open spec fn decodable(j: Json) -> bool {
        FinishReason::decoded(j) is Some
    }

    open spec fn decodes_from(self, j: Json) -> bool {
        FinishReason::decoded(j) == Some(self)
    }

    fn from_json(j: &Json) -> (r: Result<FinishReason, Error>) {
        match j {
            Json::Str(s) => {
                if same_text(s.as_str(), "length") {
                    Ok(FinishReason::Length)
                } else if same_text(s.as_str(), "stop") {
                    Ok(FinishReason::Stop)
                } else {
                    Err(unexpected(s.as_str()))
                }
            },
            _ => Err(unexpected("FinishReason")),
        }
    }
}

} // verus!
