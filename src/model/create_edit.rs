//! Text editing: the request, its payload, and the response.
use vstd::prelude::*;
use crate::decode::{
    count_member, count_of, decodable_at, decodes_at, list_decodable, list_decodes, list_member,
    text_member, text_of, value_member, Decode,
};
use crate::error::{Error, unexpected};
use crate::json::{Json, json_quoted, member, members_view, object_text, quote, render_object, same_text};
use crate::payload::{
    count_option, count_text, has_key, optional_member as optional_entry, push_member,
    push_optional, Members,
};
use crate::temperature::{temperature_option, temperature_text, Temperature};

verus! {

/// A text edit request.
#[derive(Debug)]
pub struct Request {
    pub model: Model,
    pub input: String,
    pub instruction: String,
    pub n: Option<usize>,
    pub temperature: Option<Temperature>,
    pub top_p: Option<usize>,
}

impl Request {
    /// A request with the model, the text and the instruction, and no
    /// optional parameter set.
    pub fn new(model: Model, input: String, instruction: String) -> (r: Request)
        ensures
            r == (Request { model, input, instruction, n: None, temperature: None, top_p: None }),
    {
        Request { model, input, instruction, n: None, temperature: None, top_p: None }
    }

    /// The payload's members, in the order they are written.
    pub open spec fn members(self) -> Members {
        seq![("model"@, json_quoted(self.model.name()))]
            + seq![("input"@, json_quoted(self.input@))]
            + seq![("instruction"@, json_quoted(self.instruction@))]
            + optional_entry("n"@, count_text(self.n))
            + optional_entry("temperature"@, temperature_text(self.temperature))
            + optional_entry("top_p"@, count_text(self.top_p))
    }

    /// The JSON payload of the request.
    pub fn to_json(&self) -> (r: String)
        ensures
            r@ == object_text(self.members()),
    {
        let mut m: Vec<(String, String)> = Vec::new();
        push_member(&mut m, "model", quote(self.model.as_str()));
        assert(members_view(m@) =~= seq![("model"@, json_quoted(self.model.name()))]);
        push_member(&mut m, "input", quote(self.input.as_str()));
        push_member(&mut m, "instruction", quote(self.instruction.as_str()));
        push_optional(&mut m, "n", count_option(self.n));
        push_optional(&mut m, "temperature", temperature_option(self.temperature));
        push_optional(&mut m, "top_p", count_option(self.top_p));
        render_object(&m)
    }
}

/// An edit response.
#[derive(Debug)]
pub struct Response {
    pub object: Object,
    pub created: usize,
    pub choices: Vec<Choice>,
    pub usage: Usage,
}

/// One edited text.
#[derive(Debug)]
pub struct Choice {
    pub text: String,
    pub index: usize,
}

/// Token counts of an edit.
#[derive(Debug)]
pub struct Usage {
    pub prompt_tokens: usize,
    pub completion_tokens: usize,
    pub total_tokens: usize,
}

impl Decode for Usage {
    open spec fn decodable(j: Json) -> bool {
        &&& count_of(member(j, "prompt_tokens"@)) is Some
        &&& count_of(member(j, "completion_tokens"@)) is Some
        &&& count_of(member(j, "total_tokens"@)) is Some
    }

    open spec fn decodes_from(self, j: Json) -> bool {
        &&& count_of(member(j, "prompt_tokens"@)) == Some(self.prompt_tokens)
        &&& count_of(member(j, "completion_tokens"@)) == Some(self.completion_tokens)
        &&& count_of(member(j, "total_tokens"@)) == Some(self.total_tokens)
    }

    fn from_json(j: &Json) -> (r: Result<Usage, Error>) {
        let prompt_tokens = count_member(j, "prompt_tokens")?;
        let completion_tokens = count_member(j, "completion_tokens")?;
        let total_tokens = count_member(j, "total_tokens")?;
        Ok(Usage { prompt_tokens, completion_tokens, total_tokens })
    }
}

impl Decode for Choice {
    open spec fn decodable(j: Json) -> bool {
        &&& text_of(member(j, "text"@)) is Some
        &&& count_of(member(j, "index"@)) is Some
    }

    open spec fn decodes_from(self, j: Json) -> bool {
        &&& text_of(member(j, "text"@)) == Some(self.text@)
        &&& count_of(member(j, "index"@)) == Some(self.index)
    }

    fn from_json(j: &Json) -> (r: Result<Choice, Error>) {
        let text = text_member(j, "text")?;
        let index = count_member(j, "index")?;
        Ok(Choice { text, index })
    }
}

impl Decode for Response {
    open spec fn decodable(j: Json) -> bool {
        &&& decodable_at::<Object>(member(j, "object"@))
        &&& count_of(member(j, "created"@)) is Some
        &&& list_decodable::<Choice>(member(j, "choices"@))
        &&& decodable_at::<Usage>(member(j, "usage"@))
    }

    open spec fn decodes_from(self, j: Json) -> bool {
        &&& decodes_at(member(j, "object"@), self.object)
        &&& count_of(member(j, "created"@)) == Some(self.created)
        &&& list_decodes(member(j, "choices"@), self.choices@)
        &&& decodes_at(member(j, "usage"@), self.usage)
    }

    fn from_json(j: &Json) -> (r: Result<Response, Error>) {
        let object = value_member(j, "object")?;
        let created = count_member(j, "created")?;
        let choices = list_member(j, "choices")?;
        let usage = value_member(j, "usage")?;
        Ok(Response { object, created, choices, usage })
    }
}

/// The parameter names of the payload are pairwise different.
proof fn lemma_parameter_names_distinct()
    ensures
        "model"@ != "input"@,
        "model"@ != "instruction"@,
        "model"@ != "n"@,
        "model"@ != "temperature"@,
        "model"@ != "top_p"@,
        "input"@ != "instruction"@,
        "input"@ != "n"@,
        "input"@ != "temperature"@,
        "input"@ != "top_p"@,
        "instruction"@ != "n"@,
        "instruction"@ != "temperature"@,
        "instruction"@ != "top_p"@,
        "n"@ != "temperature"@,
        "n"@ != "top_p"@,
        "temperature"@ != "top_p"@,
{
    reveal_strlit("model");
    reveal_strlit("input");
    reveal_strlit("instruction");
    reveal_strlit("n");
    reveal_strlit("temperature");
    reveal_strlit("top_p");
    assert("model"@.len() == 5);
    assert("input"@.len() == 5);
    assert("instruction"@.len() == 11);
    assert("n"@.len() == 1);
    assert("temperature"@.len() == 11);
    assert("top_p"@.len() == 5);
    let ghost a = "model"@;
    let ghost b = "input"@;
    assert(a[0] != b[0]);
    let ghost a = "model"@;
    let ghost b = "top_p"@;
    assert(a[0] != b[0]);
    let ghost a = "input"@;
    let ghost b = "top_p"@;
    assert(a[0] != b[0]);
    let ghost a = "instruction"@;
    let ghost b = "temperature"@;
    assert(a[0] != b[0]);
}

/// Each optional parameter has a member in the payload exactly when it is
/// set: an unset one leaves no key at all, not even one with `null`.
pub proof fn lemma_unset_parameters_omitted(r: Request)
    ensures
        has_key(r.members(), "model"@),
        has_key(r.members(), "input"@),
        has_key(r.members(), "instruction"@),
        has_key(r.members(), "n"@) <==> r.n is Some,
        has_key(r.members(), "temperature"@) <==> r.temperature is Some,
        has_key(r.members(), "top_p"@) <==> r.top_p is Some,
{
    broadcast use crate::payload::group_has_key;

    lemma_parameter_names_distinct();
}

/// A model that text editing accepts.
#[derive(Clone, Copy, Debug, PartialEq, Eq, Structural)]
pub enum Model {
    TextDavinciEdit001,
    CodeDavinciEdit001,
}

impl Model {
    /// The spelling that the wire carries for this value.
    pub open spec fn name(self) -> Seq<char> {
        match self {
            Model::TextDavinciEdit001 => "text-davinci-edit-001"@,
            Model::CodeDavinciEdit001 => "code-davinci-edit-001"@,
        }
    }

    /// The value that a user-supplied string names, if any.
    pub open spec fn from_name(s: Seq<char>) -> Option<Model> {
        if s == "text-davinci-edit-001"@ {
            Some(Model::TextDavinciEdit001)
        } else if s == "code-davinci-edit-001"@ {
            Some(Model::CodeDavinciEdit001)
        } else {
            None
        }
    }

    /// The spelling that the wire carries for this value.
    pub fn as_str(&self) -> (r: &'static str)
        ensures
            r@ == self.name(),
    {
        match self {
            Model::TextDavinciEdit001 => "text-davinci-edit-001",
            Model::CodeDavinciEdit001 => "code-davinci-edit-001",
        }
    }

    /// Resolves a user-supplied string; any other string is refused with `UnsupportedModel`.
    pub fn parse(s: &str) -> (r: Result<Model, Error>)
        ensures
            Model::from_name(s@) matches Some(v) ==> r == Ok::<Model, Error>(v),
            Model::from_name(s@) is None ==> (r matches Err(Error::UnsupportedModel(t)) && t@ == s@),
    {
        if same_text(s, "text-davinci-edit-001") {
            Ok(Model::TextDavinciEdit001)
        } else if same_text(s, "code-davinci-edit-001") {
            Ok(Model::CodeDavinciEdit001)
        } else {
            Err(Error::UnsupportedModel(s.to_owned()))
        }
    }

}

impl std::str::FromStr for Model {
    type Err = Error;

    fn from_str(s: &str) -> Result<Model, Error> {
        Model::parse(s)
    }
}

/// Parsing then writing back a known identifier gives the same spelling, and each
/// value is parsed back from its own spelling.
pub proof fn lemma_model_name_round_trip(s: Seq<char>)
    ensures
        Model::from_name(s) matches Some(m) ==> m.name() == s,
        forall|m: Model| Model::from_name(#[trigger] m.name()) == Some(m),
{
    assert forall|m: Model| Model::from_name(#[trigger] m.name()) == Some(m) by {
        reveal_strlit("code-davinci-edit-001");
        assert("code-davinci-edit-001"@.len() == 21);
        reveal_strlit("text-davinci-edit-001");
        assert("text-davinci-edit-001"@.len() == 21);
        let ghost a = "code-davinci-edit-001"@;
        let ghost b = "text-davinci-edit-001"@;
        assert(a[0] != b[0]);
        match m {
            Model::TextDavinciEdit001 => assert(Model::from_name("text-davinci-edit-001"@) == Some(Model::TextDavinciEdit001)),
            Model::CodeDavinciEdit001 => assert(Model::from_name("code-davinci-edit-001"@) == Some(Model::CodeDavinciEdit001)),
        }
    }
}

/// The `object` tag of an edit response.
#[derive(Clone, Copy, Debug, PartialEq, Eq, Structural)]
pub enum Object {
    Edit,
}

impl Object {
    /// The value that a response carries under the given spelling, if any.
    pub open spec fn from_wire(s: Seq<char>) -> Option<Object> {
        if s == "edit"@ {
            Some(Object::Edit)
        } else {
            None
        }
    }

    /// The value that a JSON string in a response stands for, if any.
    pub open spec fn decoded(j: Json) -> Option<Object> {
        match j {
            Json::Str(s) => Object::from_wire(s@),
            _ => None,
        }
    }

}

impl Decode for Object {
    open spec fn decodable(j: Json) -> bool {
        Object::decoded(j) is Some
    }

    open spec fn decodes_from(self, j: Json) -> bool {
        Object::decoded(j) == Some(self)
    }

    fn from_json(j: &Json) -> (r: Result<Object, Error>) {
        match j {
            Json::Str(s) => {
                if same_text(s.as_str(), "edit") {
                    Ok(Object::Edit)
                } else {
                    Err(unexpected(s.as_str()))
                }
            },
            _ => Err(unexpected("Object")),
        }
    }
}

} // verus!
