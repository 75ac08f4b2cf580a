//! Model identifiers shared by several operations.
use vstd::prelude::*;
use crate::error::{Error, unexpected};
use crate::decode::Decode;
use crate::json::{Json, same_text};

verus! {

/// A model identifier that any operation may name.
#[derive(Clone, Copy, Debug, PartialEq, Eq, Structural)]
pub enum Model {
    Gpt3dot5turbo,
    Gpt4,
    TextDavinci003,
}

impl Model {
    /// The spelling that the wire carries for this value.
    pub open spec fn name(self) -> Seq<char> {
        match self {
            Model::Gpt3dot5turbo => "gpt-3.5-turbo"@,
            Model::Gpt4 => "gpt-4"@,
            Model::TextDavinci003 => "text-davinci-003"@,
        }
    }

    /// The value that a user-supplied string names, if any.
    pub open spec fn from_name(s: Seq<char>) -> Option<Model> {
        if s == "gpt-3.5-turbo"@ {
            Some(Model::Gpt3dot5turbo)
        } else if s == "gpt-4"@ {
            Some(Model::Gpt4)
        } else if s == "text-davinci-003"@ {
            Some(Model::TextDavinci003)
        } else {
            None
        }
    }

    /// The value that a response carries under the given spelling, if any.
    pub open spec fn from_wire(s: Seq<char>) -> Option<Model> {
        Model::from_name(s)
    }

    /// The value that a JSON string in a response stands for, if any.
    pub open spec fn decoded(j: Json) -> Option<Model> {
        match j {
            Json::Str(s) => Model::from_wire(s@),
            _ => None,
        }
    }

    /// The spelling that the wire carries for this value.
    pub fn as_str(&self) -> (r: &'static str)
        ensures
            r@ == self.name(),
    {
        match self {
            Model::Gpt3dot5turbo => "gpt-3.5-turbo",
            Model::Gpt4 => "gpt-4",
            Model::TextDavinci003 => "text-davinci-003",
        }
    }

    /// Resolves a user-supplied string; any other string is refused with `UnsupportedModel`.
    pub fn parse(s: &str) -> (r: Result<Model, Error>)
        ensures
            Model::from_name(s@) matches Some(v) ==> r == Ok::<Model, Error>(v),
            Model::from_name(s@) is None ==> (r matches Err(Error::UnsupportedModel(t)) && t@ == s@),
    {
        if same_text(s, "gpt-3.5-turbo") {
            Ok(Model::Gpt3dot5turbo)
        } else if same_text(s, "gpt-4") {
            Ok(Model::Gpt4)
        } else if same_text(s, "text-davinci-003") {
            Ok(Model::TextDavinci003)
        } else {
            Err(Error::UnsupportedModel(s.to_owned()))
        }
    }

}

impl Decode for Model {
    open spec fn decodable(j: Json) -> bool {
        Model::decoded(j) is Some
    }

    open spec fn decodes_from(self, j: Json) -> bool {
        Model::decoded(j) == Some(self)
    }

    fn from_json(j: &Json) -> (r: Result<Model, Error>) {
        match j {
            Json::Str(s) => {
                if same_text(s.as_str(), "gpt-3.5-turbo") {
                    Ok(Model::Gpt3dot5turbo)
                } else if same_text(s.as_str(), "gpt-4") {
                    Ok(Model::Gpt4)
                } else if same_text(s.as_str(), "text-davinci-003") {
                    Ok(Model::TextDavinci003)
                } else {
                    Err(unexpected(s.as_str()))
                }
            },
            _ => Err(unexpected("Model")),
        }
    }
}

impl std::str::FromStr for Model {
    type Err = Error;

    fn from_str(s: &str) -> Result<Model, Error> {
        Model::parse(s)
    }
}

/// Parsing then writing back a known identifier gives the same spelling, and each
/// value is parsed back from its own spelling.
pub proof fn lemma_model_name_round_trip(s: Seq<char>)
    ensures
        Model::from_name(s) matches Some(m) ==> m.name() == s,
        forall|m: Model| Model::from_name(#[trigger] m.name()) == Some(m),
{
    assert forall|m: Model| Model::from_name(#[trigger] m.name()) == Some(m) by {
        reveal_strlit("gpt-3.5-turbo");
        assert("gpt-3.5-turbo"@.len() == 13);
        reveal_strlit("gpt-4");
        assert("gpt-4"@.len() == 5);
        reveal_strlit("text-davinci-003");
        assert("text-davinci-003"@.len() == 16);
        match m {
            Model::Gpt3dot5turbo => assert(Model::from_name("gpt-3.5-turbo"@) == Some(Model::Gpt3dot5turbo)),
            Model::Gpt4 => assert(Model::from_name("gpt-4"@) == Some(Model::Gpt4)),
            Model::TextDavinci003 => assert(Model::from_name("text-davinci-003"@) == Some(Model::TextDavinci003)),
        }
    }
}

} // verus!
