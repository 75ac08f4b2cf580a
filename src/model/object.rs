//! The `object` tags that responses carry.
use vstd::prelude::*;
use crate::error::{Error, unexpected};
use crate::decode::Decode;
use crate::json::{Json, same_text};

verus! {

/// The `object` tag of a response or of one of its entries.
#[derive(Clone, Copy, Debug, PartialEq, Eq, Structural)]
pub enum Object {
    List,
    Model,
    ModelPermission,
    TextCompletion,
    ChatCompletion,
    File,
    Embedding,
}

impl Object {
    /// The value that a response carries under the given spelling, if any.
    pub open spec fn from_wire(s: Seq<char>) -> Option<Object> {
        if s == "list"@ {
            Some(Object::List)
        } else if s == "model"@ {
            Some(Object::Model)
        } else if s == "model_permission"@ {
            Some(Object::ModelPermission)
        } else if s == "text_completion"@ {
            Some(Object::TextCompletion)
        } else if s == "chat.completion"@ {
            Some(Object::ChatCompletion)
        } else if s == "file"@ {
            Some(Object::File)
        } else if s == "embedding"@ {
            Some(Object::Embedding)
        } else {
            None
        }
    }

    /// The value that a JSON string in a response stands for, if any.
    pub open spec fn decoded(j: Json) -> Option<Object> {
        match j {
            Json::Str(s) => Object::from_wire(s@),
            _ => None,
        }
    }

}

impl Decode for Object {
    open spec fn decodable(j: Json) -> bool {
        Object::decoded(j) is Some
    }

    open spec fn decodes_from(self, j: Json) -> bool {
        Object::decoded(j) == Some(self)
    }

    fn from_json(j: &Json) -> (r: Result<Object, Error>) {
        match j {
            Json::Str(s) => {
                if same_text(s.as_str(), "list") {
                    Ok(Object::List)
                } else if same_text(s.as_str(), "model") {
                    Ok(Object::Model)
                } else if same_text(s.as_str(), "model_permission") {
                    Ok(Object::ModelPermission)
                } else if same_text(s.as_str(), "text_completion") {
                    Ok(Object::TextCompletion)
                } else if same_text(s.as_str(), "chat.completion") {
                    Ok(Object::ChatCompletion)
                } else if same_text(s.as_str(), "file") {
                    Ok(Object::File)
                } else if same_text(s.as_str(), "embedding") {
                    Ok(Object::Embedding)
                } else {
                    Err(unexpected(s.as_str()))
                }
            },
            _ => Err(unexpected("Object")),
        }
    }
}

} // verus!
