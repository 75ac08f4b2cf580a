//! What the HTTP transport needs from the library: the path and method of
//! each operation, and how a response status is classified.
use vstd::prelude::*;
use vstd::string::*;
use crate::error::Error;
use crate::number::{decimal, usize_text};

verus! {

/// One supported API action.
#[derive(Clone, Copy, Debug, PartialEq, Eq, Structural)]
pub enum Operation {
    ListModels,
    CreateCompletion,
    CreateChat,
    CreateImage,
    CreateEdit,
    ListFiles,
    CreateEmbedding,
}

impl Operation {
    /// The fixed path of the operation under the API's host.
    pub open spec fn path_spec(self) -> Seq<char> {
        match self {
            Operation::ListModels => "/v1/models"@,
            Operation::CreateCompletion => "/v1/completions"@,
            Operation::CreateChat => "/v1/chat/completions"@,
            Operation::CreateImage => "/v1/images/generations"@,
            Operation::CreateEdit => "/v1/edits"@,
            Operation::ListFiles => "/v1/files"@,
            Operation::CreateEmbedding => "/v1/embeddings"@,
        }
    }

    /// The fixed path of the operation under the API's host.
    pub fn path(&self) -> (r: &'static str)
        ensures
            r@ == self.path_spec(),
    {
        match self {
            Operation::ListModels => "/v1/models",
            Operation::CreateCompletion => "/v1/completions",
            Operation::CreateChat => "/v1/chat/completions",
            Operation::CreateImage => "/v1/images/generations",
            Operation::CreateEdit => "/v1/edits",
            Operation::ListFiles => "/v1/files",
            Operation::CreateEmbedding => "/v1/embeddings",
        }
    }

    /// Whether the operation posts a JSON payload; the two listings are
    /// plain reads.
    pub fn sends_payload(&self) -> (r: bool)
        ensures
            r <==> !(self == Operation::ListModels || self == Operation::ListFiles),
    {
        match self {
            Operation::ListModels | Operation::ListFiles => false,
            _ => true,
        }
    }
}

/// Whether an HTTP status is a success.
pub open spec fn is_success(status: u16) -> bool {
    200 <= status <= 299
}

/// The message of a failed status: the status and then the body.
pub open spec fn status_message(status: u16, body: Seq<char>) -> Seq<char> {
    "HTTP status "@ + decimal(status as nat) + ": "@ + body
}

/// Hands back the body of a success, and turns any other status into
/// `InvalidHttpResponse` carrying the status and the body.
pub fn check_status(status: u16, body: String) -> (r: Result<String, Error>)
    ensures
        is_success(status) ==> r == Ok::<String, Error>(body),
        !is_success(status) ==> (r matches Err(Error::InvalidHttpResponse(m)) && m@ == status_message(
            status,
            body@,
        )),
{
    if 200 <= status && status <= 299 {
        Ok(body)
    } else {
        let mut m = "HTTP status ".to_owned();
        m.append(usize_text(status as usize).as_str());
        m.append(": ");
        m.append(body.as_str());
        Err(Error::InvalidHttpResponse(m))
    }
}

} // verus!
