use vstd::prelude::*;
use vstd::string::*;

verus! {

/// Every failure that the library reports.
#[derive(Debug, PartialEq, Eq)]
pub enum Error {
    /// A success body that does not decode into the expected response shape.
    InvalidResponse(String),
    /// A response whose HTTP status is not a success.
    InvalidHttpResponse(String),
    UnsupportedModel(String),
    UnsupportedRole(String),
    UnsupportedImageSize(String),
    UnsupportedResponseFormat(String),
    JsonSerialization(String),
    /// A failure of the HTTP transport itself (connection, timeout, TLS).
    Reqwest(String),
}

} // verus!
verus! {

/// The error for a response value that is missing or has the wrong shape.
pub fn unexpected(what: &str) -> (r: Error)
    ensures
        r is InvalidResponse,
{
    Error::InvalidResponse(String::from_str("unexpected or missing value: ").concat(what))
}

} // verus!
