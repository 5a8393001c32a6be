//! The error taxonomy: every fallible operation of the library reports one of
//! these variants; nothing is retried and nothing panics on bad input.
use vstd::prelude::*;

verus! {

/// What went wrong during an operation against the upstream service.
#[derive(Debug)]
pub enum Error {
    /// The transport failed before any HTTP status was obtained; carries the
    /// underlying cause verbatim.
    Network(String),
    /// The service answered with a non-2xx status; carries the status code and
    /// the raw response body.
    HttpStatus(u16, String),
    /// The response body did not decode into the expected shape; carries the
    /// raw body or a diagnostic.
    Decode(String),
    /// A string did not name any code of a closed domain set; carries the
    /// offending string.
    InvalidCode(String),
}

impl Error {
    /// A short machine-readable tag naming the variant, for callers that
    /// branch or log without inspecting the payload.
    pub fn kind(&self) -> (r: &'static str)
        ensures
            self is Network ==> r@ == "network"@,
            self is HttpStatus ==> r@ == "http status"@,
            self is Decode ==> r@ == "decode"@,
            self is InvalidCode ==> r@ == "invalid code"@,
    {
        match self {
            Error::Network(_) => "network",
            Error::HttpStatus(_, _) => "http status",
            Error::Decode(_) => "decode",
            Error::InvalidCode(_) => "invalid code",
        }
    }
}

} // verus!
