//! The error channel of the library: every transport or decode failure
//! surfaces as a value of this enum, never as an abort. Absence of a
//! requested resource is not an error; it is an empty optional result.

use vstd::prelude::*;

verus! {

/// Why a request failed: the HTTP exchange itself, or decoding its body.
///
/// The transport layer maps each failure of the HTTP library into
/// `ApiResponseError` and each failure of the JSON decoder into
/// `JSONParseError`, carrying the rendered message.
#[derive(Debug, Clone, PartialEq, Eq)]
pub enum Error {
    /// The HTTP exchange failed: connection, protocol, or status.
    ApiResponseError(String),
    /// The response body did not decode into the expected envelope.
    JSONParseError(String),
}

impl Error {
    /// The rendered message this error carries.
    pub fn message(&self) -> (r: &String)
        ensures
            (self matches Error::ApiResponseError(m) ==> r@ == m@),
            (self matches Error::JSONParseError(m) ==> r@ == m@),
    {
        match self {
            Error::ApiResponseError(m) => m,
            Error::JSONParseError(m) => m,
        }
    }
}

} // verus!
