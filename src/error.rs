//! The errors of a search.

use vstd::prelude::*;

verus! {

#[verifier::external_type_specification]
#[verifier::external_body]
pub struct ExParseError(url::ParseError);

/// Why a search or its output failed.
#[derive(Debug)]
pub enum Error {
    /// An argument of the search is out of its range.
    InvalidParameter(String),
    /// The server answered with a negative status code and this message.
    InvalidCode { code: i32, message: String },
    /// The search URL could not be formed.
    InvalidUrl(url::ParseError),
    /// The server's answer does not have the form that a result needs.
    InvalidResponse(String),
}

impl Error {
    /// Returns an error for an argument out of its range.
    pub fn invalid_parameter(message: String) -> (r: Error)
        ensures
            r == Error::InvalidParameter(message),
    {
        Error::InvalidParameter(message)
    }

    /// Returns an error for a negative status code of the server.
    pub fn invalid_code(code: i32, message: String) -> (r: Error)
        ensures
            r == (Error::InvalidCode { code, message }),
    {
        Error::InvalidCode { code, message }
    }
}

} // verus!
