//! The error kinds that issuing and decoding can report.

use vstd::prelude::*;

verus! {

/// All CSRF related errors.
#[derive(Debug, Hash, Eq, PartialEq, Clone)]
pub enum CsrfError {
    /// A local failure that the request did not cause, such as an exhausted
    /// random source.
    InternalError,
    /// The presented value was rejected: wrong length, failed integrity
    /// check, mismatched pair or expired cookie.
    ValidationFailure,
}

impl CsrfError {
    /// A short, fixed description of the error kind.
    pub fn description(&self) -> (text: &'static str)
        ensures
            *self == CsrfError::InternalError ==> text@ == "CSRF library error"@,
            *self == CsrfError::ValidationFailure ==> text@ == "CSRF validation failed"@,
    {
        match self {
            CsrfError::InternalError => "CSRF library error",
            CsrfError::ValidationFailure => "CSRF validation failed",
        }
    }
}

} // verus!
