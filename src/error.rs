//! The error kinds surfaced to callers.

use vstd::prelude::*;

verus! {

/// The kinds of error surfaced to callers.
#[derive(Debug, Clone, Copy, PartialEq, Eq, Structural)]
pub enum ErrorResponseType {
    /// Malformed input, a disallowed method or flow, a policy violation.
    BadRequest,
    /// A credential, code or verifier mismatch; also returned for unknown users.
    Unauthorized,
    /// An authorization code past its expiry.
    SessionExpired,
    /// An unknown client id.
    NotFound,
    /// An invariant was violated.
    Internal,
}

/// An error kind with its user-visible message.
#[derive(Debug, Clone)]
pub struct ErrorResponse {
    pub error: ErrorResponseType,
    pub message: String,
}

impl ErrorResponse {
    pub fn new(error: ErrorResponseType, message: String) -> (r: Self)
        ensures
            r.error == error,
            r.message == message,
    {
        ErrorResponse { error, message }
    }

    /// An error whose message is the given literal.
    pub fn with(error: ErrorResponseType, message: &str) -> (r: Self)
        ensures
            r.error == error,
            r.message@ == message@,
    {
        ErrorResponse { error, message: message.to_owned() }
    }
}

} // verus!
