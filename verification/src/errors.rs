//! Typed failure taxonomy of the lifecycle operations.
//!
//! Store and cryptographic failures are never exposed verbatim: the hashing
//! and signing wrappers return their library errors, and the lifecycle maps
//! them to the payload-free variants here; the transport layer renders each
//! variant with a generic message.
use vstd::prelude::*;

verus! {

/// The error surface of every lifecycle operation.
#[derive(Debug)]
pub enum AppError {
    InternalServerError,
    BadRequest(String),
    Unauthorized(String),
    Conflict(String),
    /// A password-hashing failure (catastrophic only; rendered as a generic
    /// internal error by the transport layer).
    PasswordHashError,
    /// A session-token signing failure (rendered as a generic internal error
    /// by the transport layer).
    JwtError,
}

/// The one generic message for every failed token consumption: not-found,
/// expired and mismatched tokens are indistinguishable to the caller.
pub open spec fn is_invalid_token_error(e: AppError) -> bool {
    e matches AppError::BadRequest(m) && m@ == "Invalid or expired token"@
}

/// Builds the generic rejection for any failed token consumption.
pub fn invalid_token_error() -> (r: AppError)
    ensures
        is_invalid_token_error(r),
{
    AppError::BadRequest("Invalid or expired token".to_string())
}

} // verus!
