//! The error type shared by all validators and the credential hasher.

use vstd::prelude::*;

verus! {

/// Failure of a validation or credential operation.
///
/// `ValidationError` reports client-supplied input that violates a documented
/// rule; its message is specific and user-displayable, and the caller can
/// recover by re-prompting for corrected input. `InternalServerError` reports
/// an environment- or library-level fault (hashing engine failure, malformed
/// stored hash) and should be surfaced only as a generic failure.
#[derive(Debug, Clone, PartialEq, Eq)]
pub enum AppError {
    ValidationError(String),
    InternalServerError(String),
}

impl AppError {
    /// The message carried by the error, as a sequence of characters.
    pub open spec fn spec_message(&self) -> Seq<char> {
        match self {
            AppError::ValidationError(m) => m@,
            AppError::InternalServerError(m) => m@,
        }
    }

    /// The message carried by the error.
    pub fn message(&self) -> (r: &str)
        ensures
            r@ == self.spec_message(),
    {
        match self {
            AppError::ValidationError(m) => m.as_str(),
            AppError::InternalServerError(m) => m.as_str(),
        }
    }

    /// Whether this error reports invalid client input.
    pub fn is_validation(&self) -> (r: bool)
        ensures
            r == (self is ValidationError),
    {
        match self {
            AppError::ValidationError(_) => true,
            AppError::InternalServerError(_) => false,
        }
    }
}

/// `r` is a validation failure carrying exactly the message `msg`.
pub open spec fn is_validation_err<T>(r: Result<T, AppError>, msg: Seq<char>) -> bool {
    match r {
        Err(AppError::ValidationError(m)) => m@ == msg,
        _ => false,
    }
}

} // verus!
