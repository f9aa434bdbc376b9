//! The ways an authentication or session operation can fail.

use vstd::prelude::*;

verus! {

/// Why an operation did not go through.
///
/// Only `InvalidInput` and `StorageError` ever reach a caller as an `Err`.
/// A failed login or a rejected session is an ordinary negative answer, so
/// that nothing tells an unknown user from a wrong password.
#[derive(Clone, Copy, Debug, PartialEq, Eq, Structural)]
pub enum AuthError {
    /// An argument was empty or malformed.
    InvalidInput,
    /// Unknown user, wrong password, or a session that did not validate.
    InvalidCredentials,
    /// The store refused the operation.
    StorageError,
    /// A session was presented from another client, or after idling too long.
    SecurityViolation,
}

impl AuthError {
    /// What a user may be shown for this error: never which check failed.
    pub open spec fn spec_message(self) -> Seq<char> {
        match self {
            AuthError::InvalidInput => "Invalid input"@,
            AuthError::InvalidCredentials => "Invalid credentials"@,
            AuthError::StorageError => "Please try again"@,
            AuthError::SecurityViolation => "Invalid credentials"@,
        }
    }

    /// The text to show for this error.
    pub fn message(&self) -> (text: String)
        ensures
            text@ == self.spec_message(),
    {
        match self {
            AuthError::InvalidInput => "Invalid input".to_owned(),
            AuthError::InvalidCredentials => "Invalid credentials".to_owned(),
            AuthError::StorageError => "Please try again".to_owned(),
            AuthError::SecurityViolation => "Invalid credentials".to_owned(),
        }
    }
}

} // verus!
