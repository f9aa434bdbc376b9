//! What a failure of the backing store means for each operation.
//!
//! The library works on tables in memory. Whoever keeps them in a database
//! reads them before an operation and writes them back after it, and either
//! step can fail. Whether such a failure fails the operation is decided
//! here, not by the caller.

use vstd::prelude::*;
use crate::error::AuthError;

verus! {

/// The operations that read or change the stored tables.
#[derive(Clone, Copy, Debug, PartialEq, Eq, Structural)]
pub enum Operation {
    CreateSession,
    ValidateSession,
    RenewSession,
    InvalidateSession,
    InvalidateAccount,
    Cleanup,
    ListSessions,
    CountSessions,
    Login,
    Logout,
    CurrentUser,
    SaveAccount,
}

impl Operation {
    /// Whether the operation fails when the tables cannot be read.
    ///
    /// Only a logout does not: the client discards its credential whatever
    /// happens to the session.
    pub open spec fn needs_read(self) -> bool {
        self != Operation::Logout
    }

    /// Whether the operation fails when what it changed cannot be written
    /// back.
    ///
    /// What a validation changes, the time of last access or the
    /// invalidation of a session it turned down, is written as far as the
    /// store allows, and so is a logout; the operations that only read have
    /// nothing to write.
    pub open spec fn needs_write(self) -> bool {
        match self {
            Operation::ValidateSession => false,
            Operation::CurrentUser => false,
            Operation::Logout => false,
            Operation::ListSessions => false,
            Operation::CountSessions => false,
            _ => true,
        }
    }

    /// Tells whether the operation fails when the tables cannot be read.
    #[verifier::when_used_as_spec(needs_read)]
    pub fn must_read(self) -> (needed: bool)
        ensures
            needed == self.needs_read(),
    {
        match self {
            Operation::Logout => false,
            _ => true,
        }
    }

    /// Tells whether the operation fails when what it changed cannot be
    /// written back.
    #[verifier::when_used_as_spec(needs_write)]
    pub fn must_write(self) -> (needed: bool)
        ensures
            needed == self.needs_write(),
    {
        match self {
            Operation::ValidateSession => false,
            Operation::CurrentUser => false,
            Operation::Logout => false,
            Operation::ListSessions => false,
            Operation::CountSessions => false,
            _ => true,
        }
    }
}

/// What an operation returns when the tables could not be read: a storage
/// error, never a rejection, except that a logout goes through.
pub fn unreadable(operation: Operation) -> (result: Result<(), AuthError>)
    ensures
        result == if operation.needs_read() {
            Err::<(), AuthError>(AuthError::StorageError)
        } else {
            Ok::<(), AuthError>(())
        },
{
    if operation.must_read() {
        Err(AuthError::StorageError)
    } else {
        Ok(())
    }
}

/// What an operation returns once it has run and the tables have been
/// written back, or could not be: its outcome, unless the write failed and
/// the operation depends on it.
pub fn concluded<T>(operation: Operation, outcome: T, written: bool) -> (result: Result<
    T,
    AuthError,
>)
    ensures
        result == if written || !operation.needs_write() {
            Ok::<T, AuthError>(outcome)
        } else {
            Err::<T, AuthError>(AuthError::StorageError)
        },
{
    if written || !operation.must_write() {
        Ok(outcome)
    } else {
        Err(AuthError::StorageError)
    }
}

} // verus!
