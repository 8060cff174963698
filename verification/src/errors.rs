//! The error taxonomy of the core.
//!
//! Authentication failures never distinguish an unknown email from a wrong
//! password: both surface as `InvalidCredentials`.  The session guard keeps
//! malformed and absent tokens indistinguishable (`Unauthenticated`) and
//! reports a token whose account has disappeared as `AccountNotFound`.
use vstd::prelude::*;

verus! {

/// Errors of account creation and login.
#[derive(Clone, Copy, Debug, PartialEq, Eq, Structural)]
pub enum AuthError {
    /// The email failed the minimal syntactic check of signup.
    InvalidEmail,
    /// Signup's password and confirmation differ (byte-exact comparison).
    PasswordMismatch,
    /// The email already has an account.
    DuplicateEmail,
    /// Unknown email or wrong password; the two are never distinguished.
    InvalidCredentials,
    /// The password hasher failed (invalid cost or resource exhaustion).
    HashingFailure,
    /// A row-store failure not otherwise classified.
    StorageFailure,
}

/// Errors of the per-request session guard.
#[derive(Clone, Copy, Debug, PartialEq, Eq, Structural)]
pub enum UserError {
    /// No token was presented, or the token could not be parsed; the two
    /// cases are deliberately indistinguishable.
    Unauthenticated,
    /// The token parsed, but the account it references no longer exists.
    AccountNotFound,
}

/// Errors of post lookup.
#[derive(Clone, Copy, Debug, PartialEq, Eq, Structural)]
pub enum PostError {
    /// No public post carries the requested id.
    NotFound,
}

} // verus!
