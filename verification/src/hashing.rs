//! One-way adaptive password hashing and verification.
//!
//! Hashing and verification are delegated to the bcrypt crate.  What
//! `bcrypt::verify` answers for a password/hash pair is a function of the
//! two strings alone (the salt and cost are embedded in the hash), so it is
//! named by the uninterpreted function [`bcrypt_check`], and every contract
//! of the credential layer is stated over that name.
use vstd::prelude::*;

verus! {

use crate::errors::AuthError;

/// What `bcrypt::verify(password, hash)` computes: `None` when the hash
/// string is malformed (verification errors), `Some(b)` when it parses and
/// the recomputed digest comparison yields `b`.  The outcome depends on the
/// two strings alone.
pub uninterp spec fn bcrypt_check(password: Seq<char>, hash: Seq<char>) -> Option<bool>;

/// `hash` is a hash that the password verifies against: the relation that
/// `PasswordHasher::hash` establishes and `PasswordHasher::verify` decides.
pub open spec fn hashed_for(password: Seq<char>, hash: Seq<char>) -> bool {
    bcrypt_check(password, hash) == Some::<bool>(true)
}

#[verifier::external_type_specification]
#[verifier::external_body]
pub struct ExBcryptError(bcrypt::BcryptError);

/// Relies on `bcrypt::hash`: on success the result is the 60-character
/// bcrypt hash string of the password under a fresh random salt, which
/// `bcrypt::verify` accepts for the same password; a cost outside 4..=31 is
/// rejected.  Nothing more is promised: the salt comes from the operating
/// system's randomness, which may fail.
#[verifier::external_body]
pub(crate) fn bcrypt_hash(password: &str, cost: u32) -> (r: Result<String, bcrypt::BcryptError>)
    ensures
        r matches Ok(h) ==> hashed_for(password@, h@) && h@.len() == 60,
        !(4 <= cost <= 31) ==> r is Err,
{
    bcrypt::hash(password, cost)
}

/// Relies on `bcrypt::verify`: it errs exactly when the hash string is
/// malformed, and otherwise answers whether the password matches; the
/// outcome is deterministic in the two arguments.
#[verifier::external_body]
pub(crate) fn bcrypt_verify(password: &str, hash: &str) -> (r: Result<bool, bcrypt::BcryptError>)
    ensures
        r matches Ok(b) ==> bcrypt_check(password@, hash@) == Some(b),
        r is Err <==> bcrypt_check(password@, hash@) is None,
{
    bcrypt::verify(password, hash)
}

/// Decides whether a plaintext matches a stored hash.  Never fails: a
/// malformed hash simply does not match, and the comparison inside bcrypt
/// is constant-time.
pub fn verify_password(password: &str, hash: &str) -> (r: bool)
    ensures
        r == hashed_for(password@, hash@),
{
    match bcrypt_verify(password, hash) {
        Ok(b) => b,
        Err(_) => false,
    }
}

/// One-way salted adaptive hashing of plaintext secrets, with a
/// configurable cost factor.
pub struct PasswordHasher {
    /// The bcrypt cost factor; bcrypt accepts 4..=31.
    pub cost: u32,
}

impl PasswordHasher {
    pub fn new(cost: u32) -> (r: PasswordHasher)
        ensures
            r.cost == cost,
    {
        PasswordHasher { cost }
    }

    /// Hashes a plaintext password under a fresh random salt.  On success
    /// the returned opaque hash verifies against exactly this plaintext;
    /// hashing fails only on an invalid cost or on resource exhaustion,
    /// never because of the password's value.
    pub fn hash(&self, password: &str) -> (r: Result<String, AuthError>)
        ensures
            r matches Ok(h) ==> hashed_for(password@, h@) && h@.len() == 60,
            r matches Err(e) ==> e == AuthError::HashingFailure,
            !(4 <= self.cost <= 31) ==> r is Err,
    {
        match bcrypt_hash(password, self.cost) {
            Ok(h) => Ok(h),
            Err(_) => Err(AuthError::HashingFailure),
        }
    }

    /// Decides whether the plaintext matches the stored hash.  Never fails:
    /// a malformed hash simply does not match.
    pub fn verify(&self, password: &str, hash: &str) -> (r: bool)
        ensures
            r == hashed_for(password@, hash@),
    {
        verify_password(password, hash)
    }
}

/// Law: a hash produced for a password verifies against that password.
/// `PasswordHasher::hash` establishes `hashed_for` for its output, and
/// `PasswordHasher::verify` returns true exactly on `hashed_for` pairs, so
/// a fresh hash is always accepted.
pub proof fn lemma_fresh_hash_verifies(password: Seq<char>, hash: Seq<char>)
    requires
        hashed_for(password, hash),
    ensures
        bcrypt_check(password, hash) == Some::<bool>(true),
{
}

/// Law: two hashes of the same password both verify against it, whatever
/// salts they drew.  (That two draws yield two distinct hash strings is a
/// property of the randomness, not of any contract here.)
pub proof fn lemma_rehash_both_verify(password: Seq<char>, h1: Seq<char>, h2: Seq<char>)
    requires
        hashed_for(password, h1),
        hashed_for(password, h2),
    ensures
        bcrypt_check(password, h1) == Some::<bool>(true),
        bcrypt_check(password, h2) == Some::<bool>(true),
{
}

} // verus!
