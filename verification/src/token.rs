//! The session token codec.
//!
//! A session token is the hyphenated text form of the account id, carried
//! inside a tamper-evident envelope (a signed cookie) whose integrity is
//! the transport's concern.  Encoding and decoding are delegated to the
//! uuid crate; both are functions of their argument alone, so each is named
//! by an uninterpreted function, and the codec's round trip is stated where
//! the uuid crate documents it.
use vstd::prelude::*;

verus! {

/// What `uuid::Uuid::parse_str` yields on a string: the 128-bit value of
/// the uuid it denotes, or `None` when the string is not a uuid.
pub uninterp spec fn uuid_parse(s: Seq<char>) -> Option<u128>;

/// The hyphenated text form of a 128-bit uuid value, as `uuid::Uuid`
/// displays it.
pub uninterp spec fn uuid_text(id: u128) -> Seq<char>;

/// Relies on `uuid::Uuid::from_u128` and the `Display` of `uuid::Uuid`: the
/// text form is the 36-character hyphenated encoding of the value, and
/// `uuid::Uuid::parse_str` accepts every format this produces and returns
/// the same value.
#[verifier::external_body]
pub(crate) fn uuid_to_string(id: u128) -> (r: String)
    ensures
        r@ == uuid_text(id),
        r@.len() == 36,
        uuid_parse(r@) == Some(id),
{
    uuid::Uuid::from_u128(id).to_string()
}

/// Relies on `uuid::Uuid::parse_str` and `uuid::Uuid::as_u128`: parsing
/// yields the 128-bit value of the denoted uuid exactly when the string is
/// one of the supported uuid formats; the outcome depends on the string
/// alone.
#[verifier::external_body]
fn uuid_from_string(s: &str) -> (r: Option<u128>)
    ensures
        r == uuid_parse(s@),
{
    match uuid::Uuid::parse_str(s) {
        Ok(u) => Some(u.as_u128()),
        Err(_) => None,
    }
}

/// Encodes an account id as an opaque session token.  The token decodes
/// back to the id it was issued for.
pub fn encode_token(id: u128) -> (r: String)
    ensures
        r@ == uuid_text(id),
        uuid_parse(r@) == Some(id),
{
    uuid_to_string(id)
}

/// Decodes a presented token back into an account id; `None` on anything
/// that is not a uuid.
pub fn decode_token(token: &str) -> (r: Option<u128>)
    ensures
        r == uuid_parse(token@),
{
    uuid_from_string(token)
}

} // verus!
