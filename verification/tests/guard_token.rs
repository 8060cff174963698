use dnguyen_blog::errors::UserError;
use dnguyen_blog::guard::resolve_identity;
use dnguyen_blog::hashing::PasswordHasher;
use dnguyen_blog::token::{decode_token, encode_token};
use dnguyen_blog::users::{signup, CredentialStore};

#[test]
fn token_roundtrip() {
    let token = encode_token(42);
    assert_eq!(token.len(), 36);
    assert_eq!(decode_token(&token), Some(42));
}

#[test]
fn token_zero_roundtrip() {
    let token = encode_token(0);
    assert_eq!(token, "00000000-0000-0000-0000-000000000000");
    assert_eq!(decode_token(&token), Some(0));
}

#[test]
fn decode_rejects_garbage() {
    assert_eq!(decode_token(""), None);
    assert_eq!(decode_token("not-a-uuid"), None);
    assert_eq!(decode_token("00000000-0000-0000-0000-00000000000g"), None);
}

#[test]
fn guard_absent_token_is_unauthenticated() {
    let store = CredentialStore::new();
    assert_eq!(resolve_identity(&store, None).err(), Some(UserError::Unauthenticated));
}

#[test]
fn guard_malformed_token_is_unauthenticated() {
    let store = CredentialStore::new();
    let r = resolve_identity(&store, Some("definitely not a uuid"));
    assert_eq!(r.err(), Some(UserError::Unauthenticated));
}

#[test]
fn guard_unknown_account_is_not_found() {
    // A well-formed token whose account does not exist: the errors of the
    // malformed and the missing case must differ.
    let store = CredentialStore::new();
    let token = encode_token(7);
    let r = resolve_identity(&store, Some(&token));
    assert_eq!(r.err(), Some(UserError::AccountNotFound));
}

#[test]
fn guard_resolves_fresh_signup() {
    let mut store = CredentialStore::new();
    let hasher = PasswordHasher::new(4);
    let u = signup(&mut store, &hasher, "kept@example.com", "pw pw pw", "pw pw pw", 1_000)
        .unwrap();
    let token = encode_token(u.id);
    let resolved = resolve_identity(&store, Some(&token)).unwrap();
    assert_eq!(resolved.id, u.id);
    assert_eq!(resolved.email, "kept@example.com");
}
