use dnguyen_blog::errors::AuthError;
use dnguyen_blog::hashing::PasswordHasher;
use dnguyen_blog::users::Credentials;

#[test]
fn lib_it_verifies_hashes() {
    let pwd = "supercalifragilisticexpialadocious";
    let c = Credentials {
        email: "bobert@bob.com".to_string(),
        password: pwd.to_string(),
    };
    let hash = bcrypt::hash(pwd, 10).expect("Error hashing password");
    let result = c.verify(&hash);
    assert!(result.is_ok());
    assert_eq!(result.ok(), Some(true));
}

#[test]
fn users_it_verifies_hashes() {
    let pwd = "supercalifragilisticexpialadocious";
    let c = Credentials {
        email: "bobert@bob.com".to_string(),
        password: pwd.to_string(),
    };
    let hash = bcrypt::hash(pwd, 10).expect("Error hashing password");
    let result = c.verify(&hash);
    assert!(result.is_ok());
    assert_eq!(result.ok(), Some(true));
}

#[test]
fn fresh_hash_verifies_and_rejects_others() {
    let hasher = PasswordHasher::new(4);
    let hash = hasher.hash("correct horse").unwrap();
    assert!(hasher.verify("correct horse", &hash));
    assert!(!hasher.verify("wrong horse", &hash));
    assert!(!hasher.verify("", &hash));
}

#[test]
fn rehash_salts_differently_yet_both_verify() {
    let hasher = PasswordHasher::new(4);
    let h1 = hasher.hash("same password").unwrap();
    let h2 = hasher.hash("same password").unwrap();
    assert_ne!(h1, h2);
    assert!(hasher.verify("same password", &h1));
    assert!(hasher.verify("same password", &h2));
}

#[test]
fn hash_never_equals_plaintext() {
    let hasher = PasswordHasher::new(4);
    let hash = hasher.hash("hunter2").unwrap();
    assert_ne!(hash, "hunter2");
    assert_eq!(hash.len(), 60);
}

#[test]
fn invalid_cost_fails_hashing() {
    let hasher = PasswordHasher::new(2);
    assert_eq!(hasher.hash("anything"), Err(AuthError::HashingFailure));
    let hasher = PasswordHasher::new(32);
    assert_eq!(hasher.hash("anything"), Err(AuthError::HashingFailure));
}

#[test]
fn malformed_hash_never_verifies() {
    let hasher = PasswordHasher::new(4);
    assert!(!hasher.verify("pw", "not a bcrypt hash"));
    assert!(!hasher.verify("pw", ""));
    let c = Credentials {
        email: "a@b".to_string(),
        password: "pw".to_string(),
    };
    assert_eq!(c.verify("not a bcrypt hash"), Err(AuthError::HashingFailure));
}
