use dnguyen_blog::errors::AuthError;
use dnguyen_blog::hashing::PasswordHasher;
use dnguyen_blog::users::{create, login, signup, validate_email, CredentialStore, Credentials};

#[test]
fn it_hashes_passwords() {
    let mut store = CredentialStore::new();
    let hasher = PasswordHasher::new(4);
    let creds = Credentials {
        email: "reader@example.com".to_string(),
        password: "a long enough password".to_string(),
    };
    let id = create(&mut store, &hasher, &creds, 1_000).unwrap();

    let row = store.find_by_email("reader@example.com").unwrap();
    assert_eq!(row.id, id);
    assert_eq!(row.email, creds.email);
    assert_ne!(row.password_hash, creds.password);
    assert_eq!(creds.verify(&row.password_hash), Ok(true));
}

#[test]
fn it_logs_in_users() {
    let mut store = CredentialStore::new();
    let hasher = PasswordHasher::new(4);
    let creds = Credentials {
        email: "reader@example.com".to_string(),
        password: "a long enough password".to_string(),
    };
    let id = create(&mut store, &hasher, &creds, 1_000).unwrap();

    let u = login(&mut store, &creds, 2_000).unwrap();
    assert_eq!(u.id, id);
    assert_eq!(u.email, creds.email);
    assert_eq!(u.last_login, Some(2_000));
}

#[test]
fn it_doesnt_log_in_invalid_credentials() {
    let mut store = CredentialStore::new();
    let hasher = PasswordHasher::new(4);
    let mut creds = Credentials {
        email: "reader@example.com".to_string(),
        password: "a long enough password".to_string(),
    };
    create(&mut store, &hasher, &creds, 1_000).unwrap();

    creds.password = "a different password".to_string();
    let u = login(&mut store, &creds, 2_000);
    assert!(u.is_err());
}

#[test]
fn it_signs_up_users() {
    let mut store = CredentialStore::new();
    let hasher = PasswordHasher::new(4);
    let email = "newcomer@example.com";
    let password = "open sesame indeed";

    let u = signup(&mut store, &hasher, email, password, password, 1_000).unwrap();
    assert_eq!(u.email, email);

    let creds = Credentials {
        email: email.to_string(),
        password: password.to_string(),
    };
    let l = login(&mut store, &creds, 2_000).unwrap();
    assert_eq!(u.id, l.id);
    assert_eq!(l.email, email);
}

#[test]
fn signup_password_mismatch_inserts_nothing() {
    let mut store = CredentialStore::new();
    let hasher = PasswordHasher::new(4);
    let r = signup(&mut store, &hasher, "a@b.com", "one password", "another password", 1_000);
    assert_eq!(r.err(), Some(AuthError::PasswordMismatch));
    assert!(store.find_by_email("a@b.com").is_none());
}

#[test]
fn signup_rejects_malformed_emails() {
    let mut store = CredentialStore::new();
    let hasher = PasswordHasher::new(4);
    for email in ["plainaddress", "@no-local.org", "no-domain@", "two@at@signs", ""] {
        let r = signup(&mut store, &hasher, email, "pw pw pw", "pw pw pw", 1_000);
        assert_eq!(r.err(), Some(AuthError::InvalidEmail));
        assert!(store.find_by_email(email).is_none());
    }
}

#[test]
fn validate_email_minimal_rule() {
    assert!(validate_email("a@b"));
    assert!(validate_email("user.name@example.co.uk"));
    assert!(!validate_email("a@"));
    assert!(!validate_email("@b"));
    assert!(!validate_email("ab"));
    assert!(!validate_email("a@@b"));
    assert!(!validate_email(""));
}

#[test]
fn duplicate_signup_fails_and_leaves_one_row() {
    let mut store = CredentialStore::new();
    let hasher = PasswordHasher::new(4);
    let first = signup(&mut store, &hasher, "dup@example.com", "pw pw pw", "pw pw pw", 1_000);
    assert!(first.is_ok());
    let second = signup(&mut store, &hasher, "dup@example.com", "other pw", "other pw", 2_000);
    assert_eq!(second.err(), Some(AuthError::DuplicateEmail));

    // Still exactly the first row: same id, same creation time.
    let row = store.find_by_email("dup@example.com").unwrap();
    assert_eq!(row.id, first.unwrap().id);
    assert_eq!(row.created_at, 1_000);
}

#[test]
fn login_failures_are_indistinguishable() {
    let mut store = CredentialStore::new();
    let hasher = PasswordHasher::new(4);
    let creds = Credentials {
        email: "present@example.com".to_string(),
        password: "the real password".to_string(),
    };
    create(&mut store, &hasher, &creds, 1_000).unwrap();

    let unknown_email = login(
        &mut store,
        &Credentials {
            email: "absent@example.com".to_string(),
            password: "the real password".to_string(),
        },
        2_000,
    );
    let wrong_password = login(
        &mut store,
        &Credentials {
            email: "present@example.com".to_string(),
            password: "not the password".to_string(),
        },
        2_000,
    );
    let unknown_err = unknown_email.err();
    let wrong_err = wrong_password.err();
    assert_eq!(unknown_err, Some(AuthError::InvalidCredentials));
    assert_eq!(wrong_err, Some(AuthError::InvalidCredentials));
    assert_eq!(unknown_err, wrong_err);
}

#[test]
fn touch_last_login_overwrites() {
    let mut store = CredentialStore::new();
    let hasher = PasswordHasher::new(4);
    let creds = Credentials {
        email: "reader@example.com".to_string(),
        password: "a long enough password".to_string(),
    };
    let id = create(&mut store, &hasher, &creds, 1_000).unwrap();
    store.touch_last_login(id, 5_000);
    store.touch_last_login(id, 7_000);
    let u = store.retrieve_by_uuid(id).unwrap();
    assert_eq!(u.last_login, Some(7_000));
}
