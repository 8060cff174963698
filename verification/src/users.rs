//! Accounts: the credential store and the signup/login service.
//!
//! The store models the `users` table as an append-only sequence of rows,
//! the single point of serialization of the service: each method is one
//! atomic storage operation.  Row ids are assigned densely (the id of a row
//! is its position), emails are unique, and rows are never deleted.
use vstd::prelude::*;

verus! {

use crate::errors::AuthError;
use crate::hashing::{bcrypt_check, bcrypt_verify, hashed_for, PasswordHasher};

/// A transient pair of email and plaintext password.  It exists only for
/// the duration of a signup or login call and is never stored.
pub struct Credentials {
    pub email: String,
    // Plaintext password
    pub password: String,
}

impl Credentials {
    /// Convenience for bcrypt verification.  Validates these credentials
    /// against a stored hash; errs exactly on a malformed hash string.
    pub fn verify(&self, hash: &str) -> (r: Result<bool, AuthError>)
        ensures
            r matches Ok(b) ==> bcrypt_check(self.password@, hash@) == Some(b),
            r is Err <==> bcrypt_check(self.password@, hash@) is None,
            r matches Err(e) ==> e == AuthError::HashingFailure,
    {
        match bcrypt_verify(self.password.as_str(), hash) {
            Ok(b) => Ok(b),
            Err(_) => Err(AuthError::HashingFailure),
        }
    }
}

/// A registered account as handed to callers: identity, email and
/// timestamps, never the password hash.
pub struct User {
    pub id: u128,
    pub email: String,
    pub created_at: i64,
    pub last_login: Option<i64>,
}

/// A stored account row: what `User` carries, plus the password hash.
pub struct StoredAccount {
    pub id: u128,
    pub email: String,
    pub password_hash: String,
    pub created_at: i64,
    pub last_login: Option<i64>,
}

impl StoredAccount {
    /// A field-for-field copy of the row.
    pub fn duplicate(&self) -> (r: StoredAccount)
        ensures
            r == *self,
    {
        StoredAccount {
            id: self.id,
            email: self.email.clone(),
            password_hash: self.password_hash.clone(),
            created_at: self.created_at,
            last_login: self.last_login,
        }
    }
}

/// Some row of `s` carries this email.
pub open spec fn has_email(s: Seq<StoredAccount>, email: Seq<char>) -> bool {
    exists|i: int| 0 <= i < s.len() && s[i].email@ == email
}

/// The index of the row carrying this email (unique when emails are).
pub open spec fn email_index(s: Seq<StoredAccount>, email: Seq<char>) -> int {
    choose|i: int| 0 <= i < s.len() && s[i].email@ == email
}

/// Some row of `s` carries this id.
pub open spec fn has_id(s: Seq<StoredAccount>, id: u128) -> bool {
    exists|i: int| 0 <= i < s.len() && s[i].id == id
}

/// No two rows share an email.
pub open spec fn emails_unique(s: Seq<StoredAccount>) -> bool {
    forall|i: int, j: int| 0 <= i < j < s.len() ==> s[i].email@ != s[j].email@
}

/// Row ids are dense: the id of a row is its position.  Together with
/// unique emails this is the well-formedness of the credential store.
pub open spec fn store_wf(s: Seq<StoredAccount>) -> bool {
    &&& forall|i: int| 0 <= i < s.len() ==> (#[trigger] s[i]).id == i as u128
    &&& emails_unique(s)
}

/// The row with its last-login overwritten, as `touch_last_login` leaves it.
pub open spec fn touched(a: StoredAccount, timestamp: i64) -> StoredAccount {
    StoredAccount { last_login: Some(timestamp), ..a }
}

/// `u` is the hash-free projection of row `a`.
pub open spec fn account_user(a: StoredAccount, u: User) -> bool {
    &&& u.id == a.id
    &&& u.email@ == a.email@
    &&& u.created_at == a.created_at
    &&& u.last_login == a.last_login
}

/// These credentials open some account of `s`: a row carries the email and
/// its stored hash verifies against the password.
pub open spec fn login_accepts(s: Seq<StoredAccount>, email: Seq<char>, password: Seq<char>) -> bool {
    exists|i: int| 0 <= i < s.len() && s[i].email@ == email && hashed_for(password, s[i].password_hash@)
}

/// The persistent account rows, in insertion order.
pub struct CredentialStore {
    accounts: Vec<StoredAccount>,
}

impl View for CredentialStore {
    type V = Seq<StoredAccount>;

    closed spec fn view(&self) -> Seq<StoredAccount> {
        self.accounts@
    }
}

impl CredentialStore {
    pub open spec fn wf(&self) -> bool {
        store_wf(self@)
    }

    pub fn new() -> (r: CredentialStore)
        ensures
            r@ == Seq::<StoredAccount>::empty(),
            r.wf(),
    {
        CredentialStore { accounts: Vec::new() }
    }

    /// The index of the first row carrying this email, if any.
    fn find_email_index(&self, email: &str) -> (r: Option<usize>)
        ensures
            r is Some <==> has_email(self@, email@),
            r matches Some(i) ==> 0 <= i < self@.len() && self@[i as int].email@ == email@,
    {
        let key = String::from_str(email);
        let n = self.accounts.len();
        let mut i: usize = 0;
        while i < n
            invariant
                n == self@.len(),
                0 <= i <= n,
                key@ == email@,
                forall|j: int| 0 <= j < i ==> self@[j].email@ != email@,
            decreases n - i,
        {
            if self.accounts[i].email == key {
                return Some(i);
            }
            i += 1;
        }
        None
    }

    /// One atomic insert with the uniqueness constraint of the `users`
    /// table: appends a fresh row and returns its id, or fails with
    /// `DuplicateEmail` (and changes nothing) exactly when a row with this
    /// email already exists.
    pub fn insert(&mut self, email: &str, password_hash: &str, now: i64) -> (r: Result<
        u128,
        AuthError,
    >)
        requires
            old(self).wf(),
        ensures
            final(self).wf(),
            r is Ok <==> !has_email(old(self)@, email@),
            r matches Err(e) ==> e == AuthError::DuplicateEmail && final(self)@ == old(self)@,
            r matches Ok(id) ==> {
                &&& id == old(self)@.len() as u128
                &&& final(self)@ =~= old(self)@.push(final(self)@.last())
                &&& final(self)@.last().id == id
                &&& final(self)@.last().email@ == email@
                &&& final(self)@.last().password_hash@ == password_hash@
                &&& final(self)@.last().created_at == now
                &&& final(self)@.last().last_login is None
            },
    {
        if let Some(_) = self.find_email_index(email) {
            return Err(AuthError::DuplicateEmail);
        }
        let id = self.accounts.len() as u128;
        let row = StoredAccount {
            id,
            email: String::from_str(email),
            password_hash: String::from_str(password_hash),
            created_at: now,
            last_login: None,
        };
        self.accounts.push(row);
        Ok(id)
    }

    /// Looks an account row up by email.
    pub fn find_by_email(&self, email: &str) -> (r: Option<StoredAccount>)
        ensures
            r is Some <==> has_email(self@, email@),
            r matches Some(a) ==> exists|i: int|
                0 <= i < self@.len() && self@[i] == a && a.email@ == email@,
    {
        match self.find_email_index(email) {
            Some(i) => Some(self.accounts[i].duplicate()),
            None => None,
        }
    }

    /// Looks an account up by id; yields it without the hash.
    pub fn retrieve_by_uuid(&self, id: u128) -> (r: Option<User>)
        requires
            self.wf(),
        ensures
            r is Some <==> has_id(self@, id),
            r matches Some(u) ==> 0 <= id < self@.len() && account_user(self@[id as int], u),
    {
        proof {
            lemma_dense_has_id(self@, id);
        }
        if id < self.accounts.len() as u128 {
            let i = id as usize;
            let row = &self.accounts[i];
            Some(
                User {
                    id: row.id,
                    email: row.email.clone(),
                    created_at: row.created_at,
                    last_login: row.last_login,
                },
            )
        } else {
            None
        }
    }

    /// One atomic single-row update: overwrites the last-login timestamp of
    /// the row with this id.  Idempotent; a missing id changes nothing.
    pub fn touch_last_login(&mut self, id: u128, timestamp: i64)
        requires
            old(self).wf(),
        ensures
            final(self).wf(),
            has_id(old(self)@, id) ==> final(self)@ =~= old(self)@.update(
                id as int,
                touched(old(self)@[id as int], timestamp),
            ),
            !has_id(old(self)@, id) ==> final(self)@ == old(self)@,
    {
        proof {
            lemma_dense_has_id(self@, id);
        }
        if id < self.accounts.len() as u128 {
            let i = id as usize;
            self.accounts[i].last_login = Some(timestamp);
            assert(self@ =~= old(self)@.update(id as int, touched(old(self)@[id as int], timestamp)));
        }
    }
}

/// `i` is the position of the only `'@'` of `s`, and neither the local part
/// before it nor the domain after it is empty.
pub open spec fn the_at(s: Seq<char>, i: int) -> bool {
    &&& 0 < i < s.len() - 1
    &&& s[i] == '@'
    &&& forall|j: int| 0 <= j < s.len() && s[j] == '@' ==> j == i
}

/// The minimal syntactic email rule of signup: exactly one `'@'`, with a
/// non-empty local part and a non-empty domain around it.
pub open spec fn email_ok(s: Seq<char>) -> bool {
    exists|i: int| the_at(s, i)
}

/// Decides the syntactic email rule [`email_ok`].
pub fn validate_email(email: &str) -> (r: bool)
    ensures
        r == email_ok(email@),
{
    let n = email.unicode_len();
    let mut i: usize = 0;
    let mut count: usize = 0;
    let mut at_idx: usize = 0;
    let ghost mut first: int = 0;
    let ghost mut second: int = 0;
    while i < n
        invariant
            n == email@.len(),
            0 <= i <= n,
            count <= i,
            count == 0 ==> forall|j: int| 0 <= j < i ==> email@[j] != '@',
            count >= 1 ==> at_idx < i && email@[at_idx as int] == '@',
            count == 1 ==> forall|j: int| 0 <= j < i && email@[j] == '@' ==> j == at_idx,
            count >= 2 ==> 0 <= first < second < i && email@[first] == '@' && email@[second]
                == '@',
        decreases n - i,
    {
        let c = email.get_char(i);
        if c == '@' {
            proof {
                if count == 1 {
                    first = at_idx as int;
                    second = i as int;
                }
            }
            at_idx = i;
            count = count + 1;
        }
        i += 1;
    }
    let r = count == 1 && 0 < at_idx && at_idx + 1 < n;
    proof {
        if r {
            assert(the_at(email@, at_idx as int));
        } else {
            if email_ok(email@) {
                let k = choose|k: int| the_at(email@, k);
                assert(email@[k] == '@');
                if count == 0 {
                } else if count == 1 {
                    assert(k == at_idx);
                } else {
                    assert(first == k && second == k);
                }
            }
        }
    }
    r
}

/// Creates an account from credentials: hashes the password, then inserts
/// the row atomically.  Mirrors signup without the confirmation and email
/// checks; returns the fresh account id.
pub fn create(
    store: &mut CredentialStore,
    hasher: &PasswordHasher,
    creds: &Credentials,
    now: i64,
) -> (r: Result<u128, AuthError>)
    requires
        old(store).wf(),
    ensures
        final(store).wf(),
        r is Err ==> final(store)@ == old(store)@,
        r matches Err(e) ==> e == AuthError::DuplicateEmail || e == AuthError::HashingFailure,
        r == Err::<u128, AuthError>(AuthError::DuplicateEmail) ==> has_email(
            old(store)@,
            creds.email@,
        ),
        has_email(old(store)@, creds.email@) ==> r is Err,
        !(4 <= hasher.cost <= 31) ==> r is Err,
        r matches Ok(id) ==> {
            &&& !has_email(old(store)@, creds.email@)
            &&& id == old(store)@.len() as u128
            &&& final(store)@ =~= old(store)@.push(final(store)@.last())
            &&& final(store)@.last().id == id
            &&& final(store)@.last().email@ == creds.email@
            &&& hashed_for(creds.password@, final(store)@.last().password_hash@)
            &&& final(store)@.last().created_at == now
            &&& final(store)@.last().last_login is None
        },
{
    let h = match hasher.hash(creds.password.as_str()) {
        Ok(h) => h,
        Err(_) => {
            return Err(AuthError::HashingFailure);
        },
    };
    store.insert(creds.email.as_str(), h.as_str(), now)
}

/// Signup: rejects a mismatched confirmation (`PasswordMismatch`, exact
/// byte comparison) and a malformed email (`InvalidEmail`), then hashes the
/// password and inserts the account atomically; `DuplicateEmail` comes from
/// the store unchanged.  No error leaves a row behind.
pub fn signup(
    store: &mut CredentialStore,
    hasher: &PasswordHasher,
    email: &str,
    password: &str,
    password_conf: &str,
    now: i64,
) -> (r: Result<User, AuthError>)
    requires
        old(store).wf(),
    ensures
        final(store).wf(),
        r is Err ==> final(store)@ == old(store)@,
        (r == Err::<User, AuthError>(AuthError::PasswordMismatch)) <==> password@
            != password_conf@,
        (r == Err::<User, AuthError>(AuthError::InvalidEmail)) <==> (password@ == password_conf@
            && !email_ok(email@)),
        r matches Err(e) ==> e == AuthError::PasswordMismatch || e == AuthError::InvalidEmail
            || e == AuthError::DuplicateEmail || e == AuthError::HashingFailure,
        r == Err::<User, AuthError>(AuthError::DuplicateEmail) ==> has_email(old(store)@, email@),
        password@ == password_conf@ && email_ok(email@) && has_email(old(store)@, email@) ==> r
            == Err::<User, AuthError>(AuthError::DuplicateEmail) || r == Err::<
            User,
            AuthError,
        >(AuthError::HashingFailure),
        r matches Ok(u) ==> {
            &&& password@ == password_conf@
            &&& email_ok(email@)
            &&& !has_email(old(store)@, email@)
            &&& final(store)@ =~= old(store)@.push(final(store)@.last())
            &&& final(store)@.last().email@ == email@
            &&& hashed_for(password@, final(store)@.last().password_hash@)
            &&& final(store)@.last().created_at == now
            &&& final(store)@.last().last_login is None
            &&& account_user(final(store)@.last(), u)
        },
{
    let pw = String::from_str(password);
    let conf = String::from_str(password_conf);
    if !(pw == conf) {
        return Err(AuthError::PasswordMismatch);
    }
    if !validate_email(email) {
        return Err(AuthError::InvalidEmail);
    }
    let h = match hasher.hash(password) {
        Ok(h) => h,
        Err(_) => {
            return Err(AuthError::HashingFailure);
        },
    };
    match store.insert(email, h.as_str(), now) {
        Ok(id) => Ok(
            User { id, email: String::from_str(email), created_at: now, last_login: None },
        ),
        Err(_) => Err(AuthError::DuplicateEmail),
    }
}

/// Login: enumeration-resistant credential check.  An unknown email and a
/// wrong password fail with the same `InvalidCredentials` and leave the
/// store unchanged; a match overwrites the account's last-login timestamp
/// and returns the account reflecting it.
pub fn login(store: &mut CredentialStore, creds: &Credentials, now: i64) -> (r: Result<
    User,
    AuthError,
>)
    requires
        old(store).wf(),
    ensures
        final(store).wf(),
        r is Ok <==> login_accepts(old(store)@, creds.email@, creds.password@),
        r matches Err(e) ==> e == AuthError::InvalidCredentials && final(store)@ == old(store)@,
        r matches Ok(u) ==> ({
            let i = email_index(old(store)@, creds.email@);
            &&& 0 <= i < old(store)@.len()
            &&& old(store)@[i].email@ == creds.email@
            &&& hashed_for(creds.password@, old(store)@[i].password_hash@)
            &&& final(store)@ =~= old(store)@.update(i, touched(old(store)@[i], now))
            &&& account_user(final(store)@[i], u)
            &&& u.last_login == Some(now)
        }),
{
    let idx = match store.find_email_index(creds.email.as_str()) {
        Some(i) => i,
        None => {
            proof {
                assert(!login_accepts(store@, creds.email@, creds.password@)) by {
                    if login_accepts(store@, creds.email@, creds.password@) {
                        let i = choose|i: int|
                            0 <= i < store@.len() && store@[i].email@ == creds.email@
                                && hashed_for(creds.password@, store@[i].password_hash@);
                        assert(has_email(store@, creds.email@));
                    }
                }
            }
            return Err(AuthError::InvalidCredentials);
        },
    };
    let ok = crate::hashing::verify_password(
        creds.password.as_str(),
        store.accounts[idx].password_hash.as_str(),
    );
    if !ok {
        proof {
            assert(!login_accepts(store@, creds.email@, creds.password@)) by {
                if login_accepts(store@, creds.email@, creds.password@) {
                    let i = choose|i: int|
                        0 <= i < store@.len() && store@[i].email@ == creds.email@
                            && hashed_for(creds.password@, store@[i].password_hash@);
                    assert(store@[i].email@ == store@[idx as int].email@);
                    assert(i == idx as int);
                }
            }
        }
        return Err(AuthError::InvalidCredentials);
    }
    let id = store.accounts[idx].id;
    let email_copy = store.accounts[idx].email.clone();
    let created = store.accounts[idx].created_at;
    proof {
        assert(store@[idx as int].id == idx as u128);
        assert(has_id(store@, id));
        assert(email_index(store@, creds.email@) == idx as int) by {
            let i = email_index(store@, creds.email@);
            assert(store@[idx as int].email@ == creds.email@);
            assert(0 <= i < store@.len() && store@[i].email@ == creds.email@);
            if i != idx as int {
                assert(store@[i].email@ != store@[idx as int].email@);
            }
        }
    }
    store.touch_last_login(id, now);
    Ok(User { id, email: email_copy, created_at: created, last_login: Some(now) })
}

/// Login stamped with the machine's wall clock.  The clock's value is not
/// promised; whatever it reads, the result is a login at that time, and
/// the returned account carries it as its last login.
pub fn login_now(store: &mut CredentialStore, creds: &Credentials) -> (r: Result<User, AuthError>)
    requires
        old(store).wf(),
    ensures
        final(store).wf(),
        r is Ok <==> login_accepts(old(store)@, creds.email@, creds.password@),
        r matches Err(e) ==> e == AuthError::InvalidCredentials && final(store)@ == old(store)@,
        r matches Ok(u) ==> ({
            let i = email_index(old(store)@, creds.email@);
            &&& u.last_login is Some
            &&& 0 <= i < old(store)@.len()
            &&& old(store)@[i].email@ == creds.email@
            &&& hashed_for(creds.password@, old(store)@[i].password_hash@)
            &&& final(store)@ =~= old(store)@.update(
                i,
                touched(old(store)@[i], u.last_login->0),
            )
            &&& account_user(final(store)@[i], u)
        }),
{
    let now = crate::datefmt::current_millis();
    login(store, creds, now)
}

/// Law: fresh credentials log in.  A successful signup appends a row
/// whose stored hash verifies against the chosen password, so a login with
/// that email and password is accepted by `login`'s contract — whatever
/// rows the store already held.
pub proof fn lemma_signup_then_login(
    s: Seq<StoredAccount>,
    a: StoredAccount,
    email: Seq<char>,
    password: Seq<char>,
)
    requires
        a.email@ == email,
        hashed_for(password, a.password_hash@),
    ensures
        login_accepts(s.push(a), email, password),
{
    let s2 = s.push(a);
    assert(s2[s.len() as int] == a);
}

/// Law: two signups with the same email cannot both succeed, and no
/// duplicate rows arise.  A successful signup appends a row carrying the
/// email while keeping emails unique, so the store refuses that email from
/// then on (`DuplicateEmail`, by the contracts of `signup` and `insert`).
pub proof fn lemma_duplicate_signup_excluded(s: Seq<StoredAccount>, a: StoredAccount)
    requires
        emails_unique(s),
        !has_email(s, a.email@),
    ensures
        emails_unique(s.push(a)),
        has_email(s.push(a), a.email@),
{
    let s2 = s.push(a);
    assert(s2[s.len() as int].email@ == a.email@);
    assert forall|i: int, j: int| 0 <= i < j < s2.len() implies s2[i].email@ != s2[j].email@ by {
        if j == s.len() as int {
            assert(s2[i] == s[i]);
            if s[i].email@ == a.email@ {
                assert(has_email(s, a.email@));
            }
        } else {
            assert(s2[i] == s[i] && s2[j] == s[j]);
        }
    }
}

/// With dense ids, a row with id `id` exists exactly when `id` is below the
/// row count.
pub proof fn lemma_dense_has_id(s: Seq<StoredAccount>, id: u128)
    requires
        store_wf(s),
    ensures
        has_id(s, id) <==> (id as int) < s.len(),
{
    if (id as int) < s.len() {
        assert(s[id as int].id == id);
    }
    if has_id(s, id) {
        let i = choose|i: int| 0 <= i < s.len() && s[i].id == id;
        assert(s[i].id == i as u128);
    }
}

} // verus!
