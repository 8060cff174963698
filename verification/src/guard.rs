//! The per-request session guard.
//!
//! Every protected request presents the raw token extracted from its
//! (already integrity-checked) envelope; the guard resolves it into the
//! account it references, re-validating existence on every call, so an
//! account deleted elsewhere is locked out on its very next request.
//! Absent and malformed tokens fail alike, to resist probing.
use vstd::prelude::*;

verus! {

use crate::errors::UserError;
use crate::token::{decode_token, uuid_parse};
use crate::users::{account_user, has_id, CredentialStore, User};

/// Resolves a presented session token into the account it references.
///
/// No token, or a token that does not parse as an account id, fails with
/// `Unauthenticated` — the two cases are indistinguishable, and neither is
/// ever reported as `AccountNotFound`.  A token referencing no stored
/// account fails with `AccountNotFound`.  Otherwise the account is yielded.
pub fn resolve_identity(store: &CredentialStore, token: Option<&str>) -> (r: Result<
    User,
    UserError,
>)
    requires
        store.wf(),
    ensures
        token is None ==> r == Err::<User, UserError>(UserError::Unauthenticated),
        token matches Some(t) ==> ({
            let p = uuid_parse(t@);
            &&& (p is None ==> r == Err::<User, UserError>(UserError::Unauthenticated))
            &&& (p matches Some(id) ==> {
                &&& (!has_id(store@, id) ==> r == Err::<User, UserError>(
                    UserError::AccountNotFound,
                ))
                &&& (has_id(store@, id) ==> (r matches Ok(u) && 0 <= id < store@.len()
                    && account_user(store@[id as int], u)))
            })
        }),
{
    let t = match token {
        Some(t) => t,
        None => {
            return Err(UserError::Unauthenticated);
        },
    };
    let id = match decode_token(t) {
        Some(id) => id,
        None => {
            return Err(UserError::Unauthenticated);
        },
    };
    match store.retrieve_by_uuid(id) {
        Some(u) => Ok(u),
        None => Err(UserError::AccountNotFound),
    }
}

} // verus!
