//! The account endpoints: sign-up and sign-in, minus the HTTP skin.

use vstd::prelude::*;
use crate::api_types::{CreateUserInput, CreateUserOutput, SignInOutput};
use crate::errors::ApiError;
use crate::jwt::{generate_jwt, jwt_of, jwt_signed, TOKEN_LIFETIME_SECS};
use crate::model::User;
use crate::password::{hash_password, password_accepts};
use crate::store::{has_username, spec_credentials_ok, user_added, Store};
use crate::time_format::MAX_TIMESTAMP_SECS;

verus! {

/// Hashes the password and inserts the user; any failure — a duplicate
/// username, a hashing error, an exhausted id draw — is internal, with
/// nothing stored.
pub fn sign_up(store: &mut Store, input: CreateUserInput) -> (r: Result<CreateUserOutput, ApiError>)
    requires
        old(store).wf(),
    ensures
        final(store).wf(),
        has_username(old(store).users(), input.username@) ==> r is Err,
        match r {
            Ok(out) => {
                &&& !has_username(old(store).users(), input.username@)
                &&& exists|h: Seq<char>|
                    user_added(
                        old(store).users(),
                        final(store).users(),
                        out.id@,
                        input.username@,
                        h,
                    ) && password_accepts(h, input.password@)
                &&& final(store).websites() == old(store).websites()
                &&& final(store).history() == old(store).history()
            },
            Err(e) => e == ApiError::Internal && *final(store) == *old(store),
        },
{
    let hash = match hash_password(input.password.as_str()) {
        Ok(h) => h,
        Err(_) => {
            return Err(ApiError::Internal);
        },
    };
    let ghost hash_view = hash@;
    match store.sign_up(input.username, hash) {
        Ok(id) => {
            proof {
                assert(user_added(
                    old(store).users(),
                    store.users(),
                    id@,
                    input.username@,
                    hash_view,
                ) && password_accepts(hash_view, input.password@));
            }
            Ok(CreateUserOutput { id })
        },
        Err(_) => Err(ApiError::Internal),
    }
}

/// Loads the user, verifies the password, and issues a bearer token
/// expiring one day after `now`. Bad credentials are `Unauthorized`;
/// valid credentials always yield a token, since issuance cannot fail.
pub fn sign_in(store: &Store, input: CreateUserInput, secret: &str, now: u64) -> (r: Result<
    SignInOutput,
    ApiError,
>)
    requires
        store.wf(),
        now <= MAX_TIMESTAMP_SECS,
    ensures
        r is Ok <==> spec_credentials_ok(store.users(), input.username@, input.password@),
        match r {
            Ok(out) => {
                &&& jwt_signed(out.jwt@, secret@)
                &&& exists|i: int|
                    {
                        &&& 0 <= i < store.users().len()
                        &&& (#[trigger] store.users()[i]).username@ == input.username@
                        &&& password_accepts(store.users()[i].password@, input.password@)
                        &&& out.jwt@ == jwt_of(
                            store.users()[i].id@,
                            (now + TOKEN_LIFETIME_SECS) as nat,
                            secret@,
                        )
                    }
            },
            Err(e) => e == ApiError::Unauthorized,
        },
{
    let user_id = match store.sign_in(input.username, input.password) {
        Ok(id) => id,
        Err(_) => {
            return Err(ApiError::Unauthorized);
        },
    };
    match generate_jwt(user_id.as_str(), secret, now) {
        Ok(token) => {
            proof {
                let i = choose|i: int|
                    {
                        &&& 0 <= i < store.users().len()
                        &&& (#[trigger] store.users()[i]).username@ == input.username@
                        &&& password_accepts(store.users()[i].password@, input.password@)
                        &&& user_id@ == store.users()[i].id@
                    };
                assert(store.users()[i].username@ == input.username@);
            }
            Ok(SignInOutput { jwt: token })
        },
        Err(_) => Err(ApiError::Internal),
    }
}

/// Signing up establishes exactly what signing in later checks: once a
/// user is added under `name` with a hash that accepts `password`, the
/// credentials `(name, password)` are accepted against the new state.
pub proof fn lemma_sign_up_enables_sign_in(
    pre: Seq<User>,
    post: Seq<User>,
    id: Seq<char>,
    name: Seq<char>,
    hash: Seq<char>,
    password: Seq<char>,
)
    requires
        user_added(pre, post, id, name, hash),
        password_accepts(hash, password),
    ensures
        spec_credentials_ok(post, name, password),
{
    assert(post[post.len() - 1].username@ == name);
}

} // verus!
