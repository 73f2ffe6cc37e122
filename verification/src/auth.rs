//! The authenticated caller, as every protected request sees it.

use vstd::prelude::*;
use crate::errors::ApiError;
use crate::jwt::{jwt_of, jwt_signed, verify_jwt};

verus! {

/// The user id a verified bearer token vouches for.
pub struct AuthUser(pub String);

/// Verifies a bearer token and yields the caller it identifies; a token
/// that does not verify — bad signature, malformed, or expired — is
/// `Unauthorized`. A caller is only ever identified by a token whose
/// signature verifies under the secret.
pub fn authenticate(token: &str, secret: &str) -> (r: Result<AuthUser, ApiError>)
    ensures
        r matches Err(e) ==> e == ApiError::Unauthorized,
        r is Ok ==> jwt_signed(token@, secret@),
        r matches Ok(a) ==> forall|sub: Seq<char>, exp: nat|
            token@ == jwt_of(sub, exp, secret@) ==> a.0@ == sub,
{
    match verify_jwt(token, secret) {
        Ok(claims) => Ok(AuthUser(claims.sub)),
        Err(_) => Err(ApiError::Unauthorized),
    }
}

} // verus!
