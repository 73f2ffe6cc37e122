//! The password primitive: memory-hard hashing at sign-up and
//! verification at sign-in. Plaintext passwords are never stored or
//! compared directly.

use vstd::prelude::*;
use argon2::{PasswordHasher, PasswordVerifier};

verus! {

/// Whether argon2 verification of `password` against the hash string
/// `hash` succeeds. Verification re-derives the hash from the salt and
/// parameters embedded in `hash`, so the outcome is a function of the two
/// strings alone.
pub uninterp spec fn password_accepts(hash: Seq<char>, password: Seq<char>) -> bool;

#[verifier::external_type_specification]
#[verifier::external_body]
pub struct ExPasswordHashError(argon2::password_hash::Error);

/// Relies on argon2's `PasswordHasher::hash_password` with a freshly
/// generated random salt: a hash it returns embeds that salt and the
/// default parameters, and verifies against the hashed password.
#[verifier::external_body]
pub fn hash_password(password: &str) -> (r: Result<String, argon2::password_hash::Error>)
    ensures
        r matches Ok(h) ==> password_accepts(h@, password@),
{
    let salt = argon2::password_hash::SaltString::generate(&mut rand_core::OsRng);
    let argon = argon2::Argon2::default();
    Ok(argon.hash_password(password.as_bytes(), &salt)?.to_string())
}

/// Relies on argon2's `PasswordVerifier::verify_password`: it reports
/// `Ok` exactly when re-deriving the hash from the embedded salt and
/// parameters reproduces the stored output, and `Error::Password` when the
/// outputs differ; any other error means the hash string itself did not
/// parse.
#[verifier::external_body]
pub fn verify_password(password: &str, hash: &str) -> (r: Result<
    bool,
    argon2::password_hash::Error,
>)
    ensures
        (r matches Ok(true)) <==> password_accepts(hash@, password@),
{
    let parsed_hash = argon2::PasswordHash::new(hash)?;
    let argon = argon2::Argon2::default();
    match argon.verify_password(password.as_bytes(), &parsed_hash) {
        Ok(()) => Ok(true),
        Err(argon2::password_hash::Error::Password) => Ok(false),
        Err(e) => Err(e),
    }
}

} // verus!
