//! The bearer-token primitive: a signed HS256 token carrying the user id
//! and an expiry one day after issue.

use vstd::prelude::*;

verus! {

/// Token lifetime: 24 hours.
pub const TOKEN_LIFETIME_SECS: u64 = 86400;

/// The payload a token carries: the subject (a user id) and the expiry
/// as a Unix timestamp in seconds.
pub struct Claims {
    pub sub: String,
    pub exp: u64,
}

/// The HS256 token for a `{sub, exp}` payload under a secret. Signing is
/// HMAC over a canonical serialization, so the token is a function of
/// these three values alone.
pub uninterp spec fn jwt_of(sub: Seq<char>, exp: nat, secret: Seq<char>) -> Seq<char>;

/// Whether a token's HS256 signature verifies under a secret: the
/// signature is recomputed from the token's own header and payload parts,
/// so the outcome is a function of the two strings alone.
pub uninterp spec fn jwt_signed(token: Seq<char>, secret: Seq<char>) -> bool;

#[verifier::external_type_specification]
#[verifier::external_body]
pub struct ExJwtError(jsonwebtoken::errors::Error);

/// Relies on jsonwebtoken's `encode` with HS256: a deterministic token for
/// the given subject, expiry, and secret, which verifies under that same
/// secret. With an HMAC key and the HS256 header, no step of `encode` can
/// fail — the algorithm families match, the fixed header and the two-field
/// payload always serialize, and HMAC signing is infallible — so it
/// returns `Ok`.
#[verifier::external_body]
fn encode_token(sub: &str, exp: u64, secret: &str) -> (r: Result<
    String,
    jsonwebtoken::errors::Error,
>)
    ensures
        r is Ok,
        r matches Ok(t) ==> t@ == jwt_of(sub@, exp as nat, secret@),
        r matches Ok(t) ==> jwt_signed(t@, secret@),
{
    let mut claims = serde_json::Map::new();
    claims.insert(String::from("sub"), serde_json::Value::String(sub.to_string()));
    claims.insert(String::from("exp"), serde_json::Value::Number(serde_json::Number::from(exp)));
    jsonwebtoken::encode(
        &jsonwebtoken::Header::new(jsonwebtoken::Algorithm::HS256),
        &serde_json::Value::Object(claims),
        &jsonwebtoken::EncodingKey::from_secret(secret.as_bytes()),
    )
}

/// Relies on jsonwebtoken's `decode` with HS256 validation: it accepts
/// only a token whose signature verifies under the same secret, it also
/// checks the expiry against the clock, and on success it returns the
/// claims carried by the token itself — so a token built by `encode` for
/// some `(sub, exp)` can only decode to that pair.
#[verifier::external_body]
pub fn verify_jwt(token: &str, secret: &str) -> (r: Result<Claims, jsonwebtoken::errors::Error>)
    ensures
        r is Ok ==> jwt_signed(token@, secret@),
        r matches Ok(c) ==> forall|sub: Seq<char>, exp: nat|
            token@ == jwt_of(sub, exp, secret@) ==> c.sub@ == sub && c.exp as nat == exp,
{
    let data = jsonwebtoken::decode::<serde_json::Value>(
        token,
        &jsonwebtoken::DecodingKey::from_secret(secret.as_bytes()),
        &jsonwebtoken::Validation::new(jsonwebtoken::Algorithm::HS256),
    )?;
    match (data.claims.get("sub"), data.claims.get("exp").and_then(serde_json::Value::as_u64)) {
        (Some(serde_json::Value::String(s)), Some(exp)) => Ok(Claims { sub: s.clone(), exp }),
        _ => Err(jsonwebtoken::errors::ErrorKind::InvalidToken.into()),
    }
}

/// Issues a token for the user id, expiring one day after `now`. Issuance
/// cannot fail: HS256 signing is infallible.
pub fn generate_jwt(user_id: &str, secret: &str, now: u64) -> (r: Result<
    String,
    jsonwebtoken::errors::Error,
>)
    requires
        now + TOKEN_LIFETIME_SECS <= u64::MAX,
    ensures
        r is Ok,
        r matches Ok(t) ==> t@ == jwt_of(user_id@, (now + TOKEN_LIFETIME_SECS) as nat, secret@),
        r matches Ok(t) ==> jwt_signed(t@, secret@),
{
    let exp = now + TOKEN_LIFETIME_SECS;
    encode_token(user_id, exp, secret)
}

} // verus!
