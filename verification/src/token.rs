//! Issuing and validating signed identity tokens.
//!
//! A token is the compact signed representation of a `Claims` value under a
//! shared secret (an HMAC-signed JWT). Signing is deterministic in the
//! claims and the secret, so the crate names the signed form `token_of` and
//! states issuance and validation over that name. Expiry is checked here, in
//! verified code, against a caller-supplied clock: a token is accepted only
//! while `exp > now`. The secret is always passed in explicitly; nothing in
//! this module reads ambient configuration.

use vstd::prelude::*;

use crate::errors::AppError;
use crate::models::Claims;

verus! {

/// The compact signed token that carries subject `sub`, `username` and
/// expiry `exp` under `secret`.
pub uninterp spec fn token_of(sub: int, username: Seq<char>, exp: int, secret: Seq<u8>) -> Seq<
    char,
>;

/// Relies on `jsonwebtoken::encode` with the default header (HS256): the
/// token is built from the serialized claims and the secret alone, with no
/// randomness, so its result is a function of the arguments. The call
/// cannot fail here: the key family matches the header's algorithm by
/// construction, HMAC-SHA256 accepts a key of any length and its signing
/// step is infallible, and serializing these plain values cannot error.
#[verifier::external_body]
fn encode_claims(sub: i64, username: &str, exp: u64, secret: &[u8]) -> (r: Option<String>)
    ensures
        r is Some,
        r matches Some(t) ==> t@ == token_of(sub as int, username@, exp as int, secret@),
{
    let mut claims = serde_json::Map::new();
    claims.insert("sub".to_string(), serde_json::Value::from(sub));
    claims.insert("username".to_string(), serde_json::Value::from(username));
    claims.insert("exp".to_string(), serde_json::Value::from(exp));
    jsonwebtoken::encode(
        &jsonwebtoken::Header::default(),
        &serde_json::Value::Object(claims),
        &jsonwebtoken::EncodingKey::from_secret(secret),
    ).ok()
}

/// Relies on `jsonwebtoken::decode` restricted to HS256, with expiry
/// checking turned off so that the call depends on its arguments alone: a
/// token that `jsonwebtoken::encode` produced for some claims under this
/// secret verifies and yields back exactly those claims. Expiry is the
/// caller's to check.
#[verifier::external_body]
fn decode_claims(token: &str, secret: &[u8]) -> (r: Option<(i64, String, u64)>)
    ensures
        (r is None ==> forall|s: i64, u: Seq<char>, e: u64|
            token@ != #[trigger] token_of(s as int, u, e as int, secret@)),
        (r matches Some(c) ==> forall|s: i64, u: Seq<char>, e: u64|
            token@ == #[trigger] token_of(s as int, u, e as int, secret@) ==> c.0 == s && c.1@ == u
                && c.2 == e),
{
    let mut validation = jsonwebtoken::Validation::new(jsonwebtoken::Algorithm::HS256);
    validation.validate_exp = false;
    let data = jsonwebtoken::decode::<serde_json::Value>(
        token,
        &jsonwebtoken::DecodingKey::from_secret(secret),
        &validation,
    ).ok()?;
    let sub = data.claims.get("sub")?.as_i64()?;
    let username = data.claims.get("username")?.as_str()?.to_string();
    let exp = data.claims.get("exp")?.as_u64()?;
    Some((sub, username, exp))
}

/// Seconds a token stays valid after issuance.
pub const TOKEN_LIFETIME_SECS: u64 = 86400;

/// Signs a token for `user_id` under `secret`, expiring 24 hours after
/// `now`. Signing is deterministic and cannot fail, so this always
/// succeeds.
pub fn generate_jwt(user_id: i64, username: &str, secret: &[u8], now: u64) -> (r: Result<
    String,
    AppError,
>)
    requires
        now + TOKEN_LIFETIME_SECS <= u64::MAX,
    ensures
        r is Ok,
        r matches Ok(t) ==> t@ == token_of(
            user_id as int,
            username@,
            now + TOKEN_LIFETIME_SECS,
            secret@,
        ),
{
    let exp = now + TOKEN_LIFETIME_SECS;
    match encode_claims(user_id, username, exp, secret) {
        Some(t) => Ok(t),
        None => Err(AppError::Jwt),
    }
}

/// Validates a token under `secret` at time `now`: the signature must
/// verify and the claims must not be expired (`exp > now`). A bad
/// signature, a malformed token and expired claims are indistinguishable to
/// the caller: all are `Unauthorized`.
///
/// The quantified clause is the token law: a token issued for a subject
/// validates to exactly that subject's claims strictly before its expiry,
/// and fails validation at and after it.
pub fn decode_jwt(token: &str, secret: &[u8], now: u64) -> (r: Result<Claims, AppError>)
    ensures
        r matches Ok(c) ==> c.exp > now,
        r matches Err(e) ==> e matches AppError::Unauthorized,
        (forall|s: i64, u: Seq<char>, e: u64|
            token@ == #[trigger] token_of(s as int, u, e as int, secret@) ==> if e > now {
                r matches Ok(c) && c.sub == s && c.username@ == u && c.exp == e
            } else {
                r is Err
            }),
{
    match decode_claims(token, secret) {
        Some((sub, username, exp)) => {
            if exp > now {
                Ok(Claims { sub, username, exp })
            } else {
                Err(AppError::Unauthorized)
            }
        },
        None => Err(AppError::Unauthorized),
    }
}

} // verus!
