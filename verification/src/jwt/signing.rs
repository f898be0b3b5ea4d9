//! The boundary to the token codec and the clock. Nothing in this file is
//! proved: each item states what is taken on trust from the crate it calls.

use vstd::prelude::*;
use crate::jwt::auth::Claims;

verus! {

/// The error type of the `jsonwebtoken` crate, carried through unopened.
#[verifier::external_type_specification]
#[verifier::external_body]
pub struct ExCodecError(jsonwebtoken::errors::Error);

/// What the token decoder reports when it refuses a token, as far as this
/// library tells its reports apart.
#[derive(Debug, Clone, Copy, PartialEq, Eq, Structural)]
pub enum DecodeFailure {
    InvalidToken,
    InvalidSignature,
    InvalidIssuer,
    ExpiredSignature,
    Other,
}

/// The compact signed token that `jsonwebtoken::encode` produces for a claim
/// set under the default header and an HMAC key made of `secret`.
pub uninterp spec fn signed_claims(
    sub: u128,
    email: Seq<char>,
    role: Seq<char>,
    exp: u64,
    secret: Seq<char>,
) -> Seq<char>;

/// Calls `jsonwebtoken::encode` with the default header (HS256, type JWT),
/// the payload `{sub, email, role, exp}` with `sub` written as a hyphenated
/// UUID, and `secret` as the HMAC key.
///
/// The result depends on the arguments alone. The call succeeds: `encode`
/// fails only where the key is of another family than the header's
/// algorithm, where header or payload cannot be written as JSON, or where
/// the signature fails, and an HMAC key under HS256, a JSON map with string
/// keys and an HMAC signature give it none of these. The token is never
/// empty, since it holds the two dots that join its three parts.
#[verifier::external_body]
pub(crate) fn sign_claims(claims: &Claims, secret: &str) -> (r: Result<String, jsonwebtoken::errors::Error>)
    ensures
        r is Ok,
        r matches Ok(text) ==> text@.len() > 0 && text@
            == signed_claims(claims.sub, claims.email@, claims.role@, claims.exp, secret@),
{
    let mut payload = serde_json::Map::new();
    payload.insert("sub".to_owned(), uuid::Uuid::from_u128(claims.sub).to_string().into());
    payload.insert("email".to_owned(), claims.email.as_str().into());
    payload.insert("role".to_owned(), claims.role.as_str().into());
    payload.insert("exp".to_owned(), claims.exp.into());
    let key = jsonwebtoken::EncodingKey::from_secret(secret.as_bytes());
    jsonwebtoken::encode(&jsonwebtoken::Header::default(), &payload, &key)
}

/// The claims `(sub, email, role, exp)` that `jsonwebtoken::decode` hands
/// back for a token where it accepts the token under an HMAC key made of
/// `secret`. The payload is read from the token's middle part alone:
/// whether the token is accepted depends on the system clock, what is
/// handed back on acceptance does not.
pub uninterp spec fn accepted_payload(token: Seq<char>, secret: Seq<char>) -> Option<
    (u128, Seq<char>, Seq<char>, u64),
>;

/// Calls `jsonwebtoken::decode` with the default validation (HS256, expiry
/// required and checked against the system clock) and `secret` as the HMAC
/// key, and `serde_json::from_value` to read the four claims out of the
/// payload: `sub` as a UUID, `email` and `role` as strings, `exp` as an
/// unsigned number. A claim that is absent is read as JSON null, which none
/// of the four accepts; a payload that cannot be read so is an error of the
/// decoder's JSON kind.
///
/// Whether the call succeeds depends on the clock, so nothing is claimed of
/// that. Claims that come back are those of the token.
#[verifier::external_body]
pub(crate) fn decode_token(token: &str, secret: &str) -> (r: Result<Claims, jsonwebtoken::errors::Error>)
    ensures
        r matches Ok(claims) ==> accepted_payload(token@, secret@)
            == Some((claims.sub, claims.email@, claims.role@, claims.exp)),
{
    let mut validation = jsonwebtoken::Validation::default();
    validation.validate_exp = true;
    let key = jsonwebtoken::DecodingKey::from_secret(secret.as_bytes());
    let payload = jsonwebtoken::decode::<serde_json::Value>(token, &key, &validation)?.claims;
    let field = |name: &str| payload.get(name).cloned().unwrap_or_default();
    let fields = vec![field("sub"), field("email"), field("role"), field("exp")];
    let (sub, email, role, exp): (uuid::Uuid, String, String, u64) =
        serde_json::from_value(serde_json::Value::Array(fields))?;
    Ok(Claims { sub: sub.as_u128(), email, role, exp })
}

/// Tells the reports of `jsonwebtoken::errors::Error::kind` apart.
#[verifier::external_body]
pub(crate) fn failure_kind(error: &jsonwebtoken::errors::Error) -> (r: DecodeFailure)
{
    match error.kind() {
        jsonwebtoken::errors::ErrorKind::InvalidToken => DecodeFailure::InvalidToken,
        jsonwebtoken::errors::ErrorKind::InvalidSignature => DecodeFailure::InvalidSignature,
        jsonwebtoken::errors::ErrorKind::InvalidIssuer => DecodeFailure::InvalidIssuer,
        jsonwebtoken::errors::ErrorKind::ExpiredSignature => DecodeFailure::ExpiredSignature,
        _ => DecodeFailure::Other,
    }
}

/// Calls `chrono::Utc::now` and takes its Unix timestamp in seconds. The
/// call refuses a system clock set before the epoch, so what it returns is
/// never negative.
#[verifier::external_body]
pub(crate) fn current_timestamp() -> (now: i64)
    ensures
        0 <= now,
{
    chrono::Utc::now().timestamp()
}

} // verus!
