//! Session token manager: issues and validates signed, time-bounded identity
//! tokens.
//!
//! The signing scheme itself (HS256) lives in the jsonwebtoken crate behind
//! two trusted wrappers. What a token carries is named by two uninterpreted
//! functions: `token_of`, the token issued for given claims under a secret,
//! and `jwt_claims_of`, the claims a token yields under a secret. Expiry is
//! checked here, in verified code, against a caller-supplied clock reading.

use vstd::prelude::*;
use crate::models::{JwtClaims, UserInfo};
use jsonwebtoken::errors::ErrorKind;
use jsonwebtoken::{decode, encode, Algorithm, DecodingKey, EncodingKey, Header, Validation};
use serde_json::Value;

verus! {

/// Tokens are valid for seven days from issuance.
pub const TOKEN_VALIDITY_SECS: usize = 604800;

/// Why authentication failed; every variant is reported to callers as the
/// same unauthorized status.
#[derive(Debug, Clone, Copy, PartialEq, Eq, Structural)]
pub enum AuthError {
    MissingToken,
    MalformedHeader,
    Expired,
    BadSignature,
    Malformed,
}

/// Token issuance failed in the signing backend.
#[derive(Debug, Clone, Copy, PartialEq, Eq, Structural)]
pub struct SigningError;

/// The token issued for these claims under this secret. The encoder is
/// deterministic, so the token is a function of its inputs alone.
pub uninterp spec fn token_of(
    user_id: int,
    email: Seq<char>,
    role: Seq<char>,
    exp: int,
    secret: Seq<char>,
) -> Seq<char>;

/// The claims `(user_id, email, role, exp)` that a token yields under a
/// secret, or `None` when the signature does not verify or the payload does
/// not parse into that shape. Decoding is a function of the token and the
/// secret alone.
pub uninterp spec fn jwt_claims_of(token: Seq<char>, secret: Seq<char>) -> Option<
    (int, Seq<char>, Seq<char>, int),
>;

/// Whether decoding the token under the secret fails its signature check, as
/// opposed to succeeding or failing for any other reason (shape, fields,
/// algorithm). A function of the token and the secret alone.
pub uninterp spec fn sig_rejected(token: Seq<char>, secret: Seq<char>) -> bool;

/// Relies on jsonwebtoken::encode with the default HS256 header: the token is
/// a deterministic function of the claims and the secret, and
/// jsonwebtoken::decode under the same secret recovers exactly the claims
/// that were encoded. Issuance always succeeds: HS256 signing with a secret
/// key has no failure path (the HMAC accepts any key length, and the claims
/// object always serializes).
#[verifier::external_body]
fn jwt_encode(user_id: i32, email: &str, role: &str, exp: usize, secret: &str) -> (r: Result<
    String,
    SigningError,
>)
    ensures
        r is Ok,
        r->Ok_0@ == token_of(user_id as int, email@, role@, exp as int, secret@),
        jwt_claims_of(r->Ok_0@, secret@) == Some((user_id as int, email@, role@, exp as int)),
{
    let mut claims = serde_json::Map::new();
    claims.insert("user_id".to_string(), Value::from(user_id));
    claims.insert("email".to_string(), Value::from(email));
    claims.insert("user_type".to_string(), Value::from(role));
    claims.insert("exp".to_string(), Value::from(exp as u64));
    encode(&Header::default(), &Value::Object(claims), &EncodingKey::from_secret(secret.as_bytes()))
        .map_err(|_| SigningError)
}

/// Relies on jsonwebtoken::decode with HS256. Expiry checking is turned off
/// here (`validate_token` checks expiry itself), though a payload without an
/// `exp` claim still fails, matching the claim shape below. Success means the
/// signature verified under `secret` and the payload parsed into the claim
/// shape, both functions of the token and the secret alone. A signature
/// mismatch is reported as `BadSignature`, tied to `sig_rejected`; every
/// other failure is `Malformed`.
#[verifier::external_body]
fn jwt_decode(token: &str, secret: &str) -> (r: Result<JwtClaims, AuthError>)
    ensures
        match r {
            Ok(c) => jwt_claims_of(token@, secret@) == Some(
                (c.user_id as int, c.email@, c.user_type@, c.exp as int),
            ) && !sig_rejected(token@, secret@),
            Err(AuthError::BadSignature) => jwt_claims_of(token@, secret@) is None && sig_rejected(
                token@,
                secret@,
            ),
            Err(AuthError::Malformed) => jwt_claims_of(token@, secret@) is None && !sig_rejected(
                token@,
                secret@,
            ),
            Err(_) => false,
        },
{
    let mut v = Validation::new(Algorithm::HS256);
    v.validate_exp = false;
    v.validate_aud = false;
    let d = decode::<Value>(token, &DecodingKey::from_secret(secret.as_bytes()), &v)
        .map_err(|e| match e.kind() {
            ErrorKind::InvalidSignature => AuthError::BadSignature,
            _ => AuthError::Malformed,
        })?.claims;
    match (d["user_id"].as_i64(), d["email"].as_str(), d["user_type"].as_str(), d["exp"].as_u64()) {
        (Some(u), Some(e), Some(t), Some(x)) if i32::try_from(u).is_ok() => Ok(
            JwtClaims { user_id: u as i32, email: e.to_string(), user_type: t.to_string(), exp: x as usize },
        ),
        _ => Err(AuthError::Malformed),
    }
}

/// Issue a signed session token for `user`, expiring a fixed window after
/// `now` (seconds since the epoch). Issuance always succeeds; the token is
/// exactly the encoding of the user's id, email and role with that expiry,
/// and decodes back to them under the same secret.
pub fn create_jwt(user: &UserInfo, secret: &str, now: usize) -> (r: Result<String, SigningError>)
    requires
        now + TOKEN_VALIDITY_SECS <= usize::MAX,
    ensures
        r is Ok,
        r->Ok_0@ == token_of(
            user.id as int,
            user.email@,
            user.user_type@,
            now + TOKEN_VALIDITY_SECS,
            secret@,
        ),
        jwt_claims_of(r->Ok_0@, secret@) == Some(
            (user.id as int, user.email@, user.user_type@, (now + TOKEN_VALIDITY_SECS) as int),
        ),
{
    let exp = now + TOKEN_VALIDITY_SECS;
    jwt_encode(user.id, user.email.as_str(), user.user_type.as_str(), exp, secret)
}

/// What `validate_token` promises of its result: success returns exactly the
/// claims the token yields under the secret, still unexpired at `now`; an
/// expired token fails with `Expired`; a token yielding no claims fails with
/// `BadSignature` exactly when its signature check is what rejected it, and
/// with `Malformed` otherwise.
pub open spec fn validate_post(
    r: Result<JwtClaims, AuthError>,
    token: Seq<char>,
    secret: Seq<char>,
    now: usize,
) -> bool {
    match r {
        Ok(c) => jwt_claims_of(token, secret) == Some(
            (c.user_id as int, c.email@, c.user_type@, c.exp as int),
        ) && now < c.exp && !sig_rejected(token, secret),
        Err(AuthError::Expired) => (match jwt_claims_of(token, secret) {
            Some(c) => c.3 <= now as int,
            None => false,
        }) && !sig_rejected(token, secret),
        Err(AuthError::BadSignature) => jwt_claims_of(token, secret) is None && sig_rejected(
            token,
            secret,
        ),
        Err(AuthError::Malformed) => jwt_claims_of(token, secret) is None && !sig_rejected(
            token,
            secret,
        ),
        Err(_) => false,
    }
}

/// Validate a token against a secret at instant `now`: the claims are
/// returned exactly when the token decodes under the secret and `now` is
/// strictly before their expiry.
pub fn validate_token(token: &str, secret: &str, now: usize) -> (r: Result<JwtClaims, AuthError>)
    ensures
        validate_post(r, token@, secret@, now),
{
    match jwt_decode(token, secret) {
        Ok(c) => {
            if now < c.exp {
                Ok(c)
            } else {
                Err(AuthError::Expired)
            }
        },
        Err(e) => Err(e),
    }
}

/// When a token yields no claims under a secret, the validation error is
/// determined by the signature check: if the signature is what failed, as
/// happens for a token issued under a different secret, the error is
/// `BadSignature`; every other failure is `Malformed`.
pub proof fn lemma_rejection_kind(
    r: Result<JwtClaims, AuthError>,
    token: Seq<char>,
    secret: Seq<char>,
    now: usize,
)
    requires
        validate_post(r, token, secret, now),
        jwt_claims_of(token, secret) is None,
    ensures
        sig_rejected(token, secret) ==> r == Err::<JwtClaims, AuthError>(AuthError::BadSignature),
        !sig_rejected(token, secret) ==> r == Err::<JwtClaims, AuthError>(AuthError::Malformed),
{
}

/// A token carrying expiry `exp` validates at every instant strictly before
/// `exp` and fails with `Expired` at every instant at or after `exp`.
pub proof fn lemma_token_validity_window(
    r: Result<JwtClaims, AuthError>,
    token: Seq<char>,
    secret: Seq<char>,
    user_id: int,
    email: Seq<char>,
    role: Seq<char>,
    exp: int,
    now: usize,
)
    requires
        jwt_claims_of(token, secret) == Some((user_id, email, role, exp)),
        validate_post(r, token, secret, now),
    ensures
        (now as int) < exp ==> r is Ok && r->Ok_0.user_id as int == user_id && r->Ok_0.email@
            == email && r->Ok_0.user_type@ == role && r->Ok_0.exp as int == exp,
        (now as int) >= exp ==> r == Err::<JwtClaims, AuthError>(AuthError::Expired),
{
}

} // verus!
