//! Authorization guard: extracts a bearer token from an inbound request
//! header, validates it, resolves the caller's identity, and decides
//! resource-ownership checks.

use vstd::prelude::*;
use crate::strutil::str_eq;
use crate::token::{validate_token, jwt_claims_of, sig_rejected, AuthError};

verus! {

/// The caller's identity as established by token validation. Never carries
/// the password hash.
#[derive(Debug, Clone)]
pub struct AuthenticatedIdentity {
    pub user_id: i32,
    pub email: String,
    pub user_type: String,
}

pub open spec fn admin_role() -> Seq<char> {
    seq!['a', 'd', 'm', 'i', 'n']
}

pub open spec fn spec_is_admin(identity: AuthenticatedIdentity) -> bool {
    identity.user_type@ == admin_role()
}

/// True exactly when the identity carries the admin role.
pub fn is_admin(identity: &AuthenticatedIdentity) -> (r: bool)
    ensures
        r == spec_is_admin(*identity),
{
    proof {
        reveal_strlit("admin");
        assert("admin"@ =~= admin_role());
    }
    str_eq(identity.user_type.as_str(), "admin")
}

pub open spec fn bearer_prefix() -> Seq<char> {
    seq!['B', 'e', 'a', 'r', 'e', 'r', ' ']
}

pub open spec fn has_bearer_prefix(h: Seq<char>) -> bool {
    h.len() >= 7 && h.subrange(0, 7) == bearer_prefix()
}

/// The token part of an authorization header, after the scheme prefix.
pub open spec fn bearer_token(h: Seq<char>) -> Seq<char> {
    h.subrange(7, h.len() as int)
}

/// What `authenticate` promises of its result for a given header, secret and
/// instant: a missing header fails with `MissingToken`; a header without the
/// bearer scheme fails with `MalformedHeader`; otherwise the token part is
/// validated, the returned identity carries exactly the claims the token
/// yields under the secret, still unexpired at `now`, and the token
/// validator's errors are propagated unchanged — `BadSignature` exactly when
/// the signature check rejected the token, `Malformed` for every other
/// failure to yield claims.
pub open spec fn authenticate_post(
    r: Result<AuthenticatedIdentity, AuthError>,
    header: Option<Seq<char>>,
    secret: Seq<char>,
    now: usize,
) -> bool {
    match header {
        None => r == Err::<AuthenticatedIdentity, AuthError>(AuthError::MissingToken),
        Some(h) => if !has_bearer_prefix(h) {
            r == Err::<AuthenticatedIdentity, AuthError>(AuthError::MalformedHeader)
        } else {
            let tok = bearer_token(h);
            match r {
                Ok(ident) => (match jwt_claims_of(tok, secret) {
                    Some(c) => c.0 == ident.user_id as int && c.1 == ident.email@ && c.2
                        == ident.user_type@ && (now as int) < c.3,
                    None => false,
                }) && !sig_rejected(tok, secret),
                Err(AuthError::Expired) => (match jwt_claims_of(tok, secret) {
                    Some(c) => c.3 <= now as int,
                    None => false,
                }) && !sig_rejected(tok, secret),
                Err(AuthError::BadSignature) => jwt_claims_of(tok, secret) is None && sig_rejected(
                    tok,
                    secret,
                ),
                Err(AuthError::Malformed) => jwt_claims_of(tok, secret) is None && !sig_rejected(
                    tok,
                    secret,
                ),
                Err(_) => false,
            }
        },
    }
}

/// Authenticate a request from its optional authorization header.
pub fn authenticate(header: Option<&str>, secret: &str, now: usize) -> (r: Result<
    AuthenticatedIdentity,
    AuthError,
>)
    ensures
        authenticate_post(
            r,
            match header {
                Some(h) => Some(h@),
                None => None::<Seq<char>>,
            },
            secret@,
            now,
        ),
{
    let h = match header {
        Some(h) => h,
        None => {
            return Err(AuthError::MissingToken);
        },
    };
    let len = h.unicode_len();
    if len < 7 {
        return Err(AuthError::MalformedHeader);
    }
    let prefix = h.substring_char(0, 7);
    proof {
        reveal_strlit("Bearer ");
        assert("Bearer "@ =~= bearer_prefix());
    }
    if !str_eq(prefix, "Bearer ") {
        return Err(AuthError::MalformedHeader);
    }
    let tok = h.substring_char(7, len);
    match validate_token(tok, secret, now) {
        Ok(c) => Ok(
            AuthenticatedIdentity { user_id: c.user_id, email: c.email, user_type: c.user_type },
        ),
        Err(e) => Err(e),
    }
}

/// Whether `identity` may operate on a hotel whose ownership lookup answered
/// `hotel_owner`: `None` means the hotel does not exist, `Some(owner)` gives
/// its owning user, if any.
pub open spec fn authorized(
    identity: AuthenticatedIdentity,
    hotel_owner: Option<Option<i32>>,
) -> bool {
    spec_is_admin(identity) || (match hotel_owner {
        Some(Some(owner)) => owner == identity.user_id,
        _ => false,
    })
}

/// Decide owner-scoped access to a hotel: an admin may always act; otherwise
/// access is granted exactly when the hotel exists and records the caller as
/// its owner. A nonexistent hotel answers false, not an error.
pub fn authorize_hotel_owner(
    identity: &AuthenticatedIdentity,
    hotel_owner: Option<Option<i32>>,
) -> (r: bool)
    ensures
        r == authorized(*identity, hotel_owner),
{
    if is_admin(identity) {
        return true;
    }
    match hotel_owner {
        Some(Some(owner)) => owner == identity.user_id,
        _ => false,
    }
}

} // verus!
