use maya_core::models::UserInfo;
use maya_core::token::{create_jwt, validate_token, AuthError, TOKEN_VALIDITY_SECS};

fn sample_user() -> UserInfo {
    UserInfo {
        id: 42,
        first_name: "Ana".to_string(),
        last_name: "Poot".to_string(),
        email: "ana@example.com".to_string(),
        user_type: "customer".to_string(),
    }
}

#[test]
fn token_roundtrip_returns_claims() {
    let user = sample_user();
    let token = create_jwt(&user, "secret-key", 1_000).unwrap();
    let claims = validate_token(&token, "secret-key", 1_000).unwrap();
    assert_eq!(claims.user_id, 42);
    assert_eq!(claims.email, "ana@example.com");
    assert_eq!(claims.user_type, "customer");
    assert_eq!(claims.exp, 1_000 + TOKEN_VALIDITY_SECS);
}

#[test]
fn issuance_is_deterministic_and_three_part() {
    let user = sample_user();
    let a = create_jwt(&user, "secret-key", 1_000).unwrap();
    let b = create_jwt(&user, "secret-key", 1_000).unwrap();
    assert_eq!(a, b);
    assert_eq!(a.split('.').count(), 3);
}

#[test]
fn token_validates_throughout_window() {
    let user = sample_user();
    let issued_at: usize = 50_000;
    let token = create_jwt(&user, "secret-key", issued_at).unwrap();
    assert!(validate_token(&token, "secret-key", issued_at).is_ok());
    assert!(validate_token(&token, "secret-key", issued_at + TOKEN_VALIDITY_SECS - 1).is_ok());
}

#[test]
fn token_expires_at_window_end() {
    let user = sample_user();
    let issued_at: usize = 50_000;
    let token = create_jwt(&user, "secret-key", issued_at).unwrap();
    let at_expiry = validate_token(&token, "secret-key", issued_at + TOKEN_VALIDITY_SECS);
    assert_eq!(at_expiry.unwrap_err(), AuthError::Expired);
    let past_expiry = validate_token(&token, "secret-key", issued_at + TOKEN_VALIDITY_SECS + 999);
    assert_eq!(past_expiry.unwrap_err(), AuthError::Expired);
}

#[test]
fn wrong_secret_fails_with_bad_signature() {
    let user = sample_user();
    let token = create_jwt(&user, "secret-one", 1_000).unwrap();
    let r = validate_token(&token, "secret-two", 1_000);
    assert_eq!(r.unwrap_err(), AuthError::BadSignature);
}

#[test]
fn garbage_token_fails_as_malformed() {
    let r = validate_token("not-a-token", "secret-key", 1_000);
    assert_eq!(r.unwrap_err(), AuthError::Malformed);
    let r2 = validate_token("a.b.c", "secret-key", 1_000);
    assert_eq!(r2.unwrap_err(), AuthError::Malformed);
}
