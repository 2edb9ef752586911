use maya_core::account::{
    login_decide, prepare_registration, validate_login, validate_register, LoginError,
    RegisterError, ValidationError,
};
use maya_core::models::{LoginRequest, RegisterRequest, User};
use maya_core::token::{create_jwt, validate_token};

fn register_request() -> RegisterRequest {
    RegisterRequest {
        first_name: "Ana".to_string(),
        last_name: "Poot".to_string(),
        email: "a@x.com".to_string(),
        password: "secret1".to_string(),
    }
}

fn stored_user(password_hash: String) -> User {
    User {
        id: 7,
        first_name: "Ana".to_string(),
        last_name: "Poot".to_string(),
        email: "a@x.com".to_string(),
        password_hash,
        user_type: "customer".to_string(),
        created_at_millis: 0,
        updated_at_millis: None,
    }
}

#[test]
fn valid_registration_passes_validation() {
    assert_eq!(validate_register(&register_request()), Ok(()));
}

#[test]
fn registration_field_errors_come_in_order() {
    let mut r = register_request();
    r.first_name = "A".to_string();
    assert_eq!(validate_register(&r), Err(ValidationError::FirstName));

    let mut r = register_request();
    r.last_name = "P".to_string();
    assert_eq!(validate_register(&r), Err(ValidationError::LastName));

    let mut r = register_request();
    r.email = "not-an-email".to_string();
    assert_eq!(validate_register(&r), Err(ValidationError::Email));

    let mut r = register_request();
    r.password = "short".to_string();
    assert_eq!(validate_register(&r), Err(ValidationError::Password));
}

#[test]
fn login_validation_checks_email_then_password() {
    let bad_email = LoginRequest { email: "nope".to_string(), password: "x".to_string() };
    assert_eq!(validate_login(&bad_email), Err(ValidationError::Email));
    let empty_password = LoginRequest { email: "a@x.com".to_string(), password: "".to_string() };
    assert_eq!(validate_login(&empty_password), Err(ValidationError::Password));
    let fine = LoginRequest { email: "a@x.com".to_string(), password: "x".to_string() };
    assert_eq!(validate_login(&fine), Ok(()));
}

#[test]
fn registration_rejects_taken_email() {
    let r = prepare_registration(&register_request(), true);
    assert_eq!(r.unwrap_err(), RegisterError::EmailTaken);
}

#[test]
fn registration_rejects_invalid_input_before_conflict() {
    let mut req = register_request();
    req.password = "short".to_string();
    let r = prepare_registration(&req, true);
    assert_eq!(r.unwrap_err(), RegisterError::Invalid(ValidationError::Password));
}

#[test]
fn registration_hashes_password_and_stamps_role() {
    let nu = prepare_registration(&register_request(), false).unwrap();
    assert_eq!(nu.first_name, "Ana");
    assert_eq!(nu.email, "a@x.com");
    assert_eq!(nu.user_type, "customer");
    assert_ne!(nu.password_hash, "secret1");
    assert_eq!(nu.password_hash, maya_core::credentials::hash_password("secret1"));
}

#[test]
fn login_against_missing_user_fails() {
    let req = LoginRequest { email: "a@x.com".to_string(), password: "secret1".to_string() };
    assert_eq!(login_decide(&req, None).unwrap_err(), LoginError::BadCredentials);
}

#[test]
fn login_with_wrong_password_fails_like_missing_user() {
    let nu = prepare_registration(&register_request(), false).unwrap();
    let user = stored_user(nu.password_hash);
    let req = LoginRequest { email: "a@x.com".to_string(), password: "wrong1".to_string() };
    assert_eq!(login_decide(&req, Some(&user)).unwrap_err(), LoginError::BadCredentials);
}

#[test]
fn register_then_login_roundtrip_yields_matching_token() {
    let nu = prepare_registration(&register_request(), false).unwrap();
    let user = stored_user(nu.password_hash);

    let req = LoginRequest { email: "a@x.com".to_string(), password: "secret1".to_string() };
    let info = login_decide(&req, Some(&user)).unwrap();
    assert_eq!(info.id, 7);
    assert_eq!(info.email, "a@x.com");

    let token = create_jwt(&info, "secret-key", 1_000).unwrap();
    let claims = validate_token(&token, "secret-key", 1_000).unwrap();
    assert_eq!(claims.user_id, 7);
    assert_eq!(claims.email, "a@x.com");

    let wrong = LoginRequest { email: "a@x.com".to_string(), password: "wrong".to_string() };
    assert!(login_decide(&wrong, Some(&user)).is_err());
}
