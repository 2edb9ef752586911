//! Registration and login decisions: input validation, duplicate-email
//! rejection, password hashing on the way in and verification on the way
//! back.
//!
//! The persistence layer looks users up and inserts records; the functions
//! here take those lookup results as plain arguments and decide the outcome,
//! so every decision is verified whatever the store answered.

use vstd::prelude::*;
use crate::credentials::{digest_of, hash_password, verify_password};
use crate::models::{LoginRequest, RegisterRequest, User, UserInfo};

verus! {

/// Which input field was rejected; the checks run in field order.
#[derive(Debug, Clone, Copy, PartialEq, Eq, Structural)]
pub enum ValidationError {
    FirstName,
    LastName,
    Email,
    Password,
}

#[derive(Debug, Clone, Copy, PartialEq, Eq, Structural)]
pub enum RegisterError {
    Invalid(ValidationError),
    EmailTaken,
}

#[derive(Debug, Clone, Copy, PartialEq, Eq, Structural)]
pub enum LoginError {
    Invalid(ValidationError),
    BadCredentials,
}

/// Whether a string is a valid e-mail address, as the validator crate
/// decides it: a function of the characters alone.
pub uninterp spec fn is_valid_email(s: Seq<char>) -> bool;

/// Relies on validator's `ValidateEmail` implementation for `str`: a pure
/// check of the string against the HTML5 e-mail shape.
#[verifier::external_body]
fn check_email(s: &str) -> (r: bool)
    ensures
        r == is_valid_email(s@),
{
    validator::ValidateEmail::validate_email(&s)
}

/// The verdict of registration input validation, field by field: names of 2
/// to 50 characters, a valid e-mail, a password of at least 6 characters.
pub open spec fn register_verdict(req: RegisterRequest) -> Result<(), ValidationError> {
    if !(2 <= req.first_name@.len() <= 50) {
        Err(ValidationError::FirstName)
    } else if !(2 <= req.last_name@.len() <= 50) {
        Err(ValidationError::LastName)
    } else if !is_valid_email(req.email@) {
        Err(ValidationError::Email)
    } else if req.password@.len() < 6 {
        Err(ValidationError::Password)
    } else {
        Ok(())
    }
}

/// The verdict of login input validation: a valid e-mail and a non-empty
/// password.
pub open spec fn login_verdict(req: LoginRequest) -> Result<(), ValidationError> {
    if !is_valid_email(req.email@) {
        Err(ValidationError::Email)
    } else if req.password@.len() < 1 {
        Err(ValidationError::Password)
    } else {
        Ok(())
    }
}

/// Validate registration input; returns exactly the field-order verdict.
pub fn validate_register(req: &RegisterRequest) -> (r: Result<(), ValidationError>)
    ensures
        r == register_verdict(*req),
{
    let first_len = req.first_name.as_str().unicode_len();
    if first_len < 2 || first_len > 50 {
        return Err(ValidationError::FirstName);
    }
    let last_len = req.last_name.as_str().unicode_len();
    if last_len < 2 || last_len > 50 {
        return Err(ValidationError::LastName);
    }
    if !check_email(req.email.as_str()) {
        return Err(ValidationError::Email);
    }
    if req.password.as_str().unicode_len() < 6 {
        return Err(ValidationError::Password);
    }
    Ok(())
}

/// Validate login input; returns exactly the field-order verdict.
pub fn validate_login(req: &LoginRequest) -> (r: Result<(), ValidationError>)
    ensures
        r == login_verdict(*req),
{
    if !check_email(req.email.as_str()) {
        return Err(ValidationError::Email);
    }
    if req.password.as_str().unicode_len() < 1 {
        return Err(ValidationError::Password);
    }
    Ok(())
}

/// A user record ready for insertion: the password hashed, the customer role
/// stamped.
#[derive(Debug, Clone)]
pub struct NewUser {
    pub first_name: String,
    pub last_name: String,
    pub email: String,
    pub password_hash: String,
    pub user_type: String,
}

pub open spec fn customer_role() -> Seq<char> {
    seq!['c', 'u', 's', 't', 'o', 'm', 'e', 'r']
}

/// Decide a registration attempt given whether the e-mail is already taken:
/// invalid input is rejected field by field, a taken e-mail is a conflict,
/// and otherwise the record to insert is handed back with the password
/// hashed and the customer role.
pub fn prepare_registration(req: &RegisterRequest, email_taken: bool) -> (r: Result<
    NewUser,
    RegisterError,
>)
    ensures
        r is Ok <==> (register_verdict(*req) is Ok && !email_taken),
        match r {
            Ok(nu) => {
                &&& nu.first_name@ == req.first_name@
                &&& nu.last_name@ == req.last_name@
                &&& nu.email@ == req.email@
                &&& nu.password_hash@ == digest_of(req.password@)
                &&& nu.user_type@ == customer_role()
            },
            Err(RegisterError::Invalid(e)) => register_verdict(*req) == Err::<
                (),
                ValidationError,
            >(e),
            Err(RegisterError::EmailTaken) => register_verdict(*req) is Ok && email_taken,
        },
{
    match validate_register(req) {
        Err(e) => {
            return Err(RegisterError::Invalid(e));
        },
        Ok(()) => {},
    }
    if email_taken {
        return Err(RegisterError::EmailTaken);
    }
    let user_type = String::from_str("customer");
    proof {
        reveal_strlit("customer");
        assert(user_type@ =~= customer_role());
    }
    Ok(
        NewUser {
            first_name: req.first_name.clone(),
            last_name: req.last_name.clone(),
            email: req.email.clone(),
            password_hash: hash_password(req.password.as_str()),
            user_type,
        },
    )
}

/// Decide a login attempt given the user record found for the e-mail, if
/// any. Success requires a found user whose stored hash is exactly the hash
/// of the presented password; a missing user and a wrong password yield the
/// same error, so the outcome does not leak which one failed.
pub fn login_decide(req: &LoginRequest, user: Option<&User>) -> (r: Result<UserInfo, LoginError>)
    ensures
        r is Ok <==> (login_verdict(*req) is Ok && user is Some && digest_of(req.password@)
            == user->Some_0.password_hash@),
        match r {
            Ok(info) => {
                &&& user is Some
                &&& info.id == user->Some_0.id
                &&& info.first_name@ == user->Some_0.first_name@
                &&& info.last_name@ == user->Some_0.last_name@
                &&& info.email@ == user->Some_0.email@
                &&& info.user_type@ == user->Some_0.user_type@
            },
            Err(LoginError::Invalid(e)) => login_verdict(*req) == Err::<(), ValidationError>(e),
            Err(LoginError::BadCredentials) => login_verdict(*req) is Ok && (user is None
                || digest_of(req.password@) != user->Some_0.password_hash@),
        },
{
    match validate_login(req) {
        Err(e) => {
            return Err(LoginError::Invalid(e));
        },
        Ok(()) => {},
    }
    match user {
        None => Err(LoginError::BadCredentials),
        Some(u) => {
            if verify_password(req.password.as_str(), u.password_hash.as_str()) {
                Ok(
                    UserInfo {
                        id: u.id,
                        first_name: u.first_name.clone(),
                        last_name: u.last_name.clone(),
                        email: u.email.clone(),
                        user_type: u.user_type.clone(),
                    },
                )
            } else {
                Err(LoginError::BadCredentials)
            }
        },
    }
}

} // verus!
