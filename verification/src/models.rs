//! Data model: users, request and response shapes, token claims, and the
//! booking request with its field validation.

use vstd::prelude::*;

verus! {

/// A stored user record. Timestamps are kept as milliseconds since the epoch;
/// the persistence layer owns them and the core only reads them.
#[derive(Debug, Clone)]
pub struct User {
    pub id: i32,
    pub first_name: String,
    pub last_name: String,
    pub email: String,
    pub password_hash: String,
    pub user_type: String,
    pub created_at_millis: u64,
    pub updated_at_millis: Option<u64>,
}

/// User information for responses: never carries the password hash.
#[derive(Debug, Clone)]
pub struct UserInfo {
    pub id: i32,
    pub first_name: String,
    pub last_name: String,
    pub email: String,
    pub user_type: String,
}

/// Registration input.
#[derive(Debug)]
pub struct RegisterRequest {
    pub first_name: String,
    pub last_name: String,
    pub email: String,
    pub password: String,
}

/// Login input.
#[derive(Debug)]
pub struct LoginRequest {
    pub email: String,
    pub password: String,
}

/// Successful authentication response.
#[derive(Debug)]
pub struct AuthResponse {
    pub message: String,
    pub token: String,
    pub user: UserInfo,
}

/// The signed payload embedded in a session token.
#[derive(Debug, Clone)]
pub struct JwtClaims {
    pub user_id: i32,
    pub email: String,
    pub user_type: String,
    pub exp: usize,
}

/// A calendar date as plain fields; ordered lexicographically by year, month,
/// day.
#[derive(Debug, Clone, Copy, PartialEq, Eq, Structural)]
pub struct Date {
    pub year: i32,
    pub month: u32,
    pub day: u32,
}

pub open spec fn date_lt(a: Date, b: Date) -> bool {
    ||| a.year < b.year
    ||| (a.year == b.year && a.month < b.month)
    ||| (a.year == b.year && a.month == b.month && a.day < b.day)
}

/// A request to book a hotel stay.
#[derive(Debug)]
pub struct CreateBookingRequest {
    pub hotel_id: i32,
    pub check_in: Date,
    pub check_out: Date,
    pub guests: i32,
    pub rooms: i32,
    pub special_requests: Option<String>,
    pub addon_services: Option<Vec<String>>,
}

/// A request to change a booking's status.
#[derive(Debug)]
pub struct UpdateBookingStatusRequest {
    pub status: Option<String>,
    pub cancellation_reason: Option<String>,
}

/// Why a booking request was rejected; the checks run in this order.
#[derive(Debug, Clone, Copy, PartialEq, Eq, Structural)]
pub enum BookingError {
    CheckInNotFuture,
    CheckOutNotAfterCheckIn,
    GuestsOutOfRange,
    RoomsOutOfRange,
}

/// True exactly when `date` lies strictly after `today`.
pub fn validate_future_date(date: &Date, today: &Date) -> (r: bool)
    ensures
        r == date_lt(*today, *date),
{
    date_before(today, date)
}

/// True exactly when `checkout` lies strictly after `checkin`.
pub fn validate_checkout_after_checkin(checkout: &Date, checkin: &Date) -> (r: bool)
    ensures
        r == date_lt(*checkin, *checkout),
{
    date_before(checkin, checkout)
}

fn date_before(a: &Date, b: &Date) -> (r: bool)
    ensures
        r == date_lt(*a, *b),
{
    if a.year != b.year {
        a.year < b.year
    } else if a.month != b.month {
        a.month < b.month
    } else {
        a.day < b.day
    }
}

/// Whether a booking request is acceptable given today's date.
pub open spec fn valid_booking(req: CreateBookingRequest, today: Date) -> bool {
    &&& date_lt(today, req.check_in)
    &&& date_lt(req.check_in, req.check_out)
    &&& 1 <= req.guests <= 10
    &&& 1 <= req.rooms <= 5
}

/// Validate a booking request: the check-in must be in the future, the
/// check-out after the check-in, and guests and rooms within their ranges,
/// checked in that order.
pub fn validate_booking(req: &CreateBookingRequest, today: &Date) -> (r: Result<(), BookingError>)
    ensures
        r is Ok <==> valid_booking(*req, *today),
        match r {
            Ok(()) => valid_booking(*req, *today),
            Err(BookingError::CheckInNotFuture) => !date_lt(*today, req.check_in),
            Err(BookingError::CheckOutNotAfterCheckIn) => date_lt(*today, req.check_in)
                && !date_lt(req.check_in, req.check_out),
            Err(BookingError::GuestsOutOfRange) => date_lt(*today, req.check_in) && date_lt(
                req.check_in,
                req.check_out,
            ) && !(1 <= req.guests <= 10),
            Err(BookingError::RoomsOutOfRange) => date_lt(*today, req.check_in) && date_lt(
                req.check_in,
                req.check_out,
            ) && 1 <= req.guests <= 10 && !(1 <= req.rooms <= 5),
        },
{
    if !validate_future_date(&req.check_in, today) {
        Err(BookingError::CheckInNotFuture)
    } else if !validate_checkout_after_checkin(&req.check_out, &req.check_in) {
        Err(BookingError::CheckOutNotAfterCheckIn)
    } else if req.guests < 1 || req.guests > 10 {
        Err(BookingError::GuestsOutOfRange)
    } else if req.rooms < 1 || req.rooms > 5 {
        Err(BookingError::RoomsOutOfRange)
    } else {
        Ok(())
    }
}

} // verus!
