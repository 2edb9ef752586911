use maya_core::catalog::{find_product, Product};
use maya_core::models::{
    validate_booking, validate_checkout_after_checkin, validate_future_date, BookingError,
    CreateBookingRequest, Date,
};

fn date(year: i32, month: u32, day: u32) -> Date {
    Date { year, month, day }
}

fn booking() -> CreateBookingRequest {
    CreateBookingRequest {
        hotel_id: 1,
        check_in: date(2031, 3, 1),
        check_out: date(2031, 3, 5),
        guests: 2,
        rooms: 1,
        special_requests: None,
        addon_services: None,
    }
}

#[test]
fn future_date_check_is_strict() {
    let today = date(2030, 6, 15);
    assert!(validate_future_date(&date(2030, 6, 16), &today));
    assert!(validate_future_date(&date(2030, 7, 1), &today));
    assert!(validate_future_date(&date(2031, 1, 1), &today));
    assert!(!validate_future_date(&today, &today));
    assert!(!validate_future_date(&date(2030, 6, 14), &today));
    assert!(!validate_future_date(&date(2029, 12, 31), &today));
}

#[test]
fn checkout_must_follow_checkin() {
    let checkin = date(2031, 3, 1);
    assert!(validate_checkout_after_checkin(&date(2031, 3, 2), &checkin));
    assert!(!validate_checkout_after_checkin(&checkin, &checkin));
    assert!(!validate_checkout_after_checkin(&date(2031, 2, 28), &checkin));
}

#[test]
fn valid_booking_is_accepted() {
    assert_eq!(validate_booking(&booking(), &date(2030, 6, 15)), Ok(()));
}

#[test]
fn booking_rejections_come_in_order() {
    let today = date(2030, 6, 15);

    let mut b = booking();
    b.check_in = date(2030, 6, 15);
    assert_eq!(validate_booking(&b, &today), Err(BookingError::CheckInNotFuture));

    let mut b = booking();
    b.check_out = b.check_in;
    assert_eq!(validate_booking(&b, &today), Err(BookingError::CheckOutNotAfterCheckIn));

    let mut b = booking();
    b.guests = 11;
    assert_eq!(validate_booking(&b, &today), Err(BookingError::GuestsOutOfRange));
    b.guests = 0;
    assert_eq!(validate_booking(&b, &today), Err(BookingError::GuestsOutOfRange));

    let mut b = booking();
    b.rooms = 6;
    assert_eq!(validate_booking(&b, &today), Err(BookingError::RoomsOutOfRange));
    b.rooms = 0;
    assert_eq!(validate_booking(&b, &today), Err(BookingError::RoomsOutOfRange));
}

fn product(id: u32, name: &str) -> Product {
    Product {
        id,
        name: name.to_string(),
        artisan: "Elena Poot".to_string(),
        price: 1800,
        category: "textil".to_string(),
        img: "huipil.jpg".to_string(),
        desc: "Tejido a mano".to_string(),
    }
}

#[test]
fn find_product_returns_match_or_none() {
    let products = vec![product(1, "Huipil"), product(2, "Vasija"), product(3, "Aretes")];
    let found = find_product(&products, 2).unwrap();
    assert_eq!(found.name, "Vasija");
    assert!(find_product(&products, 4).is_none());
}
