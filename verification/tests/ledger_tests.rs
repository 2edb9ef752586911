use maya_core::ledger::{LedgerError, ReservationKind, ReservationStatus, UserHistory};

#[test]
fn append_to_empty_history_updates_total() {
    let mut h = UserHistory::new();
    let id = h.append_hotel_reservation(
        "Hotel Kin Ha".to_string(),
        2500,
        Some("2031-03-01".to_string()),
        Some("2031-03-05".to_string()),
        None,
        1_700_000_000_000,
    );
    assert_eq!(h.total_spent(), 2500);
    assert_eq!(h.len(), 1);
    let r = h.get(0);
    assert_eq!(r.id, id);
    assert_eq!(r.kind, ReservationKind::Hotel);
    assert_eq!(r.status, ReservationStatus::Confirmed);
    assert_eq!(r.total, 2500);
    assert_eq!(r.created_at_millis, 1_700_000_000_000);
}

#[test]
fn cancel_restores_total_and_marks_entry() {
    let mut h = UserHistory::new();
    let id = h.append_hotel_reservation("Hotel".to_string(), 2500, None, None, None, 0);
    assert_eq!(h.cancel(id), Ok(()));
    assert_eq!(h.total_spent(), 0);
    assert_eq!(h.len(), 1);
    assert_eq!(h.get(0).status, ReservationStatus::Cancelled);
}

#[test]
fn second_cancel_fails_without_double_decrement() {
    let mut h = UserHistory::new();
    let keep = h.append_restaurant_order("La Ceiba".to_string(), 700, None, 0);
    let id = h.append_experience_reservation("Tour".to_string(), 1200, 2, None, 0);
    assert_eq!(h.cancel(id), Ok(()));
    assert_eq!(h.total_spent(), 700);
    assert_eq!(h.cancel(id), Err(LedgerError::AlreadyCancelled));
    assert_eq!(h.total_spent(), 700);
    let _ = keep;
}

#[test]
fn cancel_unknown_id_is_not_found() {
    let mut h = UserHistory::new();
    h.append_restaurant_order("La Ceiba".to_string(), 700, None, 0);
    assert_eq!(h.cancel(999), Err(LedgerError::NotFound));
    assert_eq!(h.total_spent(), 700);
}

#[test]
fn many_appends_accumulate_total_with_distinct_ids() {
    let mut h = UserHistory::new();
    let mut ids = Vec::new();
    for i in 0..5u32 {
        let id = h.append_experience_reservation(format!("Tour {}", i), 10, 1, None, 0);
        ids.push(id);
    }
    assert_eq!(h.total_spent(), 50);
    assert_eq!(h.len(), 5);
    for i in 0..ids.len() {
        for j in (i + 1)..ids.len() {
            assert_ne!(ids[i], ids[j]);
        }
    }
}

#[test]
fn appends_across_kinds_share_one_total() {
    let mut h = UserHistory::new();
    h.append_hotel_reservation("Hotel".to_string(), 2500, None, None, None, 0);
    h.append_experience_reservation("Tour".to_string(), 1200, 4, Some("guide".to_string()), 0);
    h.append_restaurant_order(
        "Fogon".to_string(),
        800,
        Some(vec!["cochinita".to_string()]),
        0,
    );
    assert_eq!(h.total_spent(), 4500);
    assert_eq!(h.len(), 3);
    assert_eq!(h.get(1).kind, ReservationKind::Experience);
}
