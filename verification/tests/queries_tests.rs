use cle_tracker::hours::{RenewalDate, UpdateHoursRequest};
use cle_tracker::queries::{date_string, state_lookup_query, user_state_insert_query};
use cle_tracker::states::UsState;

#[test]
fn state_lookup_statement_is_exact() {
    assert_eq!(
        state_lookup_query(UsState::Texas),
        "SELECT id FROM state WHERE name = 'TX' LIMIT 1"
    );
    assert_eq!(
        state_lookup_query(UsState::Massachusetts),
        "SELECT id FROM state WHERE name = 'MA' LIMIT 1"
    );
}

#[test]
fn insert_statement_is_exact() {
    let due = RenewalDate::new(2025, 10, 29).unwrap();
    assert_eq!(
        user_state_insert_query(7, 3, 12, &due),
        "INSERT INTO user_state (user_id, state_id, hours_complete, renewal_date) \
         VALUES (7, 3, 12, '2025-10-29')"
    );
}

#[test]
fn insert_statement_renders_negative_ids() {
    let due = RenewalDate::new(1999, 1, 2).unwrap();
    assert_eq!(
        user_state_insert_query(-5, 30000, 0, &due),
        "INSERT INTO user_state (user_id, state_id, hours_complete, renewal_date) \
         VALUES (-5, 30000, 0, '1999-01-02')"
    );
}

#[test]
fn dates_are_zero_padded() {
    let d = RenewalDate::new(2024, 1, 5).unwrap();
    assert_eq!(date_string(&d), "2024-01-05");
    let d = RenewalDate::new(800, 12, 31).unwrap();
    assert_eq!(date_string(&d), "0800-12-31");
}

#[test]
fn renewal_date_accepts_only_calendar_dates() {
    assert!(RenewalDate::new(2024, 2, 29).is_some());
    assert!(RenewalDate::new(2023, 2, 29).is_none());
    assert!(RenewalDate::new(2000, 2, 29).is_some());
    assert!(RenewalDate::new(1900, 2, 29).is_none());
    assert!(RenewalDate::new(2024, 13, 1).is_none());
    assert!(RenewalDate::new(2024, 0, 1).is_none());
    assert!(RenewalDate::new(2024, 4, 31).is_none());
    assert!(RenewalDate::new(0, 1, 1).is_none());
    assert!(RenewalDate::new(10000, 1, 1).is_none());
}

#[test]
fn hour_updates_reject_negative_totals() {
    let bad = UpdateHoursRequest { state_id: "CA".to_string(), hours: -1 };
    let good = UpdateHoursRequest { state_id: "CA".to_string(), hours: 0 };
    assert!(!bad.validate());
    assert!(good.validate());
}
