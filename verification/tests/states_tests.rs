use cle_tracker::states::{ParseStateError, UsState};

#[test]
fn parses_uppercase_codes() {
    assert_eq!(UsState::from_str("CA").unwrap(), UsState::California);
    assert_eq!(UsState::from_str("MA").unwrap(), UsState::Massachusetts);
    assert_eq!(UsState::from_str("WY").unwrap(), UsState::Wyoming);
}

#[test]
fn parsing_accepts_any_letter_case() {
    assert_eq!(UsState::from_str("ca").unwrap(), UsState::California);
    assert_eq!(UsState::from_str("Ca").unwrap(), UsState::California);
    assert_eq!(UsState::from_str("tX").unwrap(), UsState::Texas);
}

#[test]
fn rejects_unknown_codes() {
    for bad in ["XX", "", "C", "CAL", "12", "ZZ"] {
        assert!(UsState::from_str(bad).is_err());
    }
}

#[test]
fn parse_error_message_is_fixed() {
    assert_eq!(ParseStateError.message(), "Invalid state code");
}

#[test]
fn every_code_round_trips() {
    let codes = [
        "AL", "AK", "AZ", "AR", "CA", "CO", "CT", "DE", "FL", "GA", "HI", "ID", "IL", "IN",
        "IA", "KS", "KY", "LA", "ME", "MD", "MA", "MI", "MN", "MS", "MO", "MT", "NE", "NV",
        "NH", "NJ", "NM", "NY", "NC", "ND", "OH", "OK", "OR", "PA", "RI", "SC", "SD", "TN",
        "TX", "UT", "VT", "VA", "WA", "WV", "WI", "WY",
    ];
    for code in codes {
        let state = UsState::from_str(code).unwrap();
        assert_eq!(state.code(), code);
        let lower = code.to_lowercase();
        assert_eq!(UsState::from_str(&lower).unwrap(), state);
    }
}
