use vol_limiter::percent::{parse_u8_str, percent_input_ok, u8_to_string};

#[test]
fn parse_simple_values() {
    assert_eq!(parse_u8_str("0"), Some(0));
    assert_eq!(parse_u8_str("20"), Some(20));
    assert_eq!(parse_u8_str("100"), Some(100));
    assert_eq!(parse_u8_str("255"), Some(255));
}

#[test]
fn parse_accepts_plus_and_leading_zeros() {
    assert_eq!(parse_u8_str("+7"), Some(7));
    assert_eq!(parse_u8_str("007"), Some(7));
    assert_eq!(parse_u8_str("+042"), Some(42));
}

#[test]
fn parse_rejects_empty_and_garbage() {
    assert_eq!(parse_u8_str(""), None);
    assert_eq!(parse_u8_str("+"), None);
    assert_eq!(parse_u8_str("12a"), None);
    assert_eq!(parse_u8_str("-3"), None);
    assert_eq!(parse_u8_str(" 5"), None);
    assert_eq!(parse_u8_str("5 "), None);
}

#[test]
fn parse_rejects_overflow() {
    assert_eq!(parse_u8_str("256"), None);
    assert_eq!(parse_u8_str("999"), None);
    assert_eq!(parse_u8_str("1000000000000"), None);
}

#[test]
fn parse_matches_std() {
    for s in ["0", "1", "99", "100", "101", "255", "256", "+13", "08", "", "x", "2 0"] {
        assert_eq!(parse_u8_str(s), s.parse::<u8>().ok(), "input {:?}", s);
    }
}

#[test]
fn render_matches_std() {
    for v in [0u8, 1, 7, 9, 10, 42, 99, 100, 101, 200, 255] {
        assert_eq!(u8_to_string(v), v.to_string());
    }
}

#[test]
fn render_parse_round_trip_every_byte() {
    for v in 0..=255u8 {
        assert_eq!(parse_u8_str(&u8_to_string(v)), Some(v));
    }
}

#[test]
fn percent_input_bounds() {
    assert!(percent_input_ok("0"));
    assert!(percent_input_ok("100"));
    assert!(!percent_input_ok("101"));
    assert!(!percent_input_ok("255"));
    assert!(!percent_input_ok(""));
    assert!(!percent_input_ok("abc"));
}
