use server_assistant::timestamp::{civil_to_millis, parse_timestamp};

#[test]
fn encodes_known_instant_exactly() {
    // 2024-01-15 is 19737 days after the Unix epoch; the encoding places the
    // Unix epoch at day 865565, so the date is day 885302.
    let t = civil_to_millis(2024, 1, 15, 10, 30, 0, 123).unwrap();
    assert_eq!(t, (885_302u64 * 86_400 + 10 * 3600 + 30 * 60) * 1000 + 123);
}

#[test]
fn encodes_unix_epoch_day() {
    let t = civil_to_millis(1970, 1, 1, 0, 0, 0, 0).unwrap();
    assert_eq!(t, 865_565u64 * 86_400_000);
}

#[test]
fn later_instants_encode_larger() {
    let a = civil_to_millis(2024, 2, 29, 23, 59, 59, 999).unwrap();
    let b = civil_to_millis(2024, 3, 1, 0, 0, 0, 0).unwrap();
    assert_eq!(b - a, 1);
    let c = civil_to_millis(2024, 12, 31, 23, 59, 59, 999).unwrap();
    let d = civil_to_millis(2025, 1, 1, 0, 0, 0, 0).unwrap();
    assert_eq!(d - c, 1);
}

#[test]
fn accepts_leap_day_of_leap_years_only() {
    assert!(civil_to_millis(2024, 2, 29, 0, 0, 0, 0).is_some());
    assert!(civil_to_millis(2000, 2, 29, 0, 0, 0, 0).is_some());
    assert!(civil_to_millis(2023, 2, 29, 0, 0, 0, 0).is_none());
    assert!(civil_to_millis(1900, 2, 29, 0, 0, 0, 0).is_none());
}

#[test]
fn rejects_field_values_denoting_no_instant() {
    assert!(civil_to_millis(2024, 2, 30, 0, 0, 0, 0).is_none());
    assert!(civil_to_millis(2024, 13, 1, 0, 0, 0, 0).is_none());
    assert!(civil_to_millis(2024, 0, 1, 0, 0, 0, 0).is_none());
    assert!(civil_to_millis(2024, 1, 0, 0, 0, 0, 0).is_none());
    assert!(civil_to_millis(2024, 1, 1, 24, 0, 0, 0).is_none());
    assert!(civil_to_millis(2024, 1, 1, 0, 60, 0, 0).is_none());
    assert!(civil_to_millis(2024, 1, 1, 0, 0, 60, 0).is_none());
    assert!(civil_to_millis(2024, 1, 1, 0, 0, 0, 1000).is_none());
    assert!(civil_to_millis(10000, 1, 1, 0, 0, 0, 0).is_none());
}

#[test]
fn encodes_the_largest_and_smallest_denotable_instants() {
    let top = civil_to_millis(9999, 12, 31, 23, 59, 59, 999).unwrap();
    let bottom = civil_to_millis(0, 1, 1, 0, 0, 0, 0).unwrap();
    assert!(bottom < top);
    assert!(civil_to_millis(0, 2, 29, 0, 0, 0, 0).is_some());
}

#[test]
fn parses_timestamp_text_exactly() {
    let t = parse_timestamp(&b"2024-01-15 10:30:00.123".to_vec()).unwrap();
    assert_eq!(t, civil_to_millis(2024, 1, 15, 10, 30, 0, 123).unwrap());
}

#[test]
fn rejects_malformed_timestamp_text() {
    assert!(parse_timestamp(&b"2024-01-15 10:30:00".to_vec()).is_none());
    assert!(parse_timestamp(&b"2024-01-15T10:30:00.123".to_vec()).is_none());
    assert!(parse_timestamp(&b"2024-1-15 10:30:00.123".to_vec()).is_none());
    assert!(parse_timestamp(&b"2024-01-15 10:30:00.12x".to_vec()).is_none());
    assert!(parse_timestamp(&b"2024-01-15 10:30:00.1234".to_vec()).is_none());
    assert!(parse_timestamp(&b"".to_vec()).is_none());
}
