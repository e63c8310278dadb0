use sdkwork_order::calendar::{civil_from_days, format_unix_timestamp};
use sdkwork_order::clock::{current_query_timestamp, rfc3339_after_payment_window};

#[test]
fn unix_timestamps_format_as_utc_civil_time() {
    assert_eq!(format_unix_timestamp(0), "1970-01-01 00:00:00");
    assert_eq!(format_unix_timestamp(86_399), "1970-01-01 23:59:59");
    assert_eq!(format_unix_timestamp(951_782_400), "2000-02-29 00:00:00");
    assert_eq!(format_unix_timestamp(1_700_000_000), "2023-11-14 22:13:20");
    assert_eq!(format_unix_timestamp(-1), "1969-12-31 23:59:59");
    assert_eq!(format_unix_timestamp(-62_167_219_200), "0000-01-01 00:00:00");
    assert_eq!(format_unix_timestamp(-62_167_219_201), "-001-12-31 23:59:59");
    assert_eq!(format_unix_timestamp(253_402_300_800), "10000-01-01 00:00:00");
    assert_eq!(format_unix_timestamp(-1), format!("{:04}-12-31 23:59:59", 1969));
    assert_eq!(format!("{:04}", -1), "-001");
}

#[test]
fn day_numbers_map_to_civil_dates() {
    assert_eq!(civil_from_days(0), (1970, 1, 1));
    assert_eq!(civil_from_days(-719_468), (0, 3, 1));
    assert_eq!(civil_from_days(11_016), (2000, 2, 29));
    assert_eq!(civil_from_days(-1), (1969, 12, 31));
    assert_eq!(civil_from_days(59), (1970, 3, 1));
}

#[test]
fn query_timestamps_have_the_civil_shape() {
    let now = current_query_timestamp();
    assert_eq!(now.len(), 19);
    assert_eq!(&now[4..5], "-");
    assert_eq!(&now[10..11], " ");
    assert_eq!(&now[13..14], ":");
}

#[test]
fn account_value_expiry_is_the_payment_window_after_creation() {
    assert_eq!(
        rfc3339_after_payment_window("2024-01-01T00:00:00Z", 1800).as_deref(),
        Some("2024-01-01T00:30:00.000Z")
    );
    assert_eq!(
        rfc3339_after_payment_window("2024-01-01T08:00:00.25+08:00", 60).as_deref(),
        Some("2024-01-01T00:01:00.250Z")
    );
    let fallback = rfc3339_after_payment_window("not a time", 1800).unwrap();
    assert!(fallback.ends_with('Z'));
    assert_eq!(fallback.len(), 24);
    assert_eq!(rfc3339_after_payment_window("2024-01-01T00:00:00Z", i64::MAX), None);
}

#[test]
fn the_clock_reads_as_a_unix_instant() {
    let (seconds, nanos) = sdkwork_order::clock::clock_instant();
    assert!(seconds > 1_600_000_000);
    assert!(nanos < 1_000_000_000);
}
