use sdkwork_order::error::ErrorKind;
use sdkwork_order::money::{
    checkout_points, compute_grant_amount, decimal_sql_match_keys, decimal_to_scaled_i128,
    format_money_minor, minor_units_to_major_decimal, money_cents, multiply_money_amount,
    normalize_decimal_string, normalize_money_minor_units, normalize_stored_money,
    round_divide_i128, sum_money_amounts, build_recharge_preview_examples, RechargeSettingsModel,
};

#[test]
fn normalizes_legacy_major_unit_decimals_to_minor_units() {
    assert_eq!(normalize_stored_money("0.00").unwrap(), "0");
    assert_eq!(normalize_stored_money("12.30").unwrap(), "1230");
    assert_eq!(normalize_stored_money("12.3").unwrap(), "1230");
    assert_eq!(normalize_stored_money("640.00").unwrap(), "64000");
    assert_eq!(normalize_stored_money("64000").unwrap(), "64000");
}

#[test]
fn stored_money_with_an_empty_fraction_is_whole_major_units() {
    assert_eq!(normalize_stored_money("12.").unwrap(), "1200");
    assert_eq!(normalize_stored_money("0.").unwrap(), "0");
    assert_eq!(normalize_stored_money(" 7 ").unwrap(), "7");
    assert!(normalize_stored_money(".").is_err());
    assert!(normalize_stored_money(".5").is_err());
}

#[test]
fn rejects_truly_invalid_stored_money_values() {
    assert!(normalize_stored_money("-100").is_err());
    assert!(normalize_stored_money("12.345").is_err());
    assert!(normalize_stored_money("1,000").is_err());
    assert!(normalize_stored_money("").is_err());
    assert!(normalize_stored_money("abc").is_err());
}

#[test]
fn computes_minor_unit_totals_without_major_unit_conversion() {
    assert_eq!(multiply_money_amount(6990, 2).unwrap(), "13980");
    assert_eq!(sum_money_amounts(&vec![6990, 6990]).unwrap(), "13980");
}

#[test]
fn rejects_decimal_and_overflowing_minor_unit_amounts() {
    assert_eq!(multiply_money_amount(i64::MAX, 2).unwrap_err().kind, ErrorKind::Validation);
    assert_eq!(multiply_money_amount(100, 0).unwrap_err().kind, ErrorKind::Validation);
    assert_eq!(sum_money_amounts(&vec![i64::MAX, 1]).unwrap_err().kind, ErrorKind::Validation);
}

fn settings() -> RechargeSettingsModel {
    RechargeSettingsModel {
        base_currency_code: "CNY".to_string(),
        base_points_per_cny: "10".to_string(),
        currency_to_cny_rates: vec![
            ("CNY".to_string(), "1".to_string()),
            ("USD".to_string(), "7.5".to_string()),
        ],
    }
}

#[test]
fn postgres_recharge_points_math_uses_currency_rate_and_bonus() {
    assert_eq!(compute_grant_amount("12.00", "CNY", 30, &settings()).unwrap(), 150);
    assert_eq!(compute_grant_amount("20.00", "USD", 50, &settings()).unwrap(), 1550);
}

#[test]
fn grant_amounts_round_half_away_and_reject_bad_input() {
    // Unknown currencies use the base rate.
    assert_eq!(compute_grant_amount("1.00", "JPY", 0, &settings()).unwrap(), 10);
    assert_eq!(compute_grant_amount("0.05", "CNY", 0, &settings()).unwrap(), 1);
    assert_eq!(compute_grant_amount("0.00", "CNY", 0, &settings()).unwrap_err().kind, ErrorKind::Validation);
    assert_eq!(compute_grant_amount("abc", "CNY", 0, &settings()).unwrap_err().kind, ErrorKind::Storage);
}

#[test]
fn postgres_recharge_money_helpers_keep_minor_unit_contract() {
    assert_eq!(normalize_money_minor_units("12.00").unwrap(), "1200");
    assert_eq!(normalize_money_minor_units("1200").unwrap(), "1200");
    assert_eq!(minor_units_to_major_decimal("1200").unwrap(), "12.00");
    let keys = decimal_sql_match_keys("1200");
    assert_eq!(keys.compact, "12");
    assert_eq!(keys.one_decimal, "12.0");
}

#[test]
fn money_text_helpers() {
    assert_eq!(money_cents("12.5").unwrap(), 1250);
    assert_eq!(money_cents("-1.25").unwrap(), -75);
    assert!(money_cents("1.2.3").is_err());
    assert_eq!(format_money_minor(5), "0.05");
    assert_eq!(format_money_minor(-1234), "-12.34");
    assert_eq!(normalize_decimal_string("7.50"), "7.5");
    assert_eq!(normalize_decimal_string("10.00"), "10");
    assert_eq!(decimal_to_scaled_i128("1.5", 2).unwrap(), 150);
    assert!(decimal_to_scaled_i128("1.555", 2).is_err());
    assert_eq!(round_divide_i128(15, 10), 2);
    assert_eq!(round_divide_i128(-15, 10), -2);
    assert_eq!(round_divide_i128(14, 10), 1);
    assert_eq!(checkout_points(" 42 ").unwrap(), 42);
    assert!(checkout_points("-1").is_err());
    assert!(normalize_money_minor_units("-5").is_err());
}

#[test]
fn recharge_previews_cover_every_currency_and_amount() {
    let previews = build_recharge_preview_examples(&settings()).unwrap();
    assert_eq!(previews.len(), 2);
    assert_eq!(previews[0].0, "CNY");
    assert_eq!(previews[0].1.len(), 9);
    assert_eq!(previews[0].1[0], ("5".to_string(), 50));
    assert_eq!(previews[0].1[8], ("1000".to_string(), 10000));
    assert_eq!(previews[1].0, "USD");
    assert_eq!(previews[1].1[0], ("5".to_string(), 375));
    let broken = RechargeSettingsModel {
        base_currency_code: "CNY".to_string(),
        base_points_per_cny: "ten".to_string(),
        currency_to_cny_rates: vec![("CNY".to_string(), "1".to_string())],
    };
    assert_eq!(build_recharge_preview_examples(&broken).unwrap_err().kind, ErrorKind::Storage);
}

#[test]
fn minor_units_survive_a_major_unit_round_trip() {
    for cents in [0i64, 5, 99, 100, 1230, 64000, 123456789] {
        let major = format_money_minor(cents);
        assert_eq!(normalize_money_minor_units(&major).unwrap(), cents.to_string());
        assert_eq!(money_cents(&major).unwrap(), cents);
    }
    let major = minor_units_to_major_decimal("1200").unwrap();
    assert_eq!(normalize_money_minor_units(&major).unwrap(), "1200");
    assert_eq!(normalize_money_minor_units("-12.34").unwrap(), "-1166");
}

#[test]
fn canonical_minor_unit_texts_come_back_unchanged() {
    for text in ["0", "5", "99", "1200", "64000", "9223372036854775807"] {
        let major = minor_units_to_major_decimal(text).unwrap();
        assert_eq!(normalize_money_minor_units(&major).unwrap(), text);
    }
    assert_eq!(minor_units_to_major_decimal("5").unwrap(), "0.05");
    assert_eq!(minor_units_to_major_decimal("0").unwrap(), "0.00");
}

#[test]
fn refused_stored_money_names_the_offending_value() {
    let error = normalize_stored_money(" 1,000 ").unwrap_err();
    assert_eq!(error.kind, ErrorKind::Storage);
    assert_eq!(error.message, "invalid stored money amount: \"1,000\"");
}
