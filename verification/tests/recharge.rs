use sdkwork_order::error::ErrorKind;
use sdkwork_order::json::JsonMember;
use sdkwork_order::recharge::{
    checkout_effective_payment_status, checkout_effective_recharge_status, checkout_next_action,
    checkout_status_label, checkout_status_labels, default_currency_to_cny_rates,
    ensure_command_matches_package, missing_checkout_status_error, normalize_method_key,
    order_status_label, parse_coupon_benefit_snapshot, payment_status_label,
    recharge_payment_product, recharge_settings_from_row, related_status_cell,
    required_non_negative_integer_cell,
    required_json_integer, required_json_text, required_status_cell, CommercePaymentStatus,
    coupon_benefit_from_members, required_member_integer, required_member_text,
    CouponRedemptionBenefit, CouponSnapshotMembers, LOAD_CHECKOUT_STATUS, LOAD_POINTS_RECHARGE_FULFILLMENT_CONTEXT,
    LOAD_REUSABLE_RECHARGE_CHECKOUT,
};

#[test]
fn postgres_checkout_queries_project_payment_amounts_as_minor_unit_text() {
    for query in [
        LOAD_CHECKOUT_STATUS,
        LOAD_POINTS_RECHARGE_FULFILLMENT_CONTEXT,
        LOAD_REUSABLE_RECHARGE_CHECKOUT,
    ] {
        let normalized = query.split_whitespace().collect::<Vec<_>>().join(" ");
        assert!(normalized.contains(
            "CAST( CAST( COALESCE(NULLIF(CAST(pa.amount AS TEXT), ''), NULLIF(CAST(pi.amount AS TEXT), ''), '0') AS NUMERIC ) AS BIGINT )::TEXT AS amount"
        ));
    }
}

#[test]
fn stored_statuses_map_to_checkout_labels() {
    assert_eq!(order_status_label(" Pending_Payment ").unwrap(), "pending");
    assert_eq!(order_status_label("fulfilled").unwrap(), "success");
    assert_eq!(order_status_label("cancelled").unwrap(), "failed");
    assert_eq!(order_status_label("expired").unwrap(), "expired");
    assert_eq!(order_status_label("refunded").unwrap(), "refunded");
    assert_eq!(order_status_label("weird").unwrap_err().kind, ErrorKind::Storage);
    assert_eq!(payment_status_label("").unwrap(), "pending");
    assert_eq!(payment_status_label("SUCCEEDED").unwrap(), "success");
    assert_eq!(payment_status_label("canceled").unwrap(), "expired");
    assert_eq!(payment_status_label("processing").unwrap_err().kind, ErrorKind::Storage);
    assert_eq!(CommercePaymentStatus::Failed.as_str(), "failed");
}

#[test]
fn checkout_outcomes_prefer_success_then_failure_then_expiry() {
    assert_eq!(checkout_effective_recharge_status("pending", "failed", "success"), "success");
    assert_eq!(checkout_effective_recharge_status("expired", "failed", "pending"), "failed");
    assert_eq!(checkout_effective_recharge_status("expired", "pending", "pending"), "expired");
    assert_eq!(checkout_effective_recharge_status("pending", "pending", "pending"), "pending");
    assert_eq!(checkout_status_label("refunded", "success", "success", "success"), "refunded");
    assert_eq!(checkout_status_label("refunding", "success", "success", "success"), "refunding");
    assert_eq!(checkout_status_label("pending", "pending", "failed", "failed"), "failed");
    assert_eq!(checkout_effective_payment_status("pending", "expired"), "expired");
    assert_eq!(checkout_effective_payment_status("success", "pending"), "success");
    assert_eq!(checkout_effective_payment_status("failed", "pending"), "failed");
    assert_eq!(checkout_next_action("success"), "completed");
    assert_eq!(checkout_next_action("refunding"), "pending");
    assert_eq!(checkout_next_action("pending"), "scan_qr");
}

#[test]
fn payment_methods_name_their_products() {
    assert_eq!(normalize_method_key(" WeChat "), "wechat_pay");
    assert_eq!(normalize_method_key("Alipay"), "alipay");
    assert_eq!(recharge_payment_product("wechat_pay").unwrap(), "wechat_native");
    assert_eq!(recharge_payment_product("alipay").unwrap(), "alipay_native");
    assert_eq!(recharge_payment_product("paypal").unwrap(), "paypal_checkout");
    assert_eq!(recharge_payment_product("card").unwrap(), "card");
    assert_eq!(recharge_payment_product("bitcoin").unwrap_err().kind, ErrorKind::Conflict);
}

#[test]
fn checkout_status_labels_combine_the_columns() {
    let labels = checkout_status_labels("pending_payment", "pending", "succeeded", "wechat", "att-1").unwrap();
    assert_eq!(labels.order_status, "pending");
    assert_eq!(labels.recharge_status, "success");
    assert_eq!(labels.status, "success");
    assert_eq!(labels.payment_status, "success");
    assert_eq!(labels.next_action, "completed");
    assert_eq!(labels.payment_method, "wechat_pay");
    assert_eq!(labels.payment_product, "wechat_native");
    let cashier = checkout_status_labels("pending", "", "", "-", "").unwrap();
    assert_eq!(cashier.payment_product, "mobile_cashier_h5");
    assert_eq!(cashier.next_action, "scan_qr");
    assert_eq!(checkout_status_labels("bogus", "", "", "alipay", "").unwrap_err().kind, ErrorKind::Storage);
    assert_eq!(
        checkout_status_labels("pending", "", "", "bitcoin", "att-2").unwrap_err().kind,
        ErrorKind::Conflict
    );
}

#[test]
fn status_cells_must_be_present_when_related() {
    assert_eq!(required_status_cell(Some(" paid "), "order").unwrap(), "paid");
    assert_eq!(required_status_cell(None, "order").unwrap_err().kind, ErrorKind::Storage);
    assert_eq!(related_status_cell(None, None, "payment").unwrap(), "");
    assert_eq!(related_status_cell(Some("pay-1"), Some("pending"), "payment").unwrap(), "pending");
    assert!(related_status_cell(Some("pay-1"), Some("  "), "payment").is_err());
    let error = missing_checkout_status_error("payment");
    assert_eq!(error.kind, ErrorKind::Storage);
    assert_eq!(error.message, "missing checkout payment status from database row");
}

#[test]
fn recharge_settings_fill_in_defaults() {
    let defaults = default_currency_to_cny_rates();
    assert_eq!(defaults, vec![("CNY".to_string(), "1".to_string()), ("USD".to_string(), "7".to_string())]);
    let settings = recharge_settings_from_row(None, None, Vec::new());
    assert_eq!(settings.base_points_per_cny, "10");
    assert_eq!(settings.base_currency_code, "CNY");
    assert_eq!(settings.currency_to_cny_rates, defaults);
    let configured = recharge_settings_from_row(
        Some("12.50"),
        Some(" usd "),
        vec![("USD".to_string(), "7.2".to_string())],
    );
    assert_eq!(configured.base_points_per_cny, "12.5");
    assert_eq!(configured.base_currency_code, "USD");
    assert_eq!(
        configured.currency_to_cny_rates,
        vec![("USD".to_string(), "7.2".to_string()), ("CNY".to_string(), "1".to_string())]
    );
}

#[test]
fn package_bound_recharges_must_match_the_package() {
    assert!(ensure_command_matches_package("CNY", "1200", "CNY", "1200").is_ok());
    assert_eq!(ensure_command_matches_package("CNY", "1200", "USD", "1200").unwrap_err().kind, ErrorKind::Validation);
    assert_eq!(ensure_command_matches_package("CNY", "1200", "CNY", "1300").unwrap_err().kind, ErrorKind::Validation);
}

#[test]
fn coupon_snapshots_read_required_members() {
    let snapshot = r#"{"benefit":{"kind":"points_credit","grantAmount":500},"name":" "}"#;
    assert_eq!(required_json_text(snapshot, "/benefit/kind", "kind").unwrap(), "points_credit");
    assert_eq!(required_json_text(snapshot, "/benefit/grantAmount", "grant").unwrap(), "500");
    assert_eq!(required_json_integer(snapshot, "/benefit/grantAmount", "grant").unwrap(), 500);
    assert_eq!(required_json_text(snapshot, "/name", "name").unwrap_err().kind, ErrorKind::Storage);
    assert_eq!(required_json_integer(snapshot, "/benefit/kind", "kind").unwrap_err().kind, ErrorKind::Storage);
    assert_eq!(parse_coupon_benefit_snapshot("not json").unwrap_err().kind, ErrorKind::Storage);
}

#[test]
fn coupon_benefits_follow_their_kind() {
    let credit = parse_coupon_benefit_snapshot(r#"{"couponBenefit":{"kind":"points_credit","grantPoints":"500"}}"#);
    match credit {
        Ok(Some(CouponRedemptionBenefit::PointsCredit { grant_amount })) => assert_eq!(grant_amount, "500"),
        other => panic!("unexpected benefit: {other:?}"),
    }
    let plan = parse_coupon_benefit_snapshot(
        r#"{"couponBenefit":{"kind":"subscription","productId":"p1","skuId":"s1","packageId":3,"period":"month","durationDays":30,"dailyQuota":10,"totalQuota":300}}"#,
    );
    match plan {
        Ok(Some(CouponRedemptionBenefit::Subscription { package_id, duration_days, total_quota, .. })) => {
            assert_eq!((package_id, duration_days, total_quota), (3, 30, 300));
        }
        other => panic!("unexpected benefit: {other:?}"),
    }
    assert!(parse_coupon_benefit_snapshot(r#"{"title":"x"}"#).unwrap().is_none());
    assert_eq!(
        parse_coupon_benefit_snapshot(r#"{"couponBenefit":{"kind":"gift"}}"#).unwrap_err().kind,
        ErrorKind::Storage
    );
    assert_eq!(
        parse_coupon_benefit_snapshot(r#"{"couponBenefit":{"kind":"cash_credit"}}"#).unwrap_err().kind,
        ErrorKind::Storage
    );
}

fn coupon_members(kind: &str) -> CouponSnapshotMembers {
    CouponSnapshotMembers {
        document: Some(JsonMember::Other),
        benefit: Some(JsonMember::Other),
        kind: Some(JsonMember::Text(kind.to_string())),
        grant_amount: Some(JsonMember::Integer(900)),
        grant_points: Some(JsonMember::Absent),
        product_id: Some(JsonMember::Text("p".into())),
        sku_id: Some(JsonMember::Text("s".into())),
        package_id: Some(JsonMember::Text("4".into())),
        period: Some(JsonMember::Text("year".into())),
        duration_days: Some(JsonMember::Integer(365)),
        daily_quota: Some(JsonMember::Integer(5)),
        total_quota: Some(JsonMember::Text("0".into())),
    }
}

#[test]
fn coupon_benefits_are_read_from_given_members() {
    match coupon_benefit_from_members(&coupon_members("token_bank_credit")) {
        Ok(Some(CouponRedemptionBenefit::TokenBankCredit { grant_amount })) => assert_eq!(grant_amount, "900"),
        other => panic!("unexpected benefit: {other:?}"),
    }
    assert_eq!(
        coupon_benefit_from_members(&coupon_members("points_credit")).unwrap_err().kind,
        ErrorKind::Storage
    );
    assert_eq!(
        coupon_benefit_from_members(&coupon_members("subscription")).unwrap_err().kind,
        ErrorKind::Storage
    );
    let mut none = coupon_members("cash_credit");
    none.benefit = Some(JsonMember::Absent);
    assert!(coupon_benefit_from_members(&none).unwrap().is_none());
    assert_eq!(required_member_text(&Some(JsonMember::Integer(-3)), "x").unwrap(), "-3");
    assert_eq!(required_member_integer(&Some(JsonMember::Integer(-3)), "x").unwrap_err().kind, ErrorKind::Storage);
    assert_eq!(required_member_text(&None, "x").unwrap_err().message, "coupon order snapshot x is missing");
}

#[test]
fn postgres_recharge_integer_cells_never_parse_through_f64() {
    // 2^53 + 1 has no exact f64: only an integer parse keeps it.
    assert_eq!(
        required_non_negative_integer_cell(None, None, Some("9007199254740993"), "bonus_points").unwrap(),
        9007199254740993
    );
    assert!(required_non_negative_integer_cell(None, None, Some("1.5"), "bonus_points").is_err());
    assert!(required_non_negative_integer_cell(None, None, Some("1e3"), "bonus_points").is_err());
}

#[test]
fn integer_cells_are_read_by_type_then_as_text() {
    assert_eq!(required_non_negative_integer_cell(Some(12), Some(3), Some("4"), "c").unwrap(), 12);
    assert_eq!(required_non_negative_integer_cell(None, Some(3), Some("4"), "c").unwrap(), 3);
    assert_eq!(required_non_negative_integer_cell(None, None, Some(" 42 "), "c").unwrap(), 42);
    let missing = required_non_negative_integer_cell(None, None, None, "bonus_points").unwrap_err();
    assert_eq!(missing.kind, ErrorKind::Storage);
    assert_eq!(missing.message, "invalid integer column bonus_points");
    let negative = required_non_negative_integer_cell(Some(-1), None, None, "bonus_points").unwrap_err();
    assert_eq!(negative.kind, ErrorKind::Storage);
    assert_eq!(negative.message, "integer column bonus_points must not be negative");
}
