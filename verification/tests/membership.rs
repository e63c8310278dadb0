use sdkwork_order::error::ErrorKind;
use sdkwork_order::json::JsonMember;
use sdkwork_order::membership::{
    json_positive_i64, membership_purchase_from_members, positive_member_value,
    MembershipSnapshotMembers, membership_order_status_label, membership_package_from_row, membership_purchase_snapshot,
    recharge_membership_package, replayed_membership_duration, required_positive_integer,
    MEMBERSHIP_QUOTA_RECHARGE_PACKAGE_ID,
};

#[test]
fn membership_snapshot_uses_order_authority_and_string_package_id() {
    let snapshot = membership_purchase_snapshot(
        "membership",
        "MB-1",
        Some(" UPGRADE "),
        Some(r#"{"packageId":"21","action":"purchase"}"#),
    )
    .expect("valid snapshot")
    .expect("membership snapshot");

    assert_eq!(snapshot.action, "upgrade");
    assert_eq!(snapshot.order_no, "MB-1");
    assert_eq!(snapshot.package_id, 21);
    assert_eq!(snapshot.grant_quantity, None);
}

#[test]
fn membership_snapshot_accepts_recharge_with_grant_quantity() {
    let snapshot = membership_purchase_snapshot(
        "membership",
        "MB-2",
        Some("recharge"),
        Some(r#"{"action":"recharge","grantQuantity":1000}"#),
    )
    .expect("valid snapshot")
    .expect("recharge snapshot");

    assert_eq!(snapshot.action, "recharge");
    assert_eq!(snapshot.grant_quantity, Some(1000));
}

#[test]
fn membership_snapshot_rejects_recharge_without_grant_quantity() {
    assert!(membership_purchase_snapshot(
        "membership",
        "MB-3",
        Some("recharge"),
        Some(r#"{"action":"recharge"}"#),
    )
    .is_err());
}

#[test]
fn membership_snapshot_rejects_missing_or_invalid_business_fields() {
    assert!(membership_purchase_snapshot("membership", "MB-1", None, None).is_err());
    assert!(membership_purchase_snapshot(
        "membership",
        "MB-1",
        Some("downgrade"),
        Some(r#"{"packageId":21}"#),
    )
    .is_err());
    assert!(membership_purchase_snapshot(
        "membership",
        "MB-1",
        Some("purchase"),
        Some(r#"{"packageId":0}"#),
    )
    .is_err());
}

#[test]
fn membership_snapshot_ignores_other_subjects_and_reads_the_action_from_the_snapshot() {
    assert!(membership_purchase_snapshot("points_recharge", "R-1", None, None).unwrap().is_none());
    let snapshot = membership_purchase_snapshot(
        "Membership",
        " MB-4 ",
        None,
        Some(r#"{"packageId":7,"action":"Renew"}"#),
    )
    .unwrap()
    .unwrap();
    assert_eq!(snapshot.action, "renew");
    assert_eq!(snapshot.order_no, "MB-4");
    assert_eq!(snapshot.package_id, 7);
    let err = membership_purchase_snapshot("membership", "MB-5", Some("purchase"), Some("not json"))
        .unwrap_err();
    assert_eq!(err.kind, ErrorKind::InvalidState);
}

#[test]
fn membership_status_labels_group_stored_states() {
    assert_eq!(membership_order_status_label(" PAID "), "paid");
    assert_eq!(membership_order_status_label("fulfilled"), "paid");
    assert_eq!(membership_order_status_label("completed"), "paid");
    assert_eq!(membership_order_status_label("canceled"), "closed");
    assert_eq!(membership_order_status_label("expired"), "closed");
    assert_eq!(membership_order_status_label("pending"), "pending_payment");
}

#[test]
fn membership_package_rows_need_a_sku_and_a_duration() {
    let package = membership_package_from_row("21", "Gold", "9900", " cny ", Some(30), "sku-1", "Gold plan")
        .unwrap();
    assert_eq!(package.currency_code, "CNY");
    assert_eq!(package.duration_days, 30);
    assert_eq!(package.product_name, "Gold plan");
    assert_eq!(
        membership_package_from_row("21", "Gold", "9900", "CNY", Some(30), "  ", "Gold").unwrap_err().kind,
        ErrorKind::Conflict
    );
    assert_eq!(
        membership_package_from_row("21", "Gold", "9900", "CNY", Some(0), "sku-1", "Gold").unwrap_err().kind,
        ErrorKind::Storage
    );
    assert_eq!(required_positive_integer(None).unwrap_err().kind, ErrorKind::Storage);
    assert_eq!(required_positive_integer(Some(3)).unwrap(), 3);
}

#[test]
fn quota_recharge_packages_and_replayed_durations() {
    let package = recharge_membership_package("5000");
    assert_eq!(package.package_external_id, MEMBERSHIP_QUOTA_RECHARGE_PACKAGE_ID);
    assert_eq!(package.price_amount, "5000");
    assert_eq!(package.currency_code, "CNY");
    assert_eq!(package.duration_days, 0);
    assert_eq!(replayed_membership_duration("recharge", None).unwrap(), 0);
    assert_eq!(replayed_membership_duration("purchase", Some(30)).unwrap(), 30);
    assert!(replayed_membership_duration("purchase", Some(0)).is_err());
    assert!(replayed_membership_duration("purchase", None).is_err());
}

fn members(action: Option<JsonMember>, grant: Option<JsonMember>, package: Option<JsonMember>) -> MembershipSnapshotMembers {
    MembershipSnapshotMembers {
        document: Some(JsonMember::Other),
        action,
        grant_quantity: grant,
        package_id: package,
    }
}

#[test]
fn membership_purchase_is_decided_from_the_snapshot_members() {
    let renew = membership_purchase_from_members(
        "membership",
        "MB-9",
        None,
        true,
        &members(Some(JsonMember::Text(" Renew ".into())), None, Some(JsonMember::Text(" 12 ".into()))),
    )
    .unwrap()
    .unwrap();
    assert_eq!(renew.action, "renew");
    assert_eq!(renew.package_id, 12);
    let recharge = membership_purchase_from_members(
        "membership",
        "MB-9",
        Some("recharge"),
        true,
        &members(None, Some(JsonMember::Integer(30)), None),
    )
    .unwrap()
    .unwrap();
    assert_eq!(recharge.grant_quantity, Some(30));
    assert_eq!(recharge.package_id, 0);
    let unreadable = MembershipSnapshotMembers { document: None, action: None, grant_quantity: None, package_id: None };
    assert_eq!(
        membership_purchase_from_members("membership", "MB-9", Some("purchase"), true, &unreadable).unwrap_err().kind,
        ErrorKind::InvalidState
    );
    assert_eq!(
        membership_purchase_from_members("membership", "MB-9", Some("purchase"), false, &members(None, None, Some(JsonMember::Integer(3))))
            .unwrap_err()
            .kind,
        ErrorKind::InvalidState
    );
    assert!(membership_purchase_from_members("points", "", None, false, &unreadable).unwrap().is_none());
    assert_eq!(positive_member_value(&Some(JsonMember::Integer(-4))), None);
    assert_eq!(positive_member_value(&Some(JsonMember::Other)), None);
    assert_eq!(json_positive_i64(r#"{"n":"7"}"#, "/n"), Some(7));
    assert_eq!(json_positive_i64(r#"{"n":0}"#, "/n"), None);
}
