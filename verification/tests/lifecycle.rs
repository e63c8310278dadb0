use sdkwork_order::clock::{current_command_timestamp, expires_at, now_string, reservation_expiry_after, unix_seconds_text};
use sdkwork_order::error::ErrorKind;
use sdkwork_order::lifecycle::{
    normalize_organization_scope, order_cancel_idempotency_key, order_cancellation_bind_values,
    order_close_idempotency_key, order_event_bind_values, stable_order_storage_id,
    OrderLifecycleAuditInput, ORDER_CANCELLATION_INSERT_SQL, ORDER_EVENT_INSERT_SQL,
};
use sdkwork_order::transitions::{
    decide_order_cancel, decide_order_close, decide_receipt_confirmation,
    expiration_audit_input, management_cancel_audit_input, management_close_audit_input,
    order_is_expirable, owner_cancel_audit_input, plan_order_expiration,
    receipt_confirmation_audit_input, resolve_unapplied_transition, check_inventory_reserved_transition,
    ExpiringOrderRecord, TransitionStep,
};

#[test]
fn organization_scope_missing_uses_platform_sentinel() {
    assert_eq!(normalize_organization_scope(None), "0");
}

#[test]
fn organization_scope_blank_uses_platform_sentinel() {
    assert_eq!(normalize_organization_scope(Some("")), "0");
    assert_eq!(normalize_organization_scope(Some("   ")), "0");
}

#[test]
fn organization_scope_present_is_trimmed() {
    assert_eq!(normalize_organization_scope(Some(" org-123 ")), "org-123");
}

#[test]
fn expiration_timestamp_is_unix_seconds_text() {
    let value = current_command_timestamp();
    assert!(value.parse::<i64>().is_ok());
    assert_eq!(value.chars().filter(|c| *c == '.').count(), 0);
}

fn audit() -> OrderLifecycleAuditInput {
    owner_cancel_audit_input(
        "tenant-1",
        &None,
        "user-1",
        "order-1",
        &None,
        &Some("changed my mind".to_owned()),
        "pending_payment",
        "1700000000",
    )
}

#[test]
fn order_event_insert_binds_every_sql_placeholder() {
    let placeholders = ORDER_EVENT_INSERT_SQL.chars().filter(|character| *character == '$').count();
    let binds = order_event_bind_values(&audit()).len();
    assert_eq!(placeholders, 15, "event insert must declare $1..$15 placeholders");
    assert_eq!(binds, placeholders, "event insert must bind every SQL placeholder");
    assert_eq!(
        order_event_bind_values(&audit())[2].as_deref(),
        Some("0"),
        "event insert must normalize the organization scope to the platform sentinel"
    );
}

#[test]
fn order_cancellation_insert_binds_every_sql_placeholder() {
    let placeholders = ORDER_CANCELLATION_INSERT_SQL
        .chars()
        .filter(|character| *character == '$')
        .count();
    let binds = order_cancellation_bind_values(&audit()).len();
    assert_eq!(placeholders, 6, "cancellation insert must declare $1..$6 placeholders");
    assert_eq!(binds, placeholders, "cancellation insert must bind every SQL placeholder");
}

#[test]
fn event_rows_carry_the_audit_facts() {
    let values = order_event_bind_values(&audit());
    assert_eq!(values[0].as_deref(), Some("order-event-tenant-1-order-1-cancelled-order-cancel-order-1"));
    assert_eq!(values[3].as_deref(), Some("OE-cancelled-cancel-order-1"));
    assert_eq!(values[8].as_deref(), Some("buyer"));
    assert_eq!(values[9].as_deref(), Some("user-1"));
    assert_eq!(values[10].as_deref(), Some("user_cancel"));
    let cancellation = order_cancellation_bind_values(&audit());
    assert_eq!(cancellation[3].as_deref(), Some("user_cancel"));
    assert_eq!(cancellation[4].as_deref(), Some("changed my mind"));
}

#[test]
fn storage_ids_and_idempotency_keys() {
    assert_eq!(stable_order_storage_id(&["a b", "c/d", "e.f_g-h"]), "a-b-c-d-e.f_g-h");
    assert_eq!(stable_order_storage_id(&[]), "");
    assert_eq!(order_cancel_idempotency_key("o-1"), "order-cancel:o-1");
    assert_eq!(order_close_idempotency_key("o-1"), "order-close:o-1");
}

#[test]
fn cancellation_replays_and_rejects_paid_orders() {
    assert_eq!(decide_order_cancel(Some("pending_payment")).unwrap(), TransitionStep::Apply);
    assert_eq!(decide_order_cancel(Some("CANCELLED")).unwrap(), TransitionStep::Replay);
    assert_eq!(decide_order_cancel(Some("paid")).unwrap_err().kind, ErrorKind::Conflict);
    assert_eq!(decide_order_cancel(None).unwrap_err().kind, ErrorKind::NotFound);
    // After a cancellation applies, cancelling again is a replay.
    assert_eq!(decide_order_cancel(Some("cancelled")).unwrap(), TransitionStep::Replay);
}

#[test]
fn closing_replays_and_rejects_cancelled_orders() {
    assert_eq!(decide_order_close(Some("paid")).unwrap(), TransitionStep::Apply);
    assert_eq!(decide_order_close(Some("Closed")).unwrap(), TransitionStep::Replay);
    assert_eq!(decide_order_close(Some("cancelled")).unwrap_err().kind, ErrorKind::Conflict);
    assert_eq!(decide_order_close(None).unwrap_err().kind, ErrorKind::NotFound);
}

#[test]
fn receipt_confirmation_completes_shipped_orders_once() {
    assert_eq!(
        decide_receipt_confirmation(Some("paid"), Some("awaiting_shipment")).unwrap(),
        TransitionStep::Apply
    );
    assert_eq!(
        decide_receipt_confirmation(Some("completed"), Some("delivered")).unwrap(),
        TransitionStep::Replay
    );
    assert_eq!(
        decide_receipt_confirmation(Some("pending_payment"), None).unwrap_err().kind,
        ErrorKind::Conflict
    );
    assert_eq!(
        resolve_unapplied_transition(Some("Cancelled"), "cancelled").unwrap(),
        TransitionStep::Replay
    );
    assert!(resolve_unapplied_transition(Some("paid"), "cancelled").is_err());
    assert!(check_inventory_reserved_transition("pending_inventory").is_ok());
    assert_eq!(
        check_inventory_reserved_transition("paid").unwrap_err().kind,
        ErrorKind::InvalidState
    );
}

#[test]
fn audit_records_name_their_actor_and_reason() {
    let admin = management_cancel_audit_input("t", &Some("org".to_owned()), "o-2", &None, &None, "pending", "9");
    assert_eq!(admin.actor_type, "admin");
    assert_eq!(admin.actor_id, None);
    assert_eq!(admin.reason_code.as_deref(), Some("admin_cancel"));
    assert_eq!(admin.request_no, "admin-cancel-o-2");
    let close = management_close_audit_input("t", &None, "o-3", &Some("fraud".to_owned()), &None, "paid", "9");
    assert_eq!(close.event_type, "closed");
    assert_eq!(close.reason_code.as_deref(), Some("fraud"));
    assert_eq!(close.idempotency_key, "order-close:o-3");
    let receipt = receipt_confirmation_audit_input("t", &None, "u", "o-4", "receipt-request-1", "paid", "9");
    assert_eq!(receipt.idempotency_key, "order-receipt:o-4");
    assert_eq!(receipt.reason_code.as_deref(), Some("buyer_confirmed_receipt"));
}

#[test]
fn expiration_only_touches_payable_orders() {
    let record = ExpiringOrderRecord {
        tenant_id: "tenant-1".to_owned(),
        organization_id: None,
        owner_user_id: "user-1".to_owned(),
        order_id: "order-expire-1".to_owned(),
        fulfillment_status: None,
    };
    let audit = plan_order_expiration(&record, Some("pending_payment"), "2000").expect("expires");
    assert_eq!(audit.to_status, "expired");
    assert_eq!(audit.request_no, "system-expire-order-expire-1");
    assert_eq!(audit.idempotency_key, "order-expire:order-expire-1");
    assert!(plan_order_expiration(&record, Some("expired"), "2000").is_none());
    assert!(plan_order_expiration(&record, Some("paid"), "2000").is_none());
    assert!(plan_order_expiration(&record, None, "2000").is_none());
    assert!(order_is_expirable(Some("WAIT_PAY")));
    assert!(!order_is_expirable(Some("cancelled")));
    let direct = expiration_audit_input(&record, "unpaid", "1");
    assert_eq!(direct.reason_message.as_deref(), Some("order payment window elapsed; automatically expired"));
}

#[test]
fn clock_texts_are_decimal_seconds() {
    assert_eq!(unix_seconds_text(1_700_000_000), "1700000000");
    assert_eq!(reservation_expiry_after(100), "1900");
    assert_eq!(reservation_expiry_after(u64::MAX), u64::MAX.to_string());
    assert!(expires_at().parse::<u64>().is_ok());
    assert!(now_string().parse::<i64>().is_ok());
}

#[test]
fn normalized_organization_scopes_normalize_to_themselves() {
    for raw in [None, Some(""), Some("  "), Some(" org-9 "), Some("0")] {
        let once = normalize_organization_scope(raw);
        assert_eq!(normalize_organization_scope(Some(&once)), once);
    }
}

#[test]
fn storage_ids_keep_only_safe_characters() {
    let id = stable_order_storage_id(&["order event", "租户/1", "key:#9"]);
    assert_eq!(id, "order-event----1-key--9");
    assert!(id.chars().all(|c| c.is_ascii_alphanumeric() || c == '-' || c == '_' || c == '.'));
}
