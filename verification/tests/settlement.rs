use sdkwork_order::error::ErrorKind;
use sdkwork_order::settlement::{
    decide_payment_failure, decide_payment_success, decide_refund_status,
    duplicate_payment_audit_input, late_payment_audit_input, payment_status_is_success,
    required_paid_at, terminal_order_status, OrderPaymentSettlementAttempt, payment_failure_cancellation,
};
use sdkwork_order::transitions::order_cancellation_write;

fn settlement_attempt() -> OrderPaymentSettlementAttempt {
    OrderPaymentSettlementAttempt {
        tenant_id: "t1".to_string(),
        organization_id: Some("org-1".to_string()),
        owner_user_id: "u1".to_string(),
        order_id: "o1".to_string(),
        payment_attempt_id: Some("pa-1".to_string()),
        out_trade_no: Some("OUT-1".to_string()),
    }
}

#[test]
fn terminal_states_and_collected_payments() {
    assert_eq!(terminal_order_status(" Paid "), Some("paid"));
    assert_eq!(terminal_order_status("finished"), Some("fulfilled"));
    assert_eq!(terminal_order_status("canceled"), Some("cancelled"));
    assert_eq!(terminal_order_status("closed"), Some("closed"));
    assert_eq!(terminal_order_status("expired"), Some("expired"));
    assert_eq!(terminal_order_status("pending_payment"), None);
    assert!(payment_status_is_success(Some("SUCCEEDED")));
    assert!(payment_status_is_success(Some("paid")));
    assert!(!payment_status_is_success(Some("failed")));
    assert!(!payment_status_is_success(None));
}

#[test]
fn payment_success_pays_open_orders_and_audits_terminal_ones() {
    let open = decide_payment_success("pending_payment", Some("pending"));
    assert_eq!(open.order_status, "paid");
    assert!(!open.terminal_order_preserved);
    assert!(!open.record_late_payment && !open.record_duplicate_payment);
    let late = decide_payment_success("cancelled", Some("failed"));
    assert_eq!(late.order_status, "cancelled");
    assert!(late.terminal_order_preserved && late.record_late_payment);
    let duplicate = decide_payment_success("paid", Some("succeeded"));
    assert_eq!(duplicate.order_status, "paid");
    assert!(duplicate.record_duplicate_payment && !duplicate.record_late_payment);
}

#[test]
fn payment_failure_cancels_only_unpaid_open_orders() {
    assert_eq!(decide_payment_failure("pending_payment", Some("pending")).order_status, "cancelled");
    let paid = decide_payment_failure("paid", Some("succeeded"));
    assert_eq!(paid.order_status, "paid");
    assert!(paid.terminal_order_preserved);
    assert_eq!(decide_payment_failure("fulfilled", None).order_status, "fulfilled");
    assert_eq!(decide_payment_failure("pending_payment", Some("succeeded")).order_status, "pending_payment");
    assert_eq!(decide_payment_failure("expired", Some("pending")).order_status, "expired");
}

#[test]
fn refund_notifications_advance_until_refunded() {
    let first = decide_refund_status(None, "refunding");
    assert!(first.apply);
    assert_eq!(first.refund_status, "refunding");
    let done = decide_refund_status(Some("refunding"), "refunded");
    assert!(done.apply);
    assert_eq!(done.refund_status, "refunded");
    let replay = decide_refund_status(Some("refunded"), "refunded");
    assert!(!replay.apply && !replay.terminal_preserved);
    let late = decide_refund_status(Some("refunded"), "refunding");
    assert!(!late.apply && late.terminal_preserved);
    assert_eq!(late.refund_status, "refunded");
}

#[test]
fn settlement_audits_name_the_order() {
    assert_eq!(required_paid_at(" 2024-01-01T00:00:00Z ").unwrap(), "2024-01-01T00:00:00Z");
    assert_eq!(required_paid_at("  ").unwrap_err().kind, ErrorKind::Validation);
    let late = late_payment_audit_input(&settlement_attempt(), "Cancelled", "1700000000").unwrap();
    assert_eq!(late.event_type, "payment_succeeded_after_terminal");
    assert_eq!(late.to_status, "cancelled");
    assert_eq!(late.from_status, "Cancelled");
    assert_eq!(late.request_no, "late-payment-o1");
    assert_eq!(late.idempotency_key, "order-late-payment:o1");
    assert_eq!(late.reason_code.as_deref(), Some("late_payment"));
    assert_eq!(
        late_payment_audit_input(&settlement_attempt(), "pending", "1").unwrap_err().kind,
        ErrorKind::InvalidState
    );
    let duplicate = duplicate_payment_audit_input(&settlement_attempt(), "paid", "1700000000");
    assert_eq!(duplicate.event_type, "duplicate_payment_success");
    assert_eq!(duplicate.order_id, "o1");
}

#[test]
fn cancellations_write_the_payment_status_and_keep_the_first_time() {
    let failed = payment_failure_cancellation("failed", None, "1000");
    assert_eq!(failed.status, "cancelled");
    assert_eq!(failed.payment_status, "failed");
    assert_eq!(failed.cancelled_at, "1000");
    assert_eq!(failed.updated_at, "1000");
    let again = payment_failure_cancellation("closed", Some(&failed.cancelled_at), "2000");
    assert_eq!(again.cancelled_at, "1000");
    assert_eq!(again.updated_at, "2000");
    assert_eq!(payment_failure_cancellation("failed", Some(""), "3000").cancelled_at, "3000");
    let operator = order_cancellation_write("4000");
    assert_eq!(operator.status, "cancelled");
    assert_eq!(operator.payment_status, "closed");
    assert_eq!(operator.cancelled_at, "4000");
    assert_eq!(operator.updated_at, "4000");
}
