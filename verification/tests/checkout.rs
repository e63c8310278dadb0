use sdkwork_order::checkout::{
    check_physical_checkout_line, checkout_amounts, checkout_expires_at, checkout_idempotency_id,
    checkout_idempotency_step, checkout_line_id, checkout_line_title, checkout_quote_id,
    checkout_quote_no, checkout_session_id, checkout_window_expired, empty_order_statistics,
    ensure_checkout_has_lines, ensure_checkout_session_quotable, ensure_checkout_window_open, order_amount_breakdown_id,
    order_expires_at, order_item_id, order_summary_is_paid, order_summary_paid_amount,
    new_owner_order_head, owner_order_id, physical_inventory_lines, replay_checkout_quote, replay_checkout_session,
    timestamp_seconds, CheckoutCommandKind, CheckoutIdempotencyRecord, CheckoutLinePrice,
    CheckoutLineRow, IdempotencyStep, CHECKOUT_QUOTE_CREATE_SCOPE, CHECKOUT_SESSION_CREATE_SCOPE,
};
use sdkwork_order::checkout::{
    checkout_quote_from_members, checkout_session_from_members, line_title_from_member,
    CheckoutResponseMembers,
};
use sdkwork_order::error::ErrorKind;
use sdkwork_order::json::JsonMember;
use sdkwork_order::lifecycle::stable_order_storage_id;
use sdkwork_order::partner::OrderPartnerSnapshot;

#[test]
fn empty_order_statistics_uses_smallest_unit_zero() {
    let statistics = empty_order_statistics();

    assert_eq!(statistics.total_amount.as_str(), "0");
    assert_eq!(statistics.total_orders, 0);
    assert_eq!(statistics.completed, 0);
}

fn record(hash: &str, status: &str) -> Option<CheckoutIdempotencyRecord> {
    Some(CheckoutIdempotencyRecord {
        request_hash: hash.to_string(),
        status: status.to_string(),
        response_json: None,
    })
}

#[test]
fn idempotency_keys_replay_refresh_or_conflict() {
    assert_eq!(
        checkout_idempotency_step(&None, "h1", CheckoutCommandKind::Session).unwrap(),
        IdempotencyStep::Insert
    );
    assert_eq!(
        checkout_idempotency_step(&record("h1", "completed"), "h1", CheckoutCommandKind::Session).unwrap(),
        IdempotencyStep::Replay
    );
    assert_eq!(
        checkout_idempotency_step(&record("h1", "processing"), "h1", CheckoutCommandKind::Quote).unwrap(),
        IdempotencyStep::Refresh
    );
    assert_eq!(
        checkout_idempotency_step(&record("h1", "completed"), "h2", CheckoutCommandKind::Quote)
            .unwrap_err()
            .kind,
        ErrorKind::Conflict
    );
    assert_eq!(
        checkout_idempotency_step(&record("h1", "completed"), "h2", CheckoutCommandKind::Session).unwrap(),
        IdempotencyStep::Replay
    );
    assert_eq!(
        checkout_idempotency_step(&record("h1", "processing"), "h2", CheckoutCommandKind::Session)
            .unwrap_err()
            .kind,
        ErrorKind::Conflict
    );
}

#[test]
fn checkout_ids_are_derived_from_their_keys() {
    assert_eq!(
        checkout_session_id("t1", "k1"),
        stable_order_storage_id(&["checkout-session", "t1", "k1"])
    );
    assert_eq!(
        checkout_quote_id("t1", "s1", "r1"),
        stable_order_storage_id(&["checkout-quote", "t1", "s1", "r1"])
    );
    assert_eq!(
        checkout_idempotency_id("t1", CHECKOUT_SESSION_CREATE_SCOPE, "k1"),
        stable_order_storage_id(&["checkout-idempotency", "t1", "checkout.sessions.create", "k1"])
    );
    assert_ne!(
        checkout_idempotency_id("t1", CHECKOUT_SESSION_CREATE_SCOPE, "k1"),
        checkout_idempotency_id("t1", CHECKOUT_QUOTE_CREATE_SCOPE, "k1")
    );
    assert_eq!(checkout_line_id("cs-1", 0), "cs-1-line-0");
    assert_eq!(checkout_line_id("cs-1", 12), "cs-1-line-12");
    assert_eq!(checkout_quote_no("REQ-9", "key-3"), "REQ-9:key-3");
    assert_eq!(checkout_expires_at("1700000000"), "1700000000");
    assert_eq!(owner_order_id("cs-1"), "order-cs-1");
    assert_eq!(order_item_id("order-cs-1", "cs-1-line-0"), "order-cs-1-item-cs-1-line-0");
    assert_eq!(order_amount_breakdown_id("order-cs-1"), "order-cs-1-amount");
    assert_eq!(order_expires_at(&Some("1700001800".to_string()), "1700000000"), "1700001800");
    assert_eq!(order_expires_at(&None, "1700000000"), "1700000000");
}

#[test]
fn checkout_amounts_sum_line_totals_in_minor_units() {
    let amounts = checkout_amounts(&vec![
        CheckoutLinePrice { unit_price_minor: 6990, quantity: 2 },
        CheckoutLinePrice { unit_price_minor: 100, quantity: 3 },
    ])
    .unwrap();
    assert_eq!(amounts.line_totals, vec!["13980".to_string(), "300".to_string()]);
    assert_eq!(amounts.original_amount, "14280");
    assert_eq!(amounts.payable_amount, "14280");
    assert_eq!(amounts.discount_amount, "0");
    assert_eq!(checkout_amounts(&Vec::new()).unwrap().original_amount, "0");
    assert_eq!(
        checkout_amounts(&vec![CheckoutLinePrice { unit_price_minor: 100, quantity: 0 }]).unwrap_err().kind,
        ErrorKind::Validation
    );
    assert_eq!(
        checkout_amounts(&vec![
            CheckoutLinePrice { unit_price_minor: i64::MAX, quantity: 1 },
            CheckoutLinePrice { unit_price_minor: 1, quantity: 1 },
        ])
        .unwrap_err()
        .kind,
        ErrorKind::Validation
    );
}

#[test]
fn stored_responses_replay_as_views() {
    let session = replay_checkout_session(Some(
        r#"{"checkoutSessionId":"cs-1","status":"open","currencyCode":"CNY","originalAmount":"100","discountAmount":"0","payableAmount":"100"}"#,
    ))
    .unwrap();
    assert_eq!(session.checkout_session_id, "cs-1");
    assert_eq!(session.payable_amount, "100");
    assert_eq!(session.quote_id, None);
    assert_eq!(replay_checkout_session(None).unwrap_err().kind, ErrorKind::InvalidState);
    assert_eq!(replay_checkout_session(Some("{")).unwrap_err().kind, ErrorKind::Storage);
    assert_eq!(
        replay_checkout_session(Some(r#"{"checkoutSessionId":"cs-1"}"#)).unwrap_err().kind,
        ErrorKind::Storage
    );
    let quote = replay_checkout_quote(Some(
        r#"{"checkoutSessionId":"cs-1","quoteId":"q-1","currencyCode":"CNY","originalAmount":"100","discountAmount":"0","payableAmount":"100"}"#,
    ))
    .unwrap();
    assert_eq!(quote.quote_id, "q-1");
    assert_eq!(replay_checkout_quote(None).unwrap_err().kind, ErrorKind::InvalidState);
}

#[test]
fn checkout_windows_close_at_their_expiry() {
    assert!(!checkout_window_expired(None, 100));
    assert!(checkout_window_expired(Some("100"), 100));
    assert!(!checkout_window_expired(Some(" 101 "), 100));
    assert!(!checkout_window_expired(Some("soon"), 100));
    assert_eq!(timestamp_seconds(" 42 "), 42);
    assert_eq!(timestamp_seconds("later"), 0);
    assert!(ensure_checkout_window_open(Some("200"), "100", CheckoutCommandKind::Session).is_ok());
    assert_eq!(
        ensure_checkout_window_open(Some("50"), "100", CheckoutCommandKind::Quote).unwrap_err().kind,
        ErrorKind::InvalidState
    );
    assert_eq!(ensure_checkout_has_lines(0).unwrap_err().kind, ErrorKind::Conflict);
    assert!(ensure_checkout_has_lines(2).is_ok());
    assert!(check_physical_checkout_line("cny", "CNY", true).is_ok());
    assert_eq!(check_physical_checkout_line("USD", "CNY", true).unwrap_err().kind, ErrorKind::Conflict);
    assert_eq!(check_physical_checkout_line("CNY", "CNY", false).unwrap_err().kind, ErrorKind::Conflict);
}

#[test]
fn paid_summaries_show_their_total() {
    assert!(order_summary_is_paid("PAID", None));
    assert!(order_summary_is_paid("pending_payment", Some("succeeded")));
    assert!(!order_summary_is_paid("pending_payment", Some("pending")));
    assert_eq!(order_summary_paid_amount("completed", None, "990"), Some("990".to_string()));
    assert_eq!(order_summary_paid_amount("cancelled", None, "990"), None);
}

#[test]
fn physical_lines_become_inventory_lines_in_order() {
    let lines = vec![
        CheckoutLineRow { sku_id: "a".into(), shop_id: "s1".into(), quantity: 2, fulfillment_type: "physical".into() },
        CheckoutLineRow { sku_id: "b".into(), shop_id: "s1".into(), quantity: 1, fulfillment_type: "virtual".into() },
        CheckoutLineRow { sku_id: "c".into(), shop_id: "s2".into(), quantity: 4, fulfillment_type: " Physical_Shipment ".into() },
    ];
    let inventory = physical_inventory_lines(&lines);
    assert_eq!(inventory.len(), 2);
    assert_eq!(inventory[0].sku_id, "a");
    assert_eq!(inventory[1].sku_id, "c");
    assert_eq!(inventory[1].quantity, 4);
    assert_eq!(checkout_line_title(r#"{"title":" Mug "}"#, "sku-1"), "Mug");
    assert_eq!(checkout_line_title(r#"{"title":"  "}"#, "sku-1"), "sku-1");
    assert_eq!(checkout_line_title("not json", "sku-1"), "sku-1");
}

#[test]
fn replays_and_titles_are_decided_from_given_members() {
    let text = |v: &str| Some(JsonMember::Text(v.to_string()));
    let mut members = CheckoutResponseMembers {
        document: Some(JsonMember::Other),
        checkout_session_id: text("cs-2"),
        status: text("open"),
        quote_id: Some(JsonMember::Integer(7)),
        currency_code: text("CNY"),
        original_amount: text("10"),
        discount_amount: text("0"),
        payable_amount: text("10"),
    };
    let session = checkout_session_from_members(&members).unwrap();
    assert_eq!(session.checkout_session_id, "cs-2");
    assert_eq!(session.quote_id, None);
    assert_eq!(checkout_quote_from_members(&members).unwrap_err().kind, ErrorKind::Storage);
    members.quote_id = text("q-2");
    assert_eq!(checkout_quote_from_members(&members).unwrap().quote_id, "q-2");
    members.document = None;
    assert_eq!(checkout_session_from_members(&members).unwrap_err().kind, ErrorKind::Storage);
    assert_eq!(line_title_from_member(&text("  Lamp "), "sku-9"), "Lamp");
    assert_eq!(line_title_from_member(&Some(JsonMember::Integer(3)), "sku-9"), "sku-9");
}

#[test]
fn a_new_order_waits_for_inventory_under_its_request_number() {
    let partner = Some(OrderPartnerSnapshot {
        partner_id: "77".to_string(),
        name: "Partner".to_string(),
        level_no: "1".to_string(),
        status: "active".to_string(),
    });
    let head = new_owner_order_head(
        "cs-1",
        Some(" 9 "),
        "REQ-1",
        "idem-1",
        "Blue mug",
        "CNY",
        &partner,
        &Some("2030-01-01T00:00:00Z".to_string()),
        "2029-12-31T23:30:00Z",
    );
    assert_eq!(head.order_id, "order-cs-1");
    assert_eq!(head.order_sn, "REQ-1");
    assert_eq!(head.request_no, "REQ-1");
    assert_eq!(head.organization_id, "9");
    assert_eq!(head.status, "pending_inventory");
    assert_eq!(head.payment_status, "pending");
    assert_eq!(head.fulfillment_status, "unfulfilled");
    assert_eq!(head.refund_status, "none");
    assert_eq!(head.subject, "Blue mug");
    assert_eq!(head.currency_code, "CNY");
    assert_eq!(head.idempotency_key, "idem-1");
    assert_eq!(head.partner_id.as_deref(), Some("77"));
    assert_eq!(head.expired_at, "2030-01-01T00:00:00Z");
    let bare = new_owner_order_head("cs-2", None, "REQ-2", "idem-2", "product", "USD", &None, &None, "NOW");
    assert_eq!(bare.organization_id, "0");
    assert_eq!(bare.partner_id, None);
    assert_eq!(bare.expired_at, "NOW");
}

#[test]
fn only_active_quoted_or_open_sessions_are_quotable() {
    assert!(ensure_checkout_session_quotable(Some("active")).is_ok());
    assert!(ensure_checkout_session_quotable(Some("QUOTED")).is_ok());
    assert!(ensure_checkout_session_quotable(Some("open")).is_ok());
    assert_eq!(ensure_checkout_session_quotable(Some("submitted")).unwrap_err().kind, ErrorKind::Conflict);
    assert_eq!(ensure_checkout_session_quotable(Some(" active")).unwrap_err().kind, ErrorKind::Conflict);
    assert_eq!(ensure_checkout_session_quotable(None).unwrap_err().kind, ErrorKind::Conflict);
}
