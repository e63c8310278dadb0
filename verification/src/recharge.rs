//! Points recharge checkouts: how stored order and payment states read as
//! a checkout status, the payment product of a method, the exchange
//! settings and their defaults, and coupon benefit snapshots.
use vstd::prelude::*;
use crate::error::{conflict, storage, validation, CommerceError, ErrorKind};
use crate::lifecycle::opt_view;
use crate::json::{json_member_at, json_pointer_member, member_text, JsonMember};
use crate::money::{
    compute_grant_amount, grant_amount, grant_rounding_overflows, normalize_decimal_string,
    normalized_decimal, rate_for, rate_keys_unique, RechargeSettingsModel,
};
use crate::text::{
    append_str, chars_eq, chars_eq_str, chars_of, i64_text, int_text, lower_seq, parse_i64,
    parse_i64_chars, string_of, trim, trim_chars, trim_lower, upper_chars, upper_seq,
};

verus! {

/// The status row of a recharge checkout, found by order id, order number or merchant order number. Payment amounts are projected as minor-unit integer text.
pub const LOAD_CHECKOUT_STATUS: &'static str = "SELECT o.id AS order_id, pi.id AS payment_id, pa.id AS payment_attempt_id, COALESCE(NULLIF(o.order_no, ''), NULLIF(pa.out_trade_no, ''), '-') AS order_no, COALESCE(NULLIF(pa.out_trade_no, ''), NULLIF(o.order_no, ''), '-') AS out_trade_no, CAST( CAST( COALESCE(NULLIF(CAST(pa.amount AS TEXT), ''), NULLIF(CAST(pi.amount AS TEXT), ''), '0') AS NUMERIC ) AS BIGINT )::TEXT AS amount, COALESCE(NULLIF(pa.currency_code, ''), NULLIF(pi.currency_code, ''), NULLIF(o.currency_code, ''), 'CNY') AS currency_code, CAST(COALESCE( NULLIF(pa.callback_payload::jsonb ->> 'points', ''), '0' ) AS TEXT) AS points_value, COALESCE(NULLIF(pa.payment_method, ''), NULLIF(pi.payment_method, ''), '-') AS payment_method, COALESCE(NULLIF(pa.provider_code, ''), NULLIF(pi.provider_code, ''), '-') AS provider_code, o.status AS order_status, pi.status AS payment_status, pa.status AS payment_attempt_status, CAST(o.created_at AS TEXT) AS created_at, COALESCE(CAST(o.expired_at AS TEXT), '') AS expires_at, COALESCE(CAST(pa.paid_at AS TEXT), CAST(o.paid_at AS TEXT), '') AS paid_at FROM commerce_order o LEFT JOIN commerce_payment_intent pi ON pi.tenant_id = o.tenant_id AND (pi.organization_id IS NULL OR o.organization_id IS NULL OR pi.organization_id = o.organization_id) AND pi.order_id = o.id LEFT JOIN commerce_payment_attempt pa ON pa.tenant_id = o.tenant_id AND (pa.organization_id IS NULL OR o.organization_id IS NULL OR pa.organization_id = o.organization_id) AND pa.order_id = o.id WHERE o.tenant_id = CAST($1 AS TEXT) AND ((o.organization_id = CAST($2 AS TEXT)) OR (o.organization_id IS NULL AND $2 IS NULL) OR (o.organization_id = '0' AND $2 IS NULL)) AND o.owner_user_id = CAST($3 AS TEXT) AND ( o.id = $4 OR o.order_no = $4 OR pa.out_trade_no = $4 ) ORDER BY COALESCE(CAST(pa.created_at AS TEXT), CAST(pi.created_at AS TEXT), CAST(o.created_at AS TEXT)) DESC NULLS LAST, o.id DESC LIMIT 1";

/// The fulfillment context of a points recharge order. Payment amounts are projected as minor-unit integer text.
pub const LOAD_POINTS_RECHARGE_FULFILLMENT_CONTEXT: &'static str = "SELECT o.id AS order_id, COALESCE(NULLIF(o.order_no, ''), '-') AS order_no, COALESCE(o.status, '') AS order_status, COALESCE(o.fulfillment_status, '') AS fulfillment_status, COALESCE(pi.status, '') AS payment_status, COALESCE(pa.status, '') AS payment_attempt_status, CAST(COALESCE( NULLIF(pa.callback_payload::jsonb ->> 'points', ''), NULLIF(oi.sku_snapshot_json::jsonb ->> 'points', ''), '0' ) AS TEXT) AS points_value, CAST( CAST( COALESCE(NULLIF(CAST(pa.amount AS TEXT), ''), NULLIF(CAST(pi.amount AS TEXT), ''), '0') AS NUMERIC ) AS BIGINT )::TEXT AS amount, COALESCE(NULLIF(pa.currency_code, ''), NULLIF(pi.currency_code, ''), NULLIF(o.currency_code, ''), 'CNY') AS currency_code FROM commerce_order o LEFT JOIN commerce_order_item oi ON oi.tenant_id = o.tenant_id AND oi.order_id = o.id LEFT JOIN commerce_payment_intent pi ON pi.tenant_id = o.tenant_id AND (pi.organization_id IS NULL OR o.organization_id IS NULL OR pi.organization_id = o.organization_id) AND pi.order_id = o.id LEFT JOIN commerce_payment_attempt pa ON pa.tenant_id = o.tenant_id AND (pa.organization_id IS NULL OR o.organization_id IS NULL OR pa.organization_id = o.organization_id) AND pa.order_id = o.id WHERE o.tenant_id = CAST($1 AS TEXT) AND ((o.organization_id = CAST($2 AS TEXT)) OR (o.organization_id IS NULL AND $2 IS NULL) OR (o.organization_id = '0' AND $2 IS NULL)) AND o.owner_user_id = CAST($3 AS TEXT) AND o.id = CAST($4 AS TEXT) AND o.subject = 'points_recharge' ORDER BY COALESCE(CAST(pa.created_at AS TEXT), CAST(pi.created_at AS TEXT), CAST(o.created_at AS TEXT)) DESC NULLS LAST, o.id DESC LIMIT 1";

/// A still-payable recharge checkout of the same amount, currency, points and package, which a repeated request reuses. Payment amounts are projected as minor-unit integer text.
pub const LOAD_REUSABLE_RECHARGE_CHECKOUT: &'static str = "SELECT o.id AS order_id, pi.id AS payment_id, pa.id AS payment_attempt_id, COALESCE(NULLIF(o.order_no, ''), NULLIF(pa.out_trade_no, ''), '-') AS order_no, COALESCE(NULLIF(pa.out_trade_no, ''), NULLIF(o.order_no, ''), '-') AS out_trade_no, CAST( CAST( COALESCE(NULLIF(CAST(pa.amount AS TEXT), ''), NULLIF(CAST(pi.amount AS TEXT), ''), '0') AS NUMERIC ) AS BIGINT )::TEXT AS amount, COALESCE(NULLIF(pa.currency_code, ''), NULLIF(pi.currency_code, ''), NULLIF(o.currency_code, ''), 'CNY') AS currency_code, CAST(COALESCE( NULLIF(pa.callback_payload::jsonb ->> 'points', ''), '0' ) AS TEXT) AS points_value, COALESCE(NULLIF(pa.payment_method, ''), NULLIF(pi.payment_method, ''), '-') AS payment_method, COALESCE(NULLIF(pa.provider_code, ''), NULLIF(pi.provider_code, ''), '-') AS provider_code, o.status AS order_status, pi.status AS payment_status, pa.status AS payment_attempt_status, CAST(o.created_at AS TEXT) AS created_at, COALESCE(CAST(o.expired_at AS TEXT), '') AS expires_at, COALESCE(CAST(pa.paid_at AS TEXT), CAST(o.paid_at AS TEXT), '') AS paid_at FROM commerce_order o JOIN commerce_payment_intent pi ON pi.tenant_id = o.tenant_id AND (pi.organization_id IS NULL OR o.organization_id IS NULL OR pi.organization_id = o.organization_id) AND pi.order_id = o.id JOIN commerce_payment_attempt pa ON pa.tenant_id = o.tenant_id AND (pa.organization_id IS NULL OR o.organization_id IS NULL OR pa.organization_id = o.organization_id) AND pa.order_id = o.id WHERE o.tenant_id = CAST($1 AS TEXT) AND ((o.organization_id = CAST($2 AS TEXT)) OR (o.organization_id IS NULL AND $2 IS NULL) OR (o.organization_id = '0' AND $2 IS NULL)) AND o.owner_user_id = CAST($3 AS TEXT) AND o.subject = 'points_recharge' AND COALESCE(NULLIF(CAST(pa.amount AS TEXT), ''), NULLIF(CAST(pi.amount AS TEXT), ''), '0') IN ($4, $5, $6) AND COALESCE(NULLIF(pa.currency_code, ''), NULLIF(pi.currency_code, ''), NULLIF(o.currency_code, ''), 'CNY') = $7 AND CAST(COALESCE( NULLIF(pa.callback_payload::jsonb ->> 'points', ''), '0' ) AS BIGINT) = $8 AND COALESCE(NULLIF(pa.callback_payload::jsonb ->> 'packageId', ''), '') = COALESCE(CAST($9 AS TEXT), '') AND LOWER(COALESCE(NULLIF(o.status, ''), 'pending_payment')) IN ('draft', 'pending', 'pending_payment') AND LOWER(COALESCE(NULLIF(pi.status, ''), 'pending')) IN ('created', 'pending', 'processing') AND LOWER(COALESCE(NULLIF(pa.status, ''), 'pending')) IN ('created', 'pending', 'processing') AND NULLIF(CAST(o.expired_at AS TEXT), '')::timestamptz > $10::timestamptz ORDER BY COALESCE(CAST(pa.created_at AS TEXT), CAST(pi.created_at AS TEXT), CAST(o.created_at AS TEXT)) DESC NULLS LAST, o.id DESC LIMIT 1";

/// A payment status as the payment domain spells it.
#[derive(Clone, Copy, Debug, PartialEq, Eq, Structural)]
pub enum CommercePaymentStatus {
    Pending,
    Succeeded,
    Failed,
    Canceled,
}

pub open spec fn payment_status_text(s: CommercePaymentStatus) -> Seq<char> {
    match s {
        CommercePaymentStatus::Pending => "pending"@,
        CommercePaymentStatus::Succeeded => "succeeded"@,
        CommercePaymentStatus::Failed => "failed"@,
        CommercePaymentStatus::Canceled => "canceled"@,
    }
}

impl CommercePaymentStatus {
    pub fn as_str(&self) -> (r: &'static str)
        ensures
            r@ == payment_status_text(*self),
    {
        match self {
            CommercePaymentStatus::Pending => "pending",
            CommercePaymentStatus::Succeeded => "succeeded",
            CommercePaymentStatus::Failed => "failed",
            CommercePaymentStatus::Canceled => "canceled",
        }
    }
}

/// The checkout label of a stored order status (trimmed, ASCII case
/// ignored); an unknown status is a storage error.
pub open spec fn order_label(value: Seq<char>) -> Option<Seq<char>> {
    let s = lower_seq(trim(value));
    if s == "draft"@ || s == "pending_payment"@ || s == "pending"@ {
        Some("pending"@)
    } else if s == "paid"@ || s == "fulfilled"@ || s == "completed"@ {
        Some("success"@)
    } else if s == "cancelled"@ || s == "canceled"@ {
        Some("failed"@)
    } else if s == "expired"@ {
        Some("expired"@)
    } else if s == "refunding"@ {
        Some("refunding"@)
    } else if s == "refunded"@ {
        Some("refunded"@)
    } else {
        None
    }
}

/// The checkout label of every stored order status (trimmed, ASCII case
/// ignored): draft, pending-payment and pending are `pending`; paid,
/// fulfilled and completed are `success`; cancelled and canceled are
/// `failed`; expired, refunding and refunded are themselves; any other
/// status has no label.
pub proof fn law_order_labels(value: Seq<char>)
    ensures
        ({
            let s = lower_seq(trim(value));
            &&& (s == "draft"@ || s == "pending_payment"@ || s == "pending"@) ==> order_label(value) == Some(
                "pending"@,
            )
            &&& (s == "paid"@ || s == "fulfilled"@ || s == "completed"@) ==> order_label(value) == Some(
                "success"@,
            )
            &&& (s == "cancelled"@ || s == "canceled"@) ==> order_label(value) == Some("failed"@)
            &&& s == "expired"@ ==> order_label(value) == Some("expired"@)
            &&& s == "refunding"@ ==> order_label(value) == Some("refunding"@)
            &&& s == "refunded"@ ==> order_label(value) == Some("refunded"@)
            &&& order_label(value).is_some() ==> (s == "draft"@ || s == "pending_payment"@ || s == "pending"@
                || s == "paid"@ || s == "fulfilled"@ || s == "completed"@ || s == "cancelled"@ || s
                == "canceled"@ || s == "expired"@ || s == "refunding"@ || s == "refunded"@)
        }),
{
    reveal_strlit("draft");
    reveal_strlit("pending_payment");
    reveal_strlit("pending");
    reveal_strlit("paid");
    reveal_strlit("fulfilled");
    reveal_strlit("completed");
    reveal_strlit("cancelled");
    reveal_strlit("canceled");
    reveal_strlit("expired");
    reveal_strlit("refunding");
    reveal_strlit("refunded");
    assert("cancelled"@[0] != "fulfilled"@[0]);
    assert("cancelled"@[1] != "completed"@[1]);
    assert("refunding"@[0] != "fulfilled"@[0] && "refunding"@[0] != "completed"@[0] && "refunding"@[0]
        != "cancelled"@[0]);
    assert("refunded"@[0] != "canceled"@[0]);
    assert("expired"@[0] != "pending"@[0]);
    assert("draft"@.len() == 5 && "pending_payment"@.len() == 15 && "pending"@.len() == 7 && "paid"@.len()
        == 4 && "fulfilled"@.len() == 9 && "completed"@.len() == 9);
}

/// The checkout label of every stored payment status (trimmed, ASCII case
/// ignored): none or pending is `pending`, succeeded is `success`, failed
/// is `failed`, canceled is `expired`; any other status has no label.
pub proof fn law_payment_labels(value: Seq<char>)
    ensures
        ({
            let s = lower_seq(trim(value));
            &&& (s.len() == 0 || s == "pending"@) ==> payment_label(value) == Some("pending"@)
            &&& s == "succeeded"@ ==> payment_label(value) == Some("success"@)
            &&& s == "failed"@ ==> payment_label(value) == Some("failed"@)
            &&& s == "canceled"@ ==> payment_label(value) == Some("expired"@)
            &&& payment_label(value).is_some() ==> (s.len() == 0 || s == "pending"@ || s == "succeeded"@
                || s == "failed"@ || s == "canceled"@)
        }),
{
    reveal_strlit("pending");
    reveal_strlit("succeeded");
    reveal_strlit("failed");
    reveal_strlit("canceled");
}

/// How the labels of a recharge checkout combine: its outcome is success
/// when any label is success, else failed when any is failed, else expired
/// when any is expired, else pending; the shown status puts the order's
/// refund states first, then the same precedence (an order label alone
/// cannot make it failed); the payment status shown is the attempt's
/// outcome when it has one, else the payment's; a success or refunded
/// checkout is completed, a failed, expired or refunding one waits, and any
/// other asks the buyer to scan the code.
pub proof fn law_checkout_label_precedence(order: Seq<char>, payment: Seq<char>, attempt: Seq<char>, recharge: Seq<char>)
    ensures
        (order == "success"@ || payment == "success"@ || attempt == "success"@) <==> recharge_status(
            order,
            payment,
            attempt,
        ) == "success"@,
        !(order == "success"@ || payment == "success"@ || attempt == "success"@) && (order == "failed"@
            || payment == "failed"@ || attempt == "failed"@) ==> recharge_status(order, payment, attempt)
            == "failed"@,
        !(order == "success"@ || payment == "success"@ || attempt == "success"@ || order == "failed"@
            || payment == "failed"@ || attempt == "failed"@) && (order == "expired"@ || payment == "expired"@
            || attempt == "expired"@) ==> recharge_status(order, payment, attempt) == "expired"@,
        !(order == "success"@ || payment == "success"@ || attempt == "success"@ || order == "failed"@
            || payment == "failed"@ || attempt == "failed"@ || order == "expired"@ || payment == "expired"@
            || attempt == "expired"@) ==> recharge_status(order, payment, attempt) == "pending"@,
        order == "refunded"@ ==> checkout_status(order, payment, attempt, recharge) == "refunded"@,
        order == "refunding"@ ==> checkout_status(order, payment, attempt, recharge) == "refunding"@,
        order != "refunded"@ && order != "refunding"@ && (recharge == "success"@ || attempt == "success"@
            || payment == "success"@ || order == "success"@) ==> checkout_status(order, payment, attempt, recharge)
            == "success"@,
        order != "refunded"@ && order != "refunding"@ && !(recharge == "success"@ || attempt == "success"@
            || payment == "success"@ || order == "success"@) && (attempt == "failed"@ || payment == "failed"@
            || recharge == "failed"@) ==> checkout_status(order, payment, attempt, recharge) == "failed"@,
        order != "refunded"@ && order != "refunding"@ && !(recharge == "success"@ || attempt == "success"@
            || payment == "success"@ || order == "success"@ || attempt == "failed"@ || payment == "failed"@
            || recharge == "failed"@) && (attempt == "expired"@ || payment == "expired"@ || order == "expired"@)
            ==> checkout_status(order, payment, attempt, recharge) == "expired"@,
        order != "refunded"@ && order != "refunding"@ && !(recharge == "success"@ || attempt == "success"@
            || payment == "success"@ || order == "success"@ || attempt == "failed"@ || payment == "failed"@
            || recharge == "failed"@ || attempt == "expired"@ || payment == "expired"@ || order == "expired"@)
            ==> checkout_status(order, payment, attempt, recharge) == "pending"@,
        (attempt == "success"@ || attempt == "failed"@ || attempt == "expired"@) ==> effective_payment_status(
            payment,
            attempt,
        ) == attempt,
        !(attempt == "success"@ || attempt == "failed"@ || attempt == "expired"@) ==> effective_payment_status(
            payment,
            attempt,
        ) == payment,
        (recharge == "success"@ || recharge == "refunded"@) ==> next_action(recharge) == "completed"@,
        (recharge == "failed"@ || recharge == "expired"@ || recharge == "refunding"@) ==> next_action(recharge)
            == "pending"@,
        !(recharge == "success"@ || recharge == "refunded"@ || recharge == "failed"@ || recharge == "expired"@
            || recharge == "refunding"@) ==> next_action(recharge) == "scan_qr"@,
{
    reveal_strlit("success");
    reveal_strlit("failed");
    reveal_strlit("expired");
    reveal_strlit("pending");
    reveal_strlit("refunded");
    reveal_strlit("refunding");
    assert("success"@.len() == 7 && "failed"@.len() == 6 && "expired"@.len() == 7 && "pending"@.len() == 7);
    assert("success"@[0] != "expired"@[0] && "success"@[0] != "pending"@[0] && "expired"@[0] != "pending"@[0]);
    assert("refunded"@.len() == 8 && "refunding"@.len() == 9);
}

/// The payment product of each method (trimmed, ASCII case ignored):
/// WeChat Pay pays natively, Alipay natively, PayPal through its checkout;
/// card, Apple Pay, Google Pay and wallet balance are their own product;
/// any other method has none. `wechat` is stored as `wechat_pay`.
pub proof fn law_payment_products(method: Seq<char>)
    ensures
        ({
            let k = lower_seq(trim(method));
            &&& k == "wechat_pay"@ ==> payment_product(method) == Some("wechat_native"@)
            &&& k == "alipay"@ ==> payment_product(method) == Some("alipay_native"@)
            &&& k == "paypal"@ ==> payment_product(method) == Some("paypal_checkout"@)
            &&& (k == "card"@ || k == "apple_pay"@ || k == "google_pay"@ || k == "wallet_balance"@)
                ==> payment_product(method) == Some(k)
            &&& payment_product(method).is_some() ==> (k == "wechat_pay"@ || k == "alipay"@ || k == "paypal"@
                || k == "card"@ || k == "apple_pay"@ || k == "google_pay"@ || k == "wallet_balance"@)
            &&& k == "wechat"@ ==> method_key(method) == "wechat_pay"@
            &&& k != "wechat"@ ==> method_key(method) == k
        }),
{
    reveal_strlit("wechat_pay");
    reveal_strlit("alipay");
    reveal_strlit("paypal");
    reveal_strlit("card");
    reveal_strlit("apple_pay");
    reveal_strlit("google_pay");
    reveal_strlit("wallet_balance");
    assert("alipay"@[0] != "paypal"@[0]);
    assert("wechat_pay"@.len() == 10 && "google_pay"@.len() == 10 && "wechat_pay"@[0] != "google_pay"@[0]);
}

pub open spec fn label_matches(r: Result<&'static str, CommerceError>, v: Option<Seq<char>>) -> bool {
    match r {
        Ok(l) => v == Some(l@),
        Err(e) => v.is_none() && e.kind == ErrorKind::Storage,
    }
}

pub fn order_status_label(value: &str) -> (r: Result<&'static str, CommerceError>)
    ensures
        label_matches(r, order_label(value@)),
{
    let s = trim_lower(value);
    if chars_eq_str(&s, "draft") || chars_eq_str(&s, "pending_payment") || chars_eq_str(&s, "pending") {
        Ok("pending")
    } else if chars_eq_str(&s, "paid") || chars_eq_str(&s, "fulfilled") || chars_eq_str(&s, "completed") {
        Ok("success")
    } else if chars_eq_str(&s, "cancelled") || chars_eq_str(&s, "canceled") {
        Ok("failed")
    } else if chars_eq_str(&s, "expired") {
        Ok("expired")
    } else if chars_eq_str(&s, "refunding") {
        Ok("refunding")
    } else if chars_eq_str(&s, "refunded") {
        Ok("refunded")
    } else {
        let mut message = chars_of("unsupported checkout order status: ");
        crate::text::append_chars(&mut message, &s);
        Err(storage(string_of(&message).as_str()))
    }
}

/// The checkout label of a stored payment (or attempt) status: none yet
/// or pending is pending, succeeded is success, failed is failed, canceled
/// is expired; anything else is a storage error.
pub open spec fn payment_label(value: Seq<char>) -> Option<Seq<char>> {
    let s = lower_seq(trim(value));
    if s.len() == 0 || s == payment_status_text(CommercePaymentStatus::Pending) {
        Some("pending"@)
    } else if s == payment_status_text(CommercePaymentStatus::Succeeded) {
        Some("success"@)
    } else if s == payment_status_text(CommercePaymentStatus::Failed) {
        Some("failed"@)
    } else if s == payment_status_text(CommercePaymentStatus::Canceled) {
        Some("expired"@)
    } else {
        None
    }
}

pub fn payment_status_label(value: &str) -> (r: Result<&'static str, CommerceError>)
    ensures
        label_matches(r, payment_label(value@)),
{
    let s = trim_lower(value);
    if s.len() == 0 || chars_eq_str(&s, CommercePaymentStatus::Pending.as_str()) {
        Ok("pending")
    } else if chars_eq_str(&s, CommercePaymentStatus::Succeeded.as_str()) {
        Ok("success")
    } else if chars_eq_str(&s, CommercePaymentStatus::Failed.as_str()) {
        Ok("failed")
    } else if chars_eq_str(&s, CommercePaymentStatus::Canceled.as_str()) {
        Ok("expired")
    } else {
        let mut message = chars_of("unsupported checkout payment status: ");
        crate::text::append_chars(&mut message, &s);
        Err(storage(string_of(&message).as_str()))
    }
}

/// The recharge outcome the labels add up to: any success wins, then any
/// failure, then any expiry; otherwise pending.
pub open spec fn recharge_status(order: Seq<char>, payment: Seq<char>, attempt: Seq<char>) -> Seq<char> {
    if attempt == "success"@ || payment == "success"@ || order == "success"@ {
        "success"@
    } else if attempt == "failed"@ || payment == "failed"@ || order == "failed"@ {
        "failed"@
    } else if attempt == "expired"@ || payment == "expired"@ || order == "expired"@ {
        "expired"@
    } else {
        "pending"@
    }
}

pub fn checkout_effective_recharge_status(
    order_status: &str,
    payment_status: &str,
    payment_attempt_status: &str,
) -> (r: String)
    ensures
        r@ == recharge_status(order_status@, payment_status@, payment_attempt_status@),
{
    let o = chars_of(order_status);
    let p = chars_of(payment_status);
    let a = chars_of(payment_attempt_status);
    if chars_eq_str(&a, "success") || chars_eq_str(&p, "success") || chars_eq_str(&o, "success") {
        "success".to_owned()
    } else if chars_eq_str(&a, "failed") || chars_eq_str(&p, "failed") || chars_eq_str(&o, "failed") {
        "failed".to_owned()
    } else if chars_eq_str(&a, "expired") || chars_eq_str(&p, "expired") || chars_eq_str(&o, "expired") {
        "expired".to_owned()
    } else {
        "pending".to_owned()
    }
}

/// The status a recharge checkout shows: refund states of the order first,
/// then success, failure, expiry, else pending.
pub open spec fn checkout_status(order: Seq<char>, payment: Seq<char>, attempt: Seq<char>, recharge: Seq<char>) -> Seq<char> {
    if order == "refunded"@ {
        "refunded"@
    } else if order == "refunding"@ {
        "refunding"@
    } else if recharge == "success"@ || attempt == "success"@ || payment == "success"@ || order
        == "success"@ {
        "success"@
    } else if attempt == "failed"@ || payment == "failed"@ || recharge == "failed"@ {
        "failed"@
    } else if attempt == "expired"@ || payment == "expired"@ || order == "expired"@ {
        "expired"@
    } else {
        "pending"@
    }
}

pub fn checkout_status_label(
    order_status: &str,
    payment_status: &str,
    payment_attempt_status: &str,
    recharge_status: &str,
) -> (r: &'static str)
    ensures
        r@ == checkout_status(order_status@, payment_status@, payment_attempt_status@, recharge_status@),
{
    let o = chars_of(order_status);
    let p = chars_of(payment_status);
    let a = chars_of(payment_attempt_status);
    let g = chars_of(recharge_status);
    if chars_eq_str(&o, "refunded") {
        "refunded"
    } else if chars_eq_str(&o, "refunding") {
        "refunding"
    } else if chars_eq_str(&g, "success") || chars_eq_str(&a, "success") || chars_eq_str(&p, "success")
        || chars_eq_str(&o, "success") {
        "success"
    } else if chars_eq_str(&a, "failed") || chars_eq_str(&p, "failed") || chars_eq_str(&g, "failed") {
        "failed"
    } else if chars_eq_str(&a, "expired") || chars_eq_str(&p, "expired") || chars_eq_str(&o, "expired") {
        "expired"
    } else {
        "pending"
    }
}

/// The payment status a checkout shows: the attempt's outcome when it has
/// one, else the payment's.
pub open spec fn effective_payment_status(payment: Seq<char>, attempt: Seq<char>) -> Seq<char> {
    if attempt == "success"@ {
        "success"@
    } else if attempt == "failed"@ {
        "failed"@
    } else if attempt == "expired"@ {
        "expired"@
    } else if payment == "success"@ {
        "success"@
    } else {
        payment
    }
}

pub fn checkout_effective_payment_status(payment_status: &str, payment_attempt_status: &str) -> (r: String)
    ensures
        r@ == effective_payment_status(payment_status@, payment_attempt_status@),
{
    let a = chars_of(payment_attempt_status);
    if chars_eq_str(&a, "success") {
        "success".to_owned()
    } else if chars_eq_str(&a, "failed") {
        "failed".to_owned()
    } else if chars_eq_str(&a, "expired") {
        "expired".to_owned()
    } else if chars_eq_str(&chars_of(payment_status), "success") {
        "success".to_owned()
    } else {
        payment_status.to_owned()
    }
}

/// What the buyer does next for a checkout status.
pub open spec fn next_action(status: Seq<char>) -> Seq<char> {
    if status == "success"@ || status == "refunded"@ {
        "completed"@
    } else if status == "failed"@ || status == "expired"@ || status == "refunding"@ {
        "pending"@
    } else {
        "scan_qr"@
    }
}

pub fn checkout_next_action(status: &str) -> (r: &'static str)
    ensures
        r@ == next_action(status@),
{
    let s = chars_of(status);
    if chars_eq_str(&s, "success") || chars_eq_str(&s, "refunded") {
        "completed"
    } else if chars_eq_str(&s, "failed") || chars_eq_str(&s, "expired") || chars_eq_str(&s, "refunding") {
        "pending"
    } else {
        "scan_qr"
    }
}

/// A payment method key as stored: trimmed, lowercased, `wechat` spelled
/// `wechat_pay`.
pub open spec fn method_key(method: Seq<char>) -> Seq<char> {
    if lower_seq(trim(method)) == "wechat"@ {
        "wechat_pay"@
    } else {
        lower_seq(trim(method))
    }
}

pub fn normalize_method_key(method: &str) -> (r: String)
    ensures
        r@ == method_key(method@),
{
    let k = trim_lower(method);
    if chars_eq_str(&k, "wechat") {
        "wechat_pay".to_owned()
    } else {
        string_of(&k)
    }
}

/// The payment product a recharge is paid with, by method.
pub open spec fn payment_product(method: Seq<char>) -> Option<Seq<char>> {
    let k = lower_seq(trim(method));
    if k == "wechat_pay"@ {
        Some("wechat_native"@)
    } else if k == "alipay"@ {
        Some("alipay_native"@)
    } else if k == "paypal"@ {
        Some("paypal_checkout"@)
    } else if k == "card"@ || k == "apple_pay"@ || k == "google_pay"@ || k == "wallet_balance"@ {
        Some(k)
    } else {
        None
    }
}

pub fn recharge_payment_product(method: &str) -> (r: Result<&'static str, CommerceError>)
    ensures
        match r {
            Ok(p) => payment_product(method@) == Some(p@),
            Err(e) => payment_product(method@).is_none() && e.kind == ErrorKind::Conflict,
        },
{
    let k = trim_lower(method);
    if chars_eq_str(&k, "wechat_pay") {
        Ok("wechat_native")
    } else if chars_eq_str(&k, "alipay") {
        Ok("alipay_native")
    } else if chars_eq_str(&k, "paypal") {
        Ok("paypal_checkout")
    } else if chars_eq_str(&k, "card") {
        Ok("card")
    } else if chars_eq_str(&k, "apple_pay") {
        Ok("apple_pay")
    } else if chars_eq_str(&k, "google_pay") {
        Ok("google_pay")
    } else if chars_eq_str(&k, "wallet_balance") {
        Ok("wallet_balance")
    } else {
        Err(conflict("recharge payment method is unavailable"))
    }
}

/// A required status column: trimmed and present, else a storage error
/// naming its source.
pub fn required_status_cell(value: Option<&str>, source: &str) -> (r: Result<String, CommerceError>)
    ensures
        match value {
            Some(v) => if trim(v@).len() > 0 {
                r.is_ok() && r->Ok_0@ == trim(v@)
            } else {
                r.is_err() && r->Err_0.kind == ErrorKind::Storage
            },
            None => r.is_err() && r->Err_0.kind == ErrorKind::Storage,
        },
{
    match value {
        Some(v) => {
            let t = trim_chars(&chars_of(v));
            if t.len() > 0 {
                return Ok(string_of(&t));
            }
        },
        None => {},
    }
    Err(missing_checkout_status_error(source))
}

/// The status column of a related row: empty when the row is absent
/// (blank relation id), else required.
pub fn related_status_cell(relation_id: Option<&str>, value: Option<&str>, source: &str) -> (r: Result<String, CommerceError>)
    ensures
        (relation_id.is_none() || trim(relation_id.unwrap()@).len() == 0) ==> r.is_ok() && r->Ok_0@.len() == 0,
        !(relation_id.is_none() || trim(relation_id.unwrap()@).len() == 0) ==> match value {
            Some(v) => if trim(v@).len() > 0 {
                r.is_ok() && r->Ok_0@ == trim(v@)
            } else {
                r.is_err() && r->Err_0.kind == ErrorKind::Storage
            },
            None => r.is_err() && r->Err_0.kind == ErrorKind::Storage,
        },
{
    let absent = match relation_id {
        Some(id) => trim_chars(&chars_of(id)).len() == 0,
        None => true,
    };
    if absent {
        return Ok(String::new());
    }
    required_status_cell(value, source)
}

/// The storage error for a checkout row without the status of `source`.
pub fn missing_checkout_status_error(source: &str) -> (r: CommerceError)
    ensures
        r.kind == ErrorKind::Storage,
        r.message@ == "missing checkout "@ + source@ + " status from database row"@,
{
    let mut message = chars_of("missing checkout ");
    append_str(&mut message, source);
    append_str(&mut message, " status from database row");
    storage(string_of(&message).as_str())
}

/// The labels a recharge checkout row reads as.
#[derive(Clone, Debug)]
pub struct CheckoutStatusLabels {
    pub order_status: String,
    pub payment_status: String,
    pub recharge_status: String,
    pub status: String,
    pub next_action: String,
    pub payment_method: String,
    pub payment_product: String,
}

/// Reads a recharge checkout's status columns: the order, payment and
/// attempt labels, the outcome they add up to, the shown status and next
/// action, and the payment method and product (the hosted cashier until an
/// attempt exists).
pub fn checkout_status_labels(
    order_status: &str,
    payment_status: &str,
    payment_attempt_status: &str,
    payment_method: &str,
    payment_attempt_id: &str,
) -> (r: Result<CheckoutStatusLabels, CommerceError>)
    ensures
        r.is_ok() ==> {
            let l = r->Ok_0;
            let o = order_label(order_status@).unwrap();
            let p = payment_label(payment_status@).unwrap();
            let a = payment_label(payment_attempt_status@).unwrap();
            &&& order_label(order_status@).is_some()
            &&& payment_label(payment_status@).is_some()
            &&& payment_label(payment_attempt_status@).is_some()
            &&& l.order_status@ == o
            &&& l.recharge_status@ == recharge_status(o, p, a)
            &&& l.status@ == checkout_status(o, p, a, recharge_status(o, p, a))
            &&& l.payment_status@ == effective_payment_status(p, a)
            &&& l.next_action@ == next_action(l.status@)
            &&& l.payment_method@ == method_key(payment_method@)
            &&& (trim(payment_attempt_id@).len() == 0 ==> l.payment_product@ == "mobile_cashier_h5"@)
            &&& (trim(payment_attempt_id@).len() > 0 ==> payment_product(l.payment_method@) == Some(
                l.payment_product@,
            ))
        },
        r.is_err() <==> (order_label(order_status@).is_none() || payment_label(payment_status@).is_none()
            || payment_label(payment_attempt_status@).is_none() || (trim(payment_attempt_id@).len() > 0
            && payment_product(method_key(payment_method@)).is_none())),
        r.is_err() ==> r->Err_0.kind == if order_label(order_status@).is_none() || payment_label(
            payment_status@,
        ).is_none() || payment_label(payment_attempt_status@).is_none() {
            ErrorKind::Storage
        } else {
            ErrorKind::Conflict
        },
{
    let o = order_status_label(order_status)?;
    let p = payment_status_label(payment_status)?;
    let a = payment_status_label(payment_attempt_status)?;
    let recharge = checkout_effective_recharge_status(o, p, a);
    let status = checkout_status_label(o, p, a, recharge.as_str());
    let method = normalize_method_key(payment_method);
    let product = if trim_chars(&chars_of(payment_attempt_id)).len() == 0 {
        "mobile_cashier_h5".to_owned()
    } else {
        recharge_payment_product(method.as_str())?.to_owned()
    };
    Ok(CheckoutStatusLabels {
        order_status: o.to_owned(),
        payment_status: checkout_effective_payment_status(p, a),
        recharge_status: recharge,
        status: status.to_owned(),
        next_action: checkout_next_action(status).to_owned(),
        payment_method: method,
        payment_product: product,
    })
}

/// The value of an integer column read as an `i64`, else as an `i32`, else
/// as decimal text (trimmed and parsed as an integer, never as a float).
pub open spec fn integer_cell_value(int64: Option<i64>, int32: Option<i32>, text: Option<Seq<char>>) -> Option<
    int,
> {
    match int64 {
        Some(v) => Some(v as int),
        None => match int32 {
            Some(v) => Some(v as int),
            None => match text {
                Some(t) => parse_i64(trim(t)),
                None => None,
            },
        },
    }
}

/// A required non-negative integer column (such as a package's bonus
/// points), given what the row yields read as each type.
pub fn required_non_negative_integer_cell(
    int64: Option<i64>,
    int32: Option<i32>,
    text: Option<&str>,
    column: &str,
) -> (r: Result<i64, CommerceError>)
    ensures
        match integer_cell_value(int64, int32, opt_view(text)) {
            None => r.is_err() && r->Err_0.kind == ErrorKind::Storage && r->Err_0.message@
                == "invalid integer column "@ + column@,
            Some(v) => if v < 0 {
                r.is_err() && r->Err_0.kind == ErrorKind::Storage && r->Err_0.message@ == "integer column "@
                    + column@ + " must not be negative"@
            } else {
                r == Ok::<i64, CommerceError>(v as i64)
            },
        },
{
    let value = match int64 {
        Some(v) => Some(v),
        None => match int32 {
            Some(v) => Some(v as i64),
            None => match text {
                Some(t) => parse_i64_chars(&trim_chars(&chars_of(t))),
                None => None,
            },
        },
    };
    match value {
        None => {
            let mut m = chars_of("invalid integer column ");
            append_str(&mut m, column);
            Err(storage(string_of(&m).as_str()))
        },
        Some(v) => {
            if v < 0 {
                let mut m = chars_of("integer column ");
                append_str(&mut m, column);
                append_str(&mut m, " must not be negative");
                Err(storage(string_of(&m).as_str()))
            } else {
                Ok(v)
            }
        },
    }
}

/// The rates used when none are configured: CNY at 1 and USD at 7.
pub fn default_currency_to_cny_rates() -> (r: Vec<(String, String)>)
    ensures
        rate_views(r@) == seq![("CNY"@, "1"@), ("USD"@, "7"@)],
        rate_keys_unique(r@),
{
    let mut rates: Vec<(String, String)> = Vec::new();
    rates.push(("CNY".to_owned(), "1".to_owned()));
    rates.push(("USD".to_owned(), "7".to_owned()));
    proof {
        assert(rate_views(rates@) =~= seq![("CNY"@, "1"@), ("USD"@, "7"@)]);
        reveal_strlit("CNY");
        reveal_strlit("USD");
        assert(rates@[0].0@ != rates@[1].0@) by {
            assert(rates@[0].0@[0] != rates@[1].0@[0]);
        }
    }
    rates
}

/// A key that has no rate differs from every key that has one.
proof fn lemma_rate_absent(rates: Seq<(String, String)>, key: Seq<char>)
    requires
        rate_for(rates, key).is_none(),
    ensures
        forall|i: int| 0 <= i < rates.len() ==> (#[trigger] rates[i]).0@ != key,
    decreases rates.len(),
{
    if rates.len() > 0 {
        lemma_rate_absent(rates.drop_first(), key);
        assert forall|i: int| 0 <= i < rates.len() implies (#[trigger] rates[i]).0@ != key by {
            if i > 0 {
                assert(rates[i] == rates.drop_first()[i - 1]);
            }
        }
    }
}

/// The rates of a settings row: the configured ones (or, when none are
/// configured, CNY at 1 and USD at 7), with CNY at 1 added when missing.
pub open spec fn settled_rates(configured: Seq<(String, String)>) -> Seq<(Seq<char>, Seq<char>)> {
    let base = if configured.len() == 0 {
        seq![("CNY"@, "1"@), ("USD"@, "7"@)]
    } else {
        configured.map_values(|p: (String, String)| (p.0@, p.1@))
    };
    if rate_for(configured, "CNY"@).is_some() {
        base
    } else if configured.len() == 0 {
        base
    } else {
        base.push(("CNY"@, "1"@))
    }
}

pub open spec fn rate_views(rates: Seq<(String, String)>) -> Seq<(Seq<char>, Seq<char>)> {
    rates.map_values(|p: (String, String)| (p.0@, p.1@))
}

fn rate_present(rates: &Vec<(String, String)>, key: &str) -> (r: bool)
    ensures
        r == rate_for(rates@, key@).is_some(),
{
    let k = chars_of(key);
    let mut i: usize = 0;
    proof {
        assert(rates@.skip(0) =~= rates@);
    }
    while i < rates.len()
        invariant
            i <= rates.len(),
            k@ == key@,
            rate_for(rates@, key@) == rate_for(rates@.skip(i as int), key@),
        decreases rates.len() - i,
    {
        proof {
            assert(rates@.skip(i as int)[0] == rates@[i as int]);
            assert(rates@.skip(i as int).drop_first() =~= rates@.skip(i + 1));
        }
        if chars_eq(&chars_of(rates[i].0.as_str()), &k) {
            return true;
        }
        i = i + 1;
    }
    proof {
        assert(rates@.skip(i as int).len() == 0);
    }
    false
}

/// The exchange settings a settings row gives: its points-per-CNY rate
/// (normalized; 10 when blank or missing), the rates of its remark (see
/// [`settled_rates`]) and its base currency (trimmed, uppercased; CNY when
/// unset).
pub fn recharge_settings_from_row(
    rate: Option<&str>,
    remark_base_currency: Option<&str>,
    remark_rates: Vec<(String, String)>,
) -> (r: RechargeSettingsModel)
    requires
        rate_keys_unique(remark_rates@),
    ensures
        r.wf(),
        r.base_points_per_cny@ == match rate {
            Some(v) => if trim(v@).len() > 0 {
                normalized_decimal(v@)
            } else {
                "10"@
            },
            None => "10"@,
        },
        rate_views(r.currency_to_cny_rates@) == settled_rates(remark_rates@),
        r.base_currency_code@ == upper_seq(trim(match remark_base_currency {
            Some(b) => b@,
            None => "CNY"@,
        })),
{
    let base_points_per_cny = match rate {
        Some(v) => {
            if trim_chars(&chars_of(v)).len() > 0 {
                normalize_decimal_string(v)
            } else {
                "10".to_owned()
            }
        },
        None => "10".to_owned(),
    };
    let had_cny = rate_present(&remark_rates, "CNY");
    let ghost configured = remark_rates@;
    let mut rates = remark_rates;
    if rates.len() == 0 {
        rates = default_currency_to_cny_rates();
    } else if !had_cny {
        rates.push(("CNY".to_owned(), "1".to_owned()));
        proof {
            assert(rate_views(rates@) =~= rate_views(configured).push(("CNY"@, "1"@)));
            lemma_rate_absent(configured, "CNY"@);
            assert forall|i: int, j: int| 0 <= i < j < rates@.len() implies (#[trigger] rates@[i]).0@
                != (#[trigger] rates@[j]).0@ by {
                if j == configured.len() {
                    assert(rates@[i] == configured[i]);
                } else {
                    assert(rates@[i] == configured[i]);
                    assert(rates@[j] == configured[j]);
                }
            }
        }
    }
    let base = match remark_base_currency {
        Some(b) => b,
        None => "CNY",
    };
    let base_currency_code = string_of(&upper_chars(&trim_chars(&chars_of(base))));
    RechargeSettingsModel { base_currency_code, base_points_per_cny, currency_to_cny_rates: rates }
}

/// A package-bound recharge must pay the package's currency and price.
pub fn ensure_command_matches_package(
    package_currency: &str,
    package_price: &str,
    command_currency: &str,
    command_amount: &str,
) -> (r: Result<(), CommerceError>)
    ensures
        r.is_ok() == (package_currency@ == command_currency@ && package_price@ == command_amount@),
        r.is_err() ==> r->Err_0.kind == ErrorKind::Validation,
{
    if !chars_eq(&chars_of(package_currency), &chars_of(command_currency)) {
        return Err(validation("recharge currency code does not match package currency"));
    }
    if !chars_eq(&chars_of(package_price), &chars_of(command_amount)) {
        return Err(validation("recharge amount does not match package amount"));
    }
    Ok(())
}

/// The benefit a coupon order grants, as its snapshot records it (money
/// and period as stored text).
#[derive(Clone, Debug)]
pub enum CouponRedemptionBenefit {
    TokenBankCredit { grant_amount: String },
    PointsCredit { grant_amount: String },
    CashCredit { grant_amount: String },
    Subscription {
        product_id: String,
        sku_id: String,
        package_id: i64,
        period: String,
        duration_days: i64,
        daily_quota: i64,
        total_quota: i64,
    },
}

/// A required snapshot member: a string, or an integer as its decimal
/// text, that is not blank.
pub open spec fn required_text(m: Option<JsonMember>) -> Option<Seq<char>> {
    let t = match m {
        Some(JsonMember::Text(s)) => Some(s@),
        Some(JsonMember::Integer(i)) => Some(int_text(i as int)),
        _ => None,
    };
    match t {
        Some(v) => if trim(v).len() > 0 {
            Some(v)
        } else {
            None
        },
        None => None,
    }
}

/// A required positive integer member (as text, parsed).
pub open spec fn required_integer(m: Option<JsonMember>) -> Option<int> {
    match required_text(m) {
        Some(t) => match parse_i64(t) {
            Some(v) => if v > 0 {
                Some(v)
            } else {
                None
            },
            None => None,
        },
        None => None,
    }
}

/// The required text of a coupon snapshot member; a missing one is a
/// storage error naming `field`.
pub fn required_member_text(m: &Option<JsonMember>, field: &str) -> (r: Result<String, CommerceError>)
    ensures
        match r {
            Ok(v) => required_text(*m) == Some(v@),
            Err(e) => required_text(*m).is_none() && e.kind == ErrorKind::Storage,
        },
{
    let text = match m {
        Some(JsonMember::Text(s)) => Some(s.clone()),
        Some(JsonMember::Integer(i)) => Some(string_of(&i64_text(*i))),
        _ => None,
    };
    match text {
        Some(v) => {
            if trim_chars(&chars_of(v.as_str())).len() > 0 {
                return Ok(v);
            }
        },
        None => {},
    }
    let mut message = chars_of("coupon order snapshot ");
    append_str(&mut message, field);
    append_str(&mut message, " is missing");
    Err(storage(string_of(&message).as_str()))
}

/// The required positive integer of a coupon snapshot member.
pub fn required_member_integer(m: &Option<JsonMember>, field: &str) -> (r: Result<i64, CommerceError>)
    ensures
        match r {
            Ok(v) => required_integer(*m) == Some(v as int),
            Err(e) => required_integer(*m).is_none() && e.kind == ErrorKind::Storage,
        },
{
    let text = required_member_text(m, field)?;
    match parse_i64_chars(&chars_of(text.as_str())) {
        Some(v) => {
            if v > 0 {
                return Ok(v);
            }
        },
        None => {},
    }
    let mut message = chars_of("coupon order snapshot ");
    append_str(&mut message, field);
    append_str(&mut message, " is invalid");
    Err(storage(string_of(&message).as_str()))
}

/// The required text member at `pointer` of a coupon order snapshot.
pub fn required_json_text(snapshot_json: &str, pointer: &str, field: &str) -> (r: Result<String, CommerceError>)
    ensures
        match r {
            Ok(v) => required_text(json_pointer_member(snapshot_json@, pointer@)) == Some(v@),
            Err(e) => required_text(json_pointer_member(snapshot_json@, pointer@)).is_none() && e.kind
                == ErrorKind::Storage,
        },
{
    required_member_text(&json_member_at(snapshot_json, pointer), field)
}

/// The required positive integer member at `pointer` of a coupon order
/// snapshot.
pub fn required_json_integer(snapshot_json: &str, pointer: &str, field: &str) -> (r: Result<i64, CommerceError>)
    ensures
        match r {
            Ok(v) => required_integer(json_pointer_member(snapshot_json@, pointer@)) == Some(v as int),
            Err(e) => required_integer(json_pointer_member(snapshot_json@, pointer@)).is_none() && e.kind
                == ErrorKind::Storage,
        },
{
    required_member_integer(&json_member_at(snapshot_json, pointer), field)
}

/// The members of a coupon order snapshot that its benefit is read from.
#[derive(Clone, Debug)]
pub struct CouponSnapshotMembers {
    /// The whole document; `None` when the snapshot is not JSON.
    pub document: Option<JsonMember>,
    /// `couponBenefit`.
    pub benefit: Option<JsonMember>,
    /// `couponBenefit/kind`.
    pub kind: Option<JsonMember>,
    pub grant_amount: Option<JsonMember>,
    pub grant_points: Option<JsonMember>,
    pub product_id: Option<JsonMember>,
    pub sku_id: Option<JsonMember>,
    pub package_id: Option<JsonMember>,
    pub period: Option<JsonMember>,
    pub duration_days: Option<JsonMember>,
    pub daily_quota: Option<JsonMember>,
    pub total_quota: Option<JsonMember>,
}

/// The members of the snapshot `text` as JSON reads them.
pub open spec fn coupon_members(text: Seq<char>) -> CouponSnapshotMembers {
    CouponSnapshotMembers {
        document: json_pointer_member(text, Seq::empty()),
        benefit: json_pointer_member(text, "/couponBenefit"@),
        kind: json_pointer_member(text, "/couponBenefit/kind"@),
        grant_amount: json_pointer_member(text, "/couponBenefit/grantAmount"@),
        grant_points: json_pointer_member(text, "/couponBenefit/grantPoints"@),
        product_id: json_pointer_member(text, "/couponBenefit/productId"@),
        sku_id: json_pointer_member(text, "/couponBenefit/skuId"@),
        package_id: json_pointer_member(text, "/couponBenefit/packageId"@),
        period: json_pointer_member(text, "/couponBenefit/period"@),
        duration_days: json_pointer_member(text, "/couponBenefit/durationDays"@),
        daily_quota: json_pointer_member(text, "/couponBenefit/dailyQuota"@),
        total_quota: json_pointer_member(text, "/couponBenefit/totalQuota"@),
    }
}

/// The benefit kind the members name (`""` when they name none).
pub open spec fn benefit_kind(m: CouponSnapshotMembers) -> Seq<char> {
    match member_text(m.kind) {
        Some(k) => k,
        None => Seq::empty(),
    }
}

pub open spec fn storage_failure(r: Result<Option<CouponRedemptionBenefit>, CommerceError>) -> bool {
    r.is_err() && r->Err_0.kind == ErrorKind::Storage
}

/// Does `r` read the benefit the members describe? An unreadable snapshot
/// is a storage error, a snapshot without benefit has none, and the
/// benefit's kind decides which members it must carry (the first missing
/// one, in the order listed, is a storage error; so is an unknown kind).
pub open spec fn coupon_benefit_read(
    m: CouponSnapshotMembers,
    r: Result<Option<CouponRedemptionBenefit>, CommerceError>,
) -> bool {
    if m.document.is_none() {
        storage_failure(r)
    } else if m.benefit == Some(JsonMember::Absent) {
        r == Ok::<Option<CouponRedemptionBenefit>, CommerceError>(None)
    } else {
        let k = benefit_kind(m);
        if k == "token_bank_credit"@ {
            match required_text(m.grant_amount) {
                Some(g) => r matches Ok(Some(CouponRedemptionBenefit::TokenBankCredit { grant_amount })) && grant_amount@ == g,
                None => storage_failure(r),
            }
        } else if k == "points_credit"@ {
            match required_text(m.grant_points) {
                Some(g) => r matches Ok(Some(CouponRedemptionBenefit::PointsCredit { grant_amount })) && grant_amount@ == g,
                None => storage_failure(r),
            }
        } else if k == "cash_credit"@ {
            match required_text(m.grant_amount) {
                Some(g) => r matches Ok(Some(CouponRedemptionBenefit::CashCredit { grant_amount })) && grant_amount@ == g,
                None => storage_failure(r),
            }
        } else if k == "subscription"@ {
            if required_text(m.product_id).is_none() || required_text(m.sku_id).is_none()
                || required_integer(m.package_id).is_none() || required_text(m.period).is_none()
                || required_integer(m.duration_days).is_none() || required_integer(m.daily_quota).is_none()
                || required_integer(m.total_quota).is_none() {
                storage_failure(r)
            } else {
                r matches Ok(
                    Some(
                        CouponRedemptionBenefit::Subscription {
                            product_id,
                            sku_id,
                            package_id,
                            period,
                            duration_days,
                            daily_quota,
                            total_quota,
                        },
                    ),
                ) && Some(product_id@) == required_text(m.product_id) && Some(sku_id@) == required_text(m.sku_id)
                    && Some(package_id as int) == required_integer(m.package_id) && Some(period@) == required_text(
                    m.period,
                ) && Some(duration_days as int) == required_integer(m.duration_days) && Some(daily_quota as int)
                    == required_integer(m.daily_quota) && Some(total_quota as int) == required_integer(
                    m.total_quota,
                )
            }
        } else {
            storage_failure(r)
        }
    }
}

/// Reads the coupon benefit from the snapshot members (see
/// [`coupon_benefit_read`]).
pub fn coupon_benefit_from_members(m: &CouponSnapshotMembers) -> (r: Result<Option<CouponRedemptionBenefit>, CommerceError>)
    ensures
        coupon_benefit_read(*m, r),
{
    if m.document.is_none() {
        return Err(storage("invalid coupon order snapshot"));
    }
    match &m.benefit {
        Some(JsonMember::Absent) => return Ok(None),
        _ => {},
    }
    let kind = match &m.kind {
        Some(JsonMember::Text(k)) => k.clone(),
        _ => String::new(),
    };
    let k = chars_of(kind.as_str());
    if chars_eq_str(&k, "token_bank_credit") {
        let grant_amount = required_member_text(&m.grant_amount, "grantAmount")?;
        Ok(Some(CouponRedemptionBenefit::TokenBankCredit { grant_amount }))
    } else if chars_eq_str(&k, "points_credit") {
        let grant_amount = required_member_text(&m.grant_points, "grantPoints")?;
        Ok(Some(CouponRedemptionBenefit::PointsCredit { grant_amount }))
    } else if chars_eq_str(&k, "cash_credit") {
        let grant_amount = required_member_text(&m.grant_amount, "grantAmount")?;
        Ok(Some(CouponRedemptionBenefit::CashCredit { grant_amount }))
    } else if chars_eq_str(&k, "subscription") {
        let product_id = required_member_text(&m.product_id, "productId")?;
        let sku_id = required_member_text(&m.sku_id, "skuId")?;
        let package_id = required_member_integer(&m.package_id, "packageId")?;
        let period = required_member_text(&m.period, "period")?;
        let duration_days = required_member_integer(&m.duration_days, "durationDays")?;
        let daily_quota = required_member_integer(&m.daily_quota, "dailyQuota")?;
        let total_quota = required_member_integer(&m.total_quota, "totalQuota")?;
        Ok(Some(CouponRedemptionBenefit::Subscription { product_id, sku_id, package_id, period, duration_days, daily_quota, total_quota }))
    } else {
        Err(storage("coupon order snapshot has an unsupported benefit kind"))
    }
}

/// Reads the coupon benefit of an order snapshot (JSON text; see
/// [`coupon_benefit_read`]).
pub fn parse_coupon_benefit_snapshot(snapshot_json: &str) -> (r: Result<Option<CouponRedemptionBenefit>, CommerceError>)
    ensures
        coupon_benefit_read(coupon_members(snapshot_json@), r),
{
    proof {
        reveal_strlit("");
        assert(""@ =~= Seq::<char>::empty());
    }
    let members = CouponSnapshotMembers {
        document: json_member_at(snapshot_json, ""),
        benefit: json_member_at(snapshot_json, "/couponBenefit"),
        kind: json_member_at(snapshot_json, "/couponBenefit/kind"),
        grant_amount: json_member_at(snapshot_json, "/couponBenefit/grantAmount"),
        grant_points: json_member_at(snapshot_json, "/couponBenefit/grantPoints"),
        product_id: json_member_at(snapshot_json, "/couponBenefit/productId"),
        sku_id: json_member_at(snapshot_json, "/couponBenefit/skuId"),
        package_id: json_member_at(snapshot_json, "/couponBenefit/packageId"),
        period: json_member_at(snapshot_json, "/couponBenefit/period"),
        duration_days: json_member_at(snapshot_json, "/couponBenefit/durationDays"),
        daily_quota: json_member_at(snapshot_json, "/couponBenefit/dailyQuota"),
        total_quota: json_member_at(snapshot_json, "/couponBenefit/totalQuota"),
    };
    proof {
        assert(members == coupon_members(snapshot_json@));
    }
    coupon_benefit_from_members(&members)
}

} // verus!
