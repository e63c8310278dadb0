//! Settlement of provider notifications on an owner order: payment success,
//! payment failure, and refund progress, each preserving terminal states.
use vstd::prelude::*;
use crate::error::{invalid_state, validation, CommerceError, ErrorKind};
use crate::lifecycle::{opt_string_view, opt_view, OrderLifecycleAuditInput};
use crate::transitions::OrderCancellationWrite;
use crate::text::{append_str, is_ws, lower_char, trim_end, trim_start, chars_eq_str, chars_of, lower_seq, string_of, trim, trim_chars, trim_lower};

verus! {

/// A status compared as stored text: trimmed and ASCII-lowercased.
pub open spec fn status_key(s: Seq<char>) -> Seq<char> {
    lower_seq(trim(s))
}

/// Does a payment status mean that money was collected?
pub open spec fn is_success_payment(payment_status: Option<Seq<char>>) -> bool {
    match payment_status {
        Some(p) => status_key(p) == "success"@ || status_key(p) == "succeeded"@ || status_key(p)
            == "paid"@,
        None => false,
    }
}

/// The terminal class of an order status, `None` for a status from which
/// the order can still move.
pub open spec fn terminal_class(order_status: Seq<char>) -> Option<Seq<char>> {
    let k = status_key(order_status);
    if k == "paid"@ {
        Some("paid"@)
    } else if k == "fulfilled"@ || k == "completed"@ || k == "finished"@ {
        Some("fulfilled"@)
    } else if k == "cancelled"@ || k == "canceled"@ {
        Some("cancelled"@)
    } else if k == "closed"@ {
        Some("closed"@)
    } else if k == "expired"@ {
        Some("expired"@)
    } else {
        None
    }
}

/// Which stored order statuses are terminal for settlement, and as what
/// (trimmed, ASCII case ignored): `paid` is paid; `fulfilled`, `completed`
/// and `finished` are fulfilled; `cancelled` and `canceled` are cancelled;
/// `closed` and `expired` are themselves; every other status is open. A
/// terminal order keeps its status when a payment success or failure is
/// settled on it; an open one becomes `paid`, or `cancelled` unless money
/// was collected.
pub proof fn law_terminal_order_classes(order_status: Seq<char>, payment_status: Option<Seq<char>>)
    ensures
        status_key(order_status) == "paid"@ ==> terminal_class(order_status) == Some("paid"@),
        status_key(order_status) == "fulfilled"@ || status_key(order_status) == "completed"@
            || status_key(order_status) == "finished"@ ==> terminal_class(order_status) == Some(
            "fulfilled"@,
        ),
        status_key(order_status) == "cancelled"@ || status_key(order_status) == "canceled"@
            ==> terminal_class(order_status) == Some("cancelled"@),
        status_key(order_status) == "closed"@ ==> terminal_class(order_status) == Some("closed"@),
        status_key(order_status) == "expired"@ ==> terminal_class(order_status) == Some("expired"@),
        terminal_class(order_status).is_some() <==> (status_key(order_status) == "paid"@ || status_key(
            order_status,
        ) == "fulfilled"@ || status_key(order_status) == "completed"@ || status_key(order_status)
            == "finished"@ || status_key(order_status) == "cancelled"@ || status_key(order_status)
            == "canceled"@ || status_key(order_status) == "closed"@ || status_key(order_status)
            == "expired"@),
        terminal_class(order_status).is_some() ==> success_preserves(order_status) && failure_preserves(
            order_status,
            payment_status,
        ),
        terminal_class(order_status).is_none() ==> !success_preserves(order_status) && (
        failure_preserves(order_status, payment_status) == is_success_payment(payment_status)),
{
    reveal_strlit("paid");
    reveal_strlit("fulfilled");
    reveal_strlit("completed");
    reveal_strlit("finished");
    reveal_strlit("cancelled");
    reveal_strlit("canceled");
    reveal_strlit("closed");
    reveal_strlit("expired");
    assert("cancelled"@[0] != "fulfilled"@[0]);
    assert("cancelled"@[1] != "completed"@[1]);
    assert("canceled"@[0] != "finished"@[0]);
    assert("expired"@[0] != "closed"@[0]);
}

/// Money was collected exactly when the payment status (trimmed, ASCII
/// case ignored) is `success`, `succeeded` or `paid`; a missing status
/// collected nothing.
pub proof fn law_collected_payment_statuses(payment_status: Option<Seq<char>>)
    ensures
        is_success_payment(payment_status) <==> match payment_status {
            Some(p) => status_key(p) == "success"@ || status_key(p) == "succeeded"@ || status_key(p)
                == "paid"@,
            None => false,
        },
{
}

pub fn payment_status_is_success(payment_status: Option<&str>) -> (r: bool)
    ensures
        r == is_success_payment(opt_view(payment_status)),
{
    match payment_status {
        Some(p) => {
            let k = trim_lower(p);
            chars_eq_str(&k, "success") || chars_eq_str(&k, "succeeded") || chars_eq_str(&k, "paid")
        },
        None => false,
    }
}

pub fn terminal_order_status(order_status: &str) -> (r: Option<&'static str>)
    ensures
        opt_view(r) == terminal_class(order_status@),
{
    let k = trim_lower(order_status);
    if chars_eq_str(&k, "paid") {
        Some("paid")
    } else if chars_eq_str(&k, "fulfilled") || chars_eq_str(&k, "completed") || chars_eq_str(
        &k,
        "finished",
    ) {
        Some("fulfilled")
    } else if chars_eq_str(&k, "cancelled") || chars_eq_str(&k, "canceled") {
        Some("cancelled")
    } else if chars_eq_str(&k, "closed") {
        Some("closed")
    } else if chars_eq_str(&k, "expired") {
        Some("expired")
    } else {
        None
    }
}

/// The attempt whose provider notification is being settled on an order.
#[derive(Clone, Debug)]
pub struct OrderPaymentSettlementAttempt {
    pub tenant_id: String,
    pub organization_id: Option<String>,
    pub owner_user_id: String,
    pub order_id: String,
    pub payment_attempt_id: Option<String>,
    pub out_trade_no: Option<String>,
}

/// What settling a payment success does to an order in a given state.
pub struct PaymentSuccessDecision {
    /// The status reported back: the preserved status, or `paid`.
    pub order_status: String,
    /// The order was already terminal, so its status is kept.
    pub terminal_order_preserved: bool,
    /// Money arrived after the order ended without payment: audit it.
    pub record_late_payment: bool,
    /// Another attempt succeeded on an order already paid: audit it.
    pub record_duplicate_payment: bool,
}

pub open spec fn success_preserves(order_status: Seq<char>) -> bool {
    terminal_class(order_status).is_some()
}

/// Settles a payment success: a terminal order keeps its status (a late
/// payment on an order that ended unpaid, or a duplicate one on an order
/// already paid, is flagged for audit); any other order becomes `paid`.
pub fn decide_payment_success(order_status: &str, payment_status: Option<&str>) -> (r:
    PaymentSuccessDecision)
    ensures
        r.terminal_order_preserved == success_preserves(order_status@),
        r.record_late_payment == (success_preserves(order_status@) && !is_success_payment(
            opt_view(payment_status),
        )),
        r.record_duplicate_payment == (success_preserves(order_status@) && is_success_payment(
            opt_view(payment_status),
        )),
        r.order_status@ == if success_preserves(order_status@) {
            order_status@
        } else {
            "paid"@
        },
{
    let preserved = terminal_order_status(order_status).is_some();
    let collected = payment_status_is_success(payment_status);
    PaymentSuccessDecision {
        order_status: if preserved {
            order_status.to_owned()
        } else {
            "paid".to_owned()
        },
        terminal_order_preserved: preserved,
        record_late_payment: preserved && !collected,
        record_duplicate_payment: preserved && collected,
    }
}

/// What settling a payment failure does to an order in a given state.
pub struct PaymentFailureDecision {
    /// The status reported back: the preserved status, or `cancelled`.
    pub order_status: String,
    /// The order is terminal or already paid, so nothing changes.
    pub terminal_order_preserved: bool,
}

pub open spec fn failure_preserves(order_status: Seq<char>, payment_status: Option<Seq<char>>) -> bool {
    terminal_class(order_status).is_some() || is_success_payment(payment_status)
}

/// Settles a payment failure or closure: an order that is terminal or has
/// collected money is preserved; any other order is cancelled.
pub fn decide_payment_failure(order_status: &str, payment_status: Option<&str>) -> (r:
    PaymentFailureDecision)
    ensures
        r.terminal_order_preserved == failure_preserves(order_status@, opt_view(payment_status)),
        r.order_status@ == if failure_preserves(order_status@, opt_view(payment_status)) {
            order_status@
        } else {
            "cancelled"@
        },
{
    let preserved = terminal_order_status(order_status).is_some() || payment_status_is_success(
        payment_status,
    );
    PaymentFailureDecision {
        order_status: if preserved {
            order_status.to_owned()
        } else {
            "cancelled".to_owned()
        },
        terminal_order_preserved: preserved,
    }
}

/// The cancellation time a payment failure records: the one already
/// recorded unless it is empty, else now.
pub open spec fn kept_cancelled_at(cancelled_at: Option<Seq<char>>, now: Seq<char>) -> Seq<char> {
    match cancelled_at {
        Some(c) => if c.len() > 0 {
            c
        } else {
            now
        },
        None => now,
    }
}

/// What a payment failure writes when it cancels an order: status
/// `cancelled`, the failure's payment status, the first cancellation time
/// kept, updated now.
pub fn payment_failure_cancellation(failure_status: &str, cancelled_at: Option<&str>, now: &str) -> (r:
    OrderCancellationWrite)
    ensures
        r.status@ == "cancelled"@,
        r.payment_status@ == failure_status@,
        r.cancelled_at@ == kept_cancelled_at(opt_view(cancelled_at), now@),
        r.updated_at@ == now@,
{
    let kept = match cancelled_at {
        Some(c) => {
            if chars_of(c).len() > 0 {
                c.to_owned()
            } else {
                now.to_owned()
            }
        },
        None => now.to_owned(),
    };
    OrderCancellationWrite {
        status: "cancelled".to_owned(),
        payment_status: failure_status.to_owned(),
        cancelled_at: kept,
        updated_at: now.to_owned(),
    }
}

/// A later payment failure keeps the first cancellation time: writing a
/// failure over a row that a failure already cancelled leaves its
/// `cancelled_at` as it was (when either time is recorded at all).
pub proof fn law_first_cancellation_time_kept(
    cancelled_at: Option<Seq<char>>,
    first_now: Seq<char>,
    later_now: Seq<char>,
)
    requires
        kept_cancelled_at(cancelled_at, first_now).len() > 0,
    ensures
        kept_cancelled_at(Some(kept_cancelled_at(cancelled_at, first_now)), later_now) == kept_cancelled_at(
            cancelled_at,
            first_now,
        ),
{
}

/// What settling a refund notification does to an order's refund status.
pub struct RefundStatusDecision {
    /// The refund status must be written.
    pub apply: bool,
    /// The refund status after the notification.
    pub refund_status: String,
    /// `refunded` was kept against a later, different notification.
    pub terminal_preserved: bool,
}

pub open spec fn current_refund_status(current: Option<Seq<char>>) -> Seq<char> {
    match current {
        Some(c) => c,
        None => "none"@,
    }
}

pub open spec fn refund_terminal_preserved(current: Option<Seq<char>>, target: Seq<char>) -> bool {
    current_refund_status(current) == "refunded"@ && target != "refunded"@
}

pub open spec fn refund_status_after(current: Option<Seq<char>>, target: Seq<char>) -> Seq<char> {
    if refund_terminal_preserved(current, target) || current_refund_status(current) == target {
        current_refund_status(current)
    } else {
        target
    }
}

/// A refund notification on every order: `refunded` is final (a later
/// different notification keeps it and is flagged), a repeat of the current
/// refund status changes nothing, and any other status is written; an
/// order without a refund status counts as `none`.
pub proof fn law_refund_status_outcomes(current: Option<Seq<char>>, target: Seq<char>)
    ensures
        current == Some("refunded"@) && target != "refunded"@ ==> refund_terminal_preserved(current, target)
            && refund_status_after(current, target) == "refunded"@,
        current != Some("refunded"@) || target == "refunded"@ ==> !refund_terminal_preserved(current, target)
            && refund_status_after(current, target) == target,
        current.is_none() ==> current_refund_status(current) == "none"@,
{
    reveal_strlit("refunded");
    reveal_strlit("none");
    assert("refunded"@.len() != "none"@.len());
}

/// Settles a refund notification: `refunded` is final, a repeat of the
/// current status changes nothing, and any other status is written.
pub fn decide_refund_status(current: Option<&str>, target: &str) -> (r: RefundStatusDecision)
    ensures
        r.terminal_preserved == refund_terminal_preserved(opt_view(current), target@),
        r.apply == !(refund_terminal_preserved(opt_view(current), target@) || current_refund_status(
            opt_view(current),
        ) == target@),
        r.refund_status@ == refund_status_after(opt_view(current), target@),
{
    let current_status = match current {
        Some(c) => chars_of(c),
        None => chars_of("none"),
    };
    let target_chars = chars_of(target);
    let is_refunded = chars_eq_str(&current_status, "refunded");
    let target_refunded = chars_eq_str(&target_chars, "refunded");
    let terminal_preserved = is_refunded && !target_refunded;
    let same = crate::text::chars_eq(&current_status, &target_chars);
    if terminal_preserved || same {
        RefundStatusDecision {
            apply: false,
            refund_status: string_of(&current_status),
            terminal_preserved,
        }
    } else {
        RefundStatusDecision { apply: true, refund_status: target.to_owned(), terminal_preserved: false }
    }
}

/// The `paid_at` of a settlement, trimmed; it must not be blank.
pub fn required_paid_at(paid_at: &str) -> (r: Result<String, CommerceError>)
    ensures
        match r {
            Ok(s) => s@ == trim(paid_at@) && s@.len() > 0,
            Err(e) => trim(paid_at@).len() == 0 && e.kind == ErrorKind::Validation,
        },
{
    let raw = chars_of(paid_at);
    let t = trim_chars(&raw);
    if t.len() == 0 {
        return Err(validation("paid_at is required"));
    }
    Ok(string_of(&t))
}

fn prefixed(prefix: &str, s: &str) -> (r: String)
    ensures
        r@ == prefix@ + s@,
{
    let mut v = chars_of(prefix);
    append_str(&mut v, s);
    string_of(&v)
}

fn clone_opt_string(o: &Option<String>) -> (r: Option<String>)
    ensures
        opt_string_view(r) == opt_string_view(*o),
{
    match o {
        Some(s) => Some(s.clone()),
        None => None,
    }
}

/// The audit of a payment that succeeded after the order had already ended
/// (its terminal class is the recorded `to_status`).
pub fn late_payment_audit_input(
    attempt: &OrderPaymentSettlementAttempt,
    order_status: &str,
    paid_at: &str,
) -> (r: Result<OrderLifecycleAuditInput, CommerceError>)
    ensures
        match r {
            Ok(a) => {
                &&& terminal_class(order_status@) == Some(a.to_status@)
                &&& a.event_type@ == "payment_succeeded_after_terminal"@
                &&& a.tenant_id@ == attempt.tenant_id@
                &&& opt_string_view(a.organization_id) == opt_string_view(attempt.organization_id)
                &&& a.order_id@ == attempt.order_id@
                &&& a.from_status@ == order_status@
                &&& a.actor_type@ == "payment"@
                &&& a.actor_id.is_none()
                &&& opt_string_view(a.reason_code) == Some("late_payment"@)
                &&& a.request_no@ == "late-payment-"@ + attempt.order_id@
                &&& a.idempotency_key@ == "order-late-payment:"@ + attempt.order_id@
                &&& a.now@ == paid_at@
            },
            Err(e) => terminal_class(order_status@).is_none() && e.kind == ErrorKind::InvalidState,
        },
{
    let to_status = match terminal_order_status(order_status) {
        Some(t) => t,
        None => {
            return Err(
                invalid_state("late-payment audit requires a cancelled, closed, or expired order"),
            );
        },
    };
    Ok(OrderLifecycleAuditInput {
        tenant_id: attempt.tenant_id.clone(),
        organization_id: clone_opt_string(&attempt.organization_id),
        order_id: attempt.order_id.clone(),
        event_type: "payment_succeeded_after_terminal",
        from_status: order_status.to_owned(),
        to_status,
        actor_type: "payment",
        actor_id: None,
        reason_code: Some("late_payment".to_owned()),
        reason_message: Some(
            "payment succeeded after terminal order state; order status was preserved".to_owned(),
        ),
        request_no: prefixed("late-payment-", attempt.order_id.as_str()),
        idempotency_key: prefixed("order-late-payment:", attempt.order_id.as_str()),
        now: paid_at.to_owned(),
    })
}

/// The audit of a second successful attempt on an order already paid.
pub fn duplicate_payment_audit_input(
    attempt: &OrderPaymentSettlementAttempt,
    order_status: &str,
    paid_at: &str,
) -> (a: OrderLifecycleAuditInput)
    ensures
        a.event_type@ == "duplicate_payment_success"@,
        a.tenant_id@ == attempt.tenant_id@,
        opt_string_view(a.organization_id) == opt_string_view(attempt.organization_id),
        a.order_id@ == attempt.order_id@,
        a.from_status@ == order_status@,
        a.to_status@ == "paid"@,
        a.actor_type@ == "payment"@,
        a.actor_id.is_none(),
        opt_string_view(a.reason_code) == Some("duplicate_payment"@),
        a.request_no@ == "duplicate-payment-"@ + attempt.order_id@,
        a.idempotency_key@ == "order-duplicate-payment:"@ + attempt.order_id@,
        a.now@ == paid_at@,
{
    OrderLifecycleAuditInput {
        tenant_id: attempt.tenant_id.clone(),
        organization_id: clone_opt_string(&attempt.organization_id),
        order_id: attempt.order_id.clone(),
        event_type: "duplicate_payment_success",
        from_status: order_status.to_owned(),
        to_status: "paid",
        actor_type: "payment",
        actor_id: None,
        reason_code: Some("duplicate_payment".to_owned()),
        reason_message: Some(
            "another payment attempt succeeded on an already-paid order; duplicate collection needs reconciliation".to_owned(),
        ),
        request_no: prefixed("duplicate-payment-", attempt.order_id.as_str()),
        idempotency_key: prefixed("order-duplicate-payment:", attempt.order_id.as_str()),
        now: paid_at.to_owned(),
    }
}

proof fn lemma_status_key_paid()
    ensures
        status_key("paid"@) == "paid"@,
        status_key("success"@) == "success"@,
{
    reveal_strlit("paid");
    reveal_strlit("success");
    let p = "paid"@;
    assert(!is_ws(p[0]) && !is_ws(p.last()));
    assert(trim_start(p) == p);
    assert(trim_end(p) == p);
    assert(lower_seq(p) =~= p);
    let q = "success"@;
    assert(!is_ws(q[0]) && !is_ws(q.last()));
    assert(trim_start(q) == q);
    assert(trim_end(q) == q);
    assert(lower_seq(q) =~= q);
}

/// Once an order's refund status is `refunded`, no refund notification
/// changes it.
pub proof fn law_refunded_is_final(target: Seq<char>)
    ensures
        refund_status_after(Some("refunded"@), target) == "refunded"@,
{
}

/// Settling the same refund notification twice changes nothing the second
/// time.
pub proof fn law_refund_replay_is_noop(current: Option<Seq<char>>, target: Seq<char>)
    ensures
        refund_status_after(Some(refund_status_after(current, target)), target) == refund_status_after(
            current,
            target,
        ),
        refund_terminal_preserved(Some(refund_status_after(current, target)), target)
            || current_refund_status(Some(refund_status_after(current, target))) == target,
{
}

/// A payment failure never overwrites an order whose payment succeeded.
pub proof fn law_failure_keeps_collected_payment(order_status: Seq<char>)
    ensures
        failure_preserves(order_status, Some("success"@)),
{
    lemma_status_key_paid();
}

/// After a payment success is settled, a later failure notification leaves
/// the order as it is, whatever its payment status column holds.
pub proof fn law_failure_after_success_is_preserved(
    order_status: Seq<char>,
    payment_status: Option<Seq<char>>,
)
    ensures
        failure_preserves(
            if success_preserves(order_status) {
                order_status
            } else {
                "paid"@
            },
            payment_status,
        ),
{
    lemma_status_key_paid();
}

/// Settling a second success on an order already settled as paid keeps the
/// order and flags the duplicate collection, never a late payment.
pub proof fn law_repeated_success_is_flagged_duplicate(order_status: Seq<char>)
    ensures
        ({
            let settled = if success_preserves(order_status) {
                order_status
            } else {
                "paid"@
            };
            &&& success_preserves(settled)
            &&& success_preserves(settled) && is_success_payment(Some("success"@))
        }),
{
    lemma_status_key_paid();
}

} // verus!
