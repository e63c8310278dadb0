//! The order state machine of buyer and operator commands: cancel, close,
//! receipt confirmation, expiration, and the inventory gate.
use vstd::prelude::*;
use crate::error::{conflict, invalid_state, not_found, CommerceError, ErrorKind};
use crate::lifecycle::{
    opt_string_view, opt_view, order_cancel_idempotency_key, order_close_idempotency_key,
    OrderLifecycleAuditInput,
};
use crate::text::{append_str, chars_eq_str, chars_of, is_upper_ascii, lower_chars, lower_seq, string_of};

verus! {

/// A status as SQL compares it: `LOWER(COALESCE(status, ''))`.
pub open spec fn sql_status_key(status: Option<Seq<char>>) -> Seq<char> {
    match status {
        Some(s) => lower_seq(s),
        None => Seq::empty(),
    }
}

/// Orders that a buyer or operator may still cancel.
pub open spec fn is_cancellable(status: Option<Seq<char>>) -> bool {
    let k = sql_status_key(status);
    k == "draft"@ || k == "pending"@ || k == "pending_payment"@ || k == "unpaid"@
}

/// Orders whose payment window can expire.
pub open spec fn is_expirable(status: Option<Seq<char>>) -> bool {
    let k = sql_status_key(status);
    k == "draft"@ || k == "pending"@ || k == "pending_payment"@ || k == "unpaid"@ || k
        == "wait_pay"@
}

/// Orders that an operator may close.
pub open spec fn is_closable(status: Option<Seq<char>>) -> bool {
    let k = sql_status_key(status);
    k != "cancelled"@ && k != "closed"@
}

/// Orders whose receipt a buyer may confirm.
pub open spec fn is_receipt_confirmable(
    status: Option<Seq<char>>,
    fulfillment_status: Option<Seq<char>>,
) -> bool {
    let k = sql_status_key(status);
    let f = sql_status_key(fulfillment_status);
    (k == "paid"@ || k == "fulfilled"@ || k == "shipped"@) && (f == "awaiting_shipment"@ || f
        == "shipped"@)
}

/// `a.eq_ignore_ascii_case(b)`.
pub open spec fn same_ignoring_case(a: Seq<char>, b: Seq<char>) -> bool {
    lower_seq(a) == lower_seq(b)
}

/// What a lifecycle command does to an order.
#[derive(Clone, Copy, Debug, PartialEq, Eq, Structural)]
pub enum TransitionStep {
    /// The order already is in the target state: acknowledge, change nothing.
    Replay,
    /// Move the order to the target state and record the event.
    Apply,
}

pub(crate) fn key_of(status: Option<&str>) -> (r: Vec<char>)
    ensures
        r@ == sql_status_key(opt_view(status)),
{
    match status {
        Some(s) => lower_chars(&chars_of(s)),
        None => Vec::new(),
    }
}

fn is_cancellable_exec(status: Option<&str>) -> (r: bool)
    ensures
        r == is_cancellable(opt_view(status)),
{
    let k = key_of(status);
    chars_eq_str(&k, "draft") || chars_eq_str(&k, "pending") || chars_eq_str(&k, "pending_payment")
        || chars_eq_str(&k, "unpaid")
}

/// Is the order in a state from which its payment window expires?
pub fn order_is_expirable(status: Option<&str>) -> (r: bool)
    ensures
        r == is_expirable(opt_view(status)),
{
    let k = key_of(status);
    chars_eq_str(&k, "draft") || chars_eq_str(&k, "pending") || chars_eq_str(&k, "pending_payment")
        || chars_eq_str(&k, "unpaid") || chars_eq_str(&k, "wait_pay")
}

fn same_ignoring_case_exec(a: &str, b: &str) -> (r: bool)
    ensures
        r == same_ignoring_case(a@, b@),
{
    let x = lower_chars(&chars_of(a));
    let y = lower_chars(&chars_of(b));
    crate::text::chars_eq(&x, &y)
}

pub open spec fn cancel_outcome(from_status: Option<Seq<char>>) -> Result<TransitionStep, ErrorKind> {
    match from_status {
        None => Err(ErrorKind::NotFound),
        Some(s) => if same_ignoring_case(s, "cancelled"@) {
            Ok(TransitionStep::Replay)
        } else if is_cancellable(from_status) {
            Ok(TransitionStep::Apply)
        } else {
            Err(ErrorKind::Conflict)
        },
    }
}

/// Cancelling an order: a missing order is not found, a cancelled one is a
/// replay, a payable one is cancelled, and any other is a conflict.
pub fn decide_order_cancel(from_status: Option<&str>) -> (r: Result<TransitionStep, CommerceError>)
    ensures
        match r {
            Ok(step) => cancel_outcome(opt_view(from_status)) == Ok::<TransitionStep, ErrorKind>(step),
            Err(e) => cancel_outcome(opt_view(from_status)) == Err::<TransitionStep, ErrorKind>(e.kind),
        },
{
    match from_status {
        None => Err(not_found("order was not found")),
        Some(s) => {
            if same_ignoring_case_exec(s, "cancelled") {
                Ok(TransitionStep::Replay)
            } else if is_cancellable_exec(from_status) {
                Ok(TransitionStep::Apply)
            } else {
                Err(conflict("order is not cancellable or was not found"))
            }
        },
    }
}

/// The columns a cancellation writes on the order row.
#[derive(Clone, Debug)]
pub struct OrderCancellationWrite {
    pub status: String,
    pub payment_status: String,
    pub cancelled_at: String,
    pub updated_at: String,
}

/// What a buyer's or operator's cancellation writes: status `cancelled`,
/// payment status `closed`, cancelled and updated now.
pub fn order_cancellation_write(now: &str) -> (r: OrderCancellationWrite)
    ensures
        r.status@ == "cancelled"@,
        r.payment_status@ == "closed"@,
        r.cancelled_at@ == now@,
        r.updated_at@ == now@,
{
    OrderCancellationWrite {
        status: "cancelled".to_owned(),
        payment_status: "closed".to_owned(),
        cancelled_at: now.to_owned(),
        updated_at: now.to_owned(),
    }
}

pub open spec fn close_outcome(from_status: Option<Seq<char>>) -> Result<TransitionStep, ErrorKind> {
    match from_status {
        None => Err(ErrorKind::NotFound),
        Some(s) => if same_ignoring_case(s, "closed"@) {
            Ok(TransitionStep::Replay)
        } else if is_closable(from_status) {
            Ok(TransitionStep::Apply)
        } else {
            Err(ErrorKind::Conflict)
        },
    }
}

/// Closing an order: a missing order is not found, a closed one is a
/// replay, a cancelled one is a conflict, and any other is closed.
pub fn decide_order_close(from_status: Option<&str>) -> (r: Result<TransitionStep, CommerceError>)
    ensures
        match r {
            Ok(step) => close_outcome(opt_view(from_status)) == Ok::<TransitionStep, ErrorKind>(step),
            Err(e) => close_outcome(opt_view(from_status)) == Err::<TransitionStep, ErrorKind>(e.kind),
        },
{
    match from_status {
        None => Err(not_found("order was not found")),
        Some(s) => {
            let k = key_of(from_status);
            if same_ignoring_case_exec(s, "closed") {
                Ok(TransitionStep::Replay)
            } else if !chars_eq_str(&k, "cancelled") && !chars_eq_str(&k, "closed") {
                Ok(TransitionStep::Apply)
            } else {
                Err(conflict("order is not closable or was not found"))
            }
        },
    }
}

pub open spec fn receipt_outcome(
    from_status: Option<Seq<char>>,
    fulfillment_status: Option<Seq<char>>,
) -> Result<TransitionStep, ErrorKind> {
    match from_status {
        None => Err(ErrorKind::NotFound),
        Some(s) => if same_ignoring_case(s, "completed"@) {
            Ok(TransitionStep::Replay)
        } else if is_receipt_confirmable(from_status, fulfillment_status) {
            Ok(TransitionStep::Apply)
        } else {
            Err(ErrorKind::Conflict)
        },
    }
}

/// Confirming receipt: a missing order is not found, a completed one is a
/// replay, a paid or shipped order awaiting delivery is completed, and any
/// other is a conflict.
pub fn decide_receipt_confirmation(
    from_status: Option<&str>,
    fulfillment_status: Option<&str>,
) -> (r: Result<TransitionStep, CommerceError>)
    ensures
        match r {
            Ok(step) => receipt_outcome(opt_view(from_status), opt_view(fulfillment_status)) == Ok::<
                TransitionStep,
                ErrorKind,
            >(step),
            Err(e) => receipt_outcome(opt_view(from_status), opt_view(fulfillment_status)) == Err::<
                TransitionStep,
                ErrorKind,
            >(e.kind),
        },
{
    match from_status {
        None => Err(not_found("order was not found")),
        Some(s) => {
            if same_ignoring_case_exec(s, "completed") {
                return Ok(TransitionStep::Replay);
            }
            let k = key_of(from_status);
            let f = key_of(fulfillment_status);
            let status_ok = chars_eq_str(&k, "paid") || chars_eq_str(&k, "fulfilled")
                || chars_eq_str(&k, "shipped");
            let fulfillment_ok = chars_eq_str(&f, "awaiting_shipment") || chars_eq_str(&f, "shipped");
            if status_ok && fulfillment_ok {
                Ok(TransitionStep::Apply)
            } else {
                Err(conflict("order is not awaiting receipt confirmation"))
            }
        },
    }
}

/// When a guarded update changed no row: the order reached `target`
/// meanwhile (a replay) or it cannot make the transition (a conflict).
pub fn resolve_unapplied_transition(current_status: Option<&str>, target: &str) -> (r: Result<
    TransitionStep,
    CommerceError,
>)
    ensures
        match r {
            Ok(step) => step == TransitionStep::Replay && current_status.is_some()
                && same_ignoring_case(current_status.unwrap()@, target@),
            Err(e) => e.kind == ErrorKind::Conflict && !(current_status.is_some() && same_ignoring_case(
                current_status.unwrap()@,
                target@,
            )),
        },
{
    match current_status {
        Some(c) => {
            if same_ignoring_case_exec(c, target) {
                Ok(TransitionStep::Replay)
            } else {
                Err(conflict("order cannot make this transition or was not found"))
            }
        },
        None => Err(conflict("order cannot make this transition or was not found")),
    }
}

/// Orders waiting for (or already past) their inventory reservation.
pub open spec fn awaits_inventory(status: Seq<char>) -> bool {
    status == "pending_inventory"@ || status == "pending_payment"@
}

/// Activating an order whose inventory was reserved: it must be waiting
/// for the reservation (or already activated).
pub fn check_inventory_reserved_transition(status: &str) -> (r: Result<(), CommerceError>)
    ensures
        r.is_ok() == awaits_inventory(status@),
        r.is_err() ==> r->Err_0.kind == ErrorKind::InvalidState,
{
    let s = chars_of(status);
    if chars_eq_str(&s, "pending_inventory") || chars_eq_str(&s, "pending_payment") {
        Ok(())
    } else {
        Err(invalid_state("order is not waiting for inventory reservation"))
    }
}


/// An order whose payment window has elapsed, as the expiration sweep
/// lists it.
#[derive(Clone, Debug, PartialEq, Eq)]
pub struct ExpiringOrderRecord {
    pub tenant_id: String,
    pub organization_id: Option<String>,
    pub owner_user_id: String,
    pub order_id: String,
    pub fulfillment_status: Option<String>,
}

/// `o.unwrap_or(default)` over views.
pub open spec fn or_default(o: Option<Seq<char>>, default: Seq<char>) -> Seq<char> {
    match o {
        Some(v) => v,
        None => default,
    }
}

fn text_or(o: &Option<String>, default: &str) -> (r: String)
    ensures
        r@ == or_default(opt_string_view(*o), default@),
{
    match o {
        Some(v) => v.clone(),
        None => default.to_owned(),
    }
}

pub(crate) fn clone_text(o: &Option<String>) -> (r: Option<String>)
    ensures
        opt_string_view(r) == opt_string_view(*o),
{
    match o {
        Some(v) => Some(v.clone()),
        None => None,
    }
}

fn prefixed(prefix: &str, value: &str) -> (r: String)
    ensures
        r@ == prefix@ + value@,
{
    let mut v = chars_of(prefix);
    append_str(&mut v, value);
    string_of(&v)
}

/// The fields an audit input shares with the command that records it.
pub open spec fn audit_matches(
    r: OrderLifecycleAuditInput,
    tenant_id: Seq<char>,
    organization_id: Option<Seq<char>>,
    order_id: Seq<char>,
    from_status: Seq<char>,
    now: Seq<char>,
) -> bool {
    &&& r.tenant_id@ == tenant_id
    &&& opt_string_view(r.organization_id) == organization_id
    &&& r.order_id@ == order_id
    &&& r.from_status@ == from_status
    &&& r.now@ == now
}

/// The audit record of a buyer's cancellation: event `cancelled` by the
/// buyer, reason `user_cancel` unless the command names one, request
/// `cancel-{order_id}`, idempotency key `order-cancel:{order_id}`.
pub fn owner_cancel_audit_input(
    tenant_id: &str,
    organization_id: &Option<String>,
    owner_user_id: &str,
    order_id: &str,
    cancel_type: &Option<String>,
    cancel_reason: &Option<String>,
    from_status: &str,
    now: &str,
) -> (r: OrderLifecycleAuditInput)
    ensures
        audit_matches(r, tenant_id@, opt_string_view(*organization_id), order_id@, from_status@, now@),
        r.event_type@ == "cancelled"@,
        r.to_status@ == "cancelled"@,
        r.actor_type@ == "buyer"@,
        opt_string_view(r.actor_id) == Some(owner_user_id@),
        opt_string_view(r.reason_code) == Some(or_default(opt_string_view(*cancel_type), "user_cancel"@)),
        opt_string_view(r.reason_message) == opt_string_view(*cancel_reason),
        r.request_no@ == "cancel-"@ + order_id@,
        r.idempotency_key@ == "order-cancel:"@ + order_id@,
{
    OrderLifecycleAuditInput {
        tenant_id: tenant_id.to_owned(),
        organization_id: clone_text(organization_id),
        order_id: order_id.to_owned(),
        event_type: "cancelled",
        from_status: from_status.to_owned(),
        to_status: "cancelled",
        actor_type: "buyer",
        actor_id: Some(owner_user_id.to_owned()),
        reason_code: Some(text_or(cancel_type, "user_cancel")),
        reason_message: clone_text(cancel_reason),
        request_no: prefixed("cancel-", order_id),
        idempotency_key: order_cancel_idempotency_key(order_id),
        now: now.to_owned(),
    }
}

/// The audit record of an operator's cancellation: event `cancelled` by an
/// admin without actor id, reason `admin_cancel` unless the command names
/// one, request `admin-cancel-{order_id}`, idempotency key
/// `order-cancel:{order_id}`.
pub fn management_cancel_audit_input(
    tenant_id: &str,
    organization_id: &Option<String>,
    order_id: &str,
    cancel_type: &Option<String>,
    cancel_reason: &Option<String>,
    from_status: &str,
    now: &str,
) -> (r: OrderLifecycleAuditInput)
    ensures
        audit_matches(r, tenant_id@, opt_string_view(*organization_id), order_id@, from_status@, now@),
        r.event_type@ == "cancelled"@,
        r.to_status@ == "cancelled"@,
        r.actor_type@ == "admin"@,
        r.actor_id.is_none(),
        opt_string_view(r.reason_code) == Some(or_default(opt_string_view(*cancel_type), "admin_cancel"@)),
        opt_string_view(r.reason_message) == opt_string_view(*cancel_reason),
        r.request_no@ == "admin-cancel-"@ + order_id@,
        r.idempotency_key@ == "order-cancel:"@ + order_id@,
{
    OrderLifecycleAuditInput {
        tenant_id: tenant_id.to_owned(),
        organization_id: clone_text(organization_id),
        order_id: order_id.to_owned(),
        event_type: "cancelled",
        from_status: from_status.to_owned(),
        to_status: "cancelled",
        actor_type: "admin",
        actor_id: None,
        reason_code: Some(text_or(cancel_type, "admin_cancel")),
        reason_message: clone_text(cancel_reason),
        request_no: prefixed("admin-cancel-", order_id),
        idempotency_key: order_cancel_idempotency_key(order_id),
        now: now.to_owned(),
    }
}

/// The audit record of an operator closing an order: event `closed` by an
/// admin, reason `admin_close` unless the command names one, request
/// `admin-close-{order_id}`, idempotency key `order-close:{order_id}`.
pub fn management_close_audit_input(
    tenant_id: &str,
    organization_id: &Option<String>,
    order_id: &str,
    close_type: &Option<String>,
    close_reason: &Option<String>,
    from_status: &str,
    now: &str,
) -> (r: OrderLifecycleAuditInput)
    ensures
        audit_matches(r, tenant_id@, opt_string_view(*organization_id), order_id@, from_status@, now@),
        r.event_type@ == "closed"@,
        r.to_status@ == "closed"@,
        r.actor_type@ == "admin"@,
        r.actor_id.is_none(),
        opt_string_view(r.reason_code) == Some(or_default(opt_string_view(*close_type), "admin_close"@)),
        opt_string_view(r.reason_message) == opt_string_view(*close_reason),
        r.request_no@ == "admin-close-"@ + order_id@,
        r.idempotency_key@ == "order-close:"@ + order_id@,
{
    OrderLifecycleAuditInput {
        tenant_id: tenant_id.to_owned(),
        organization_id: clone_text(organization_id),
        order_id: order_id.to_owned(),
        event_type: "closed",
        from_status: from_status.to_owned(),
        to_status: "closed",
        actor_type: "admin",
        actor_id: None,
        reason_code: Some(text_or(close_type, "admin_close")),
        reason_message: clone_text(close_reason),
        request_no: prefixed("admin-close-", order_id),
        idempotency_key: order_close_idempotency_key(order_id),
        now: now.to_owned(),
    }
}

/// The audit record of a buyer confirming receipt: event `completed` by
/// the buyer, reason `buyer_confirmed_receipt`, the caller's request
/// number, idempotency key `order-receipt:{order_id}`.
pub fn receipt_confirmation_audit_input(
    tenant_id: &str,
    organization_id: &Option<String>,
    owner_user_id: &str,
    order_id: &str,
    request_no: &str,
    from_status: &str,
    now: &str,
) -> (r: OrderLifecycleAuditInput)
    ensures
        audit_matches(r, tenant_id@, opt_string_view(*organization_id), order_id@, from_status@, now@),
        r.event_type@ == "completed"@,
        r.to_status@ == "completed"@,
        r.actor_type@ == "buyer"@,
        opt_string_view(r.actor_id) == Some(owner_user_id@),
        opt_string_view(r.reason_code) == Some("buyer_confirmed_receipt"@),
        r.reason_message.is_none(),
        r.request_no@ == request_no@,
        r.idempotency_key@ == "order-receipt:"@ + order_id@,
{
    OrderLifecycleAuditInput {
        tenant_id: tenant_id.to_owned(),
        organization_id: clone_text(organization_id),
        order_id: order_id.to_owned(),
        event_type: "completed",
        from_status: from_status.to_owned(),
        to_status: "completed",
        actor_type: "buyer",
        actor_id: Some(owner_user_id.to_owned()),
        reason_code: Some("buyer_confirmed_receipt".to_owned()),
        reason_message: None,
        request_no: request_no.to_owned(),
        idempotency_key: prefixed("order-receipt:", order_id),
        now: now.to_owned(),
    }
}

/// The audit of the sweep expiring `record` from `from_status` at `now`.
pub open spec fn is_expiration_audit(
    r: OrderLifecycleAuditInput,
    record: ExpiringOrderRecord,
    from_status: Seq<char>,
    now: Seq<char>,
) -> bool {
    &&& audit_matches(r, record.tenant_id@, opt_string_view(record.organization_id), record.order_id@, from_status, now)
    &&& r.event_type@ == "expired"@
    &&& r.to_status@ == "expired"@
    &&& r.actor_type@ == "system"@
    &&& r.actor_id.is_none()
    &&& opt_string_view(r.reason_code) == Some("payment_timeout"@)
    &&& opt_string_view(r.reason_message) == Some("order payment window elapsed; automatically expired"@)
    &&& r.request_no@ == "system-expire-"@ + record.order_id@
    &&& r.idempotency_key@ == "order-expire:"@ + record.order_id@
}

/// The audit record of the expiration sweep: event `expired` by the
/// system, reason `payment_timeout`, request `system-expire-{order_id}`,
/// idempotency key `order-expire:{order_id}`.
pub fn expiration_audit_input(record: &ExpiringOrderRecord, from_status: &str, now: &str) -> (r:
    OrderLifecycleAuditInput)
    ensures
        is_expiration_audit(r, *record, from_status@, now@),
{
    OrderLifecycleAuditInput {
        tenant_id: record.tenant_id.clone(),
        organization_id: clone_text(&record.organization_id),
        order_id: record.order_id.clone(),
        event_type: "expired",
        from_status: from_status.to_owned(),
        to_status: "expired",
        actor_type: "system",
        actor_id: None,
        reason_code: Some("payment_timeout".to_owned()),
        reason_message: Some("order payment window elapsed; automatically expired".to_owned()),
        request_no: prefixed("system-expire-", record.order_id.as_str()),
        idempotency_key: prefixed("order-expire:", record.order_id.as_str()),
        now: now.to_owned(),
    }
}

/// The sweep's step for one due order, given the status read under lock:
/// an order that is gone or no longer payable is left alone (`None`); an
/// expirable one is expired with its audit record.
pub fn plan_order_expiration(record: &ExpiringOrderRecord, locked_status: Option<&str>, now: &str) -> (r:
    Option<OrderLifecycleAuditInput>)
    ensures
        r.is_some() <==> locked_status.is_some() && is_expirable(opt_view(locked_status)),
        r.is_some() ==> is_expiration_audit(r.unwrap(), *record, locked_status.unwrap()@, now@),
{
    match locked_status {
        Some(status) => {
            if order_is_expirable(locked_status) {
                Some(expiration_audit_input(record, status, now))
            } else {
                None
            }
        },
        None => None,
    }
}

pub(crate) proof fn lemma_lower_fixed(s: Seq<char>)
    requires
        forall|i: int| 0 <= i < s.len() ==> !is_upper_ascii(#[trigger] s[i]),
    ensures
        lower_seq(s) == s,
{
    assert(lower_seq(s) =~= s);
}

/// Once a cancellation has been applied, cancelling the order again is
/// acknowledged as a replay and changes nothing.
pub proof fn law_cancel_is_idempotent(from_status: Option<Seq<char>>)
    requires
        cancel_outcome(from_status) == Ok::<TransitionStep, ErrorKind>(TransitionStep::Apply),
    ensures
        cancel_outcome(Some("cancelled"@)) == Ok::<TransitionStep, ErrorKind>(TransitionStep::Replay),
{
}

/// The order events that `calls` repeated cancellations record, starting
/// from `status`: an applied cancellation records one and leaves the order
/// `cancelled`; a replay or a refusal records none and changes nothing.
pub open spec fn repeated_cancel_events(status: Option<Seq<char>>, calls: nat) -> nat
    decreases calls,
{
    if calls == 0 {
        0
    } else if cancel_outcome(status) == Ok::<TransitionStep, ErrorKind>(TransitionStep::Apply) {
        1 + repeated_cancel_events(Some("cancelled"@), (calls - 1) as nat)
    } else {
        repeated_cancel_events(status, (calls - 1) as nat)
    }
}

/// The order events that `calls` repeated closes record (see
/// [`repeated_cancel_events`]).
pub open spec fn repeated_close_events(status: Option<Seq<char>>, calls: nat) -> nat
    decreases calls,
{
    if calls == 0 {
        0
    } else if close_outcome(status) == Ok::<TransitionStep, ErrorKind>(TransitionStep::Apply) {
        1 + repeated_close_events(Some("closed"@), (calls - 1) as nat)
    } else {
        repeated_close_events(status, (calls - 1) as nat)
    }
}

proof fn lemma_cancelled_records_nothing(calls: nat)
    ensures
        repeated_cancel_events(Some("cancelled"@), calls) == 0,
    decreases calls,
{
    if calls > 0 {
        lemma_cancelled_records_nothing((calls - 1) as nat);
    }
}

proof fn lemma_closed_records_nothing(calls: nat)
    ensures
        repeated_close_events(Some("closed"@), calls) == 0,
    decreases calls,
{
    if calls > 0 {
        lemma_closed_records_nothing((calls - 1) as nat);
    }
}

/// However often a cancellation is repeated, the order records exactly one
/// `cancelled` event: the first call applies it, every later one replays.
pub proof fn law_repeated_cancels_record_one_event(status: Option<Seq<char>>, calls: nat)
    requires
        cancel_outcome(status) == Ok::<TransitionStep, ErrorKind>(TransitionStep::Apply),
        calls >= 1,
    ensures
        repeated_cancel_events(status, calls) == 1,
{
    lemma_cancelled_records_nothing((calls - 1) as nat);
}

/// However often a close is repeated, the order records exactly one
/// `closed` event.
pub proof fn law_repeated_closes_record_one_event(status: Option<Seq<char>>, calls: nat)
    requires
        close_outcome(status) == Ok::<TransitionStep, ErrorKind>(TransitionStep::Apply),
        calls >= 1,
    ensures
        repeated_close_events(status, calls) == 1,
{
    lemma_closed_records_nothing((calls - 1) as nat);
}

/// Confirming receipt, for every stored order and fulfillment status
/// (ASCII case ignored): a missing order is not found; a completed order
/// replays; an order that is paid, fulfilled or shipped and whose
/// fulfillment is awaiting shipment or shipped is completed; any other
/// order is a conflict.
pub proof fn law_receipt_confirmation_outcomes(status: Option<Seq<char>>, fulfillment_status: Option<Seq<char>>)
    ensures
        status.is_none() ==> receipt_outcome(status, fulfillment_status) == Err::<TransitionStep, ErrorKind>(
            ErrorKind::NotFound,
        ),
        status.is_some() && lower_seq(status.unwrap()) == "completed"@ ==> receipt_outcome(status, fulfillment_status)
            == Ok::<TransitionStep, ErrorKind>(TransitionStep::Replay),
        status.is_some() && (lower_seq(status.unwrap()) == "paid"@ || lower_seq(status.unwrap()) == "fulfilled"@
            || lower_seq(status.unwrap()) == "shipped"@) && fulfillment_status.is_some() && (lower_seq(
            fulfillment_status.unwrap(),
        ) == "awaiting_shipment"@ || lower_seq(fulfillment_status.unwrap()) == "shipped"@) ==> receipt_outcome(
            status,
            fulfillment_status,
        ) == Ok::<TransitionStep, ErrorKind>(TransitionStep::Apply),
        status.is_some() && lower_seq(status.unwrap()) != "completed"@ && !((lower_seq(status.unwrap()) == "paid"@
            || lower_seq(status.unwrap()) == "fulfilled"@ || lower_seq(status.unwrap()) == "shipped"@)
            && fulfillment_status.is_some() && (lower_seq(fulfillment_status.unwrap()) == "awaiting_shipment"@
            || lower_seq(fulfillment_status.unwrap()) == "shipped"@)) ==> receipt_outcome(status, fulfillment_status)
            == Err::<TransitionStep, ErrorKind>(ErrorKind::Conflict),
{
    reveal_strlit("completed");
    reveal_strlit("paid");
    reveal_strlit("fulfilled");
    reveal_strlit("shipped");
    reveal_strlit("awaiting_shipment");
    lemma_lower_fixed("completed"@);
    assert("fulfilled"@[0] != "completed"@[0]);
    if fulfillment_status.is_none() {
        assert(sql_status_key(fulfillment_status) =~= Seq::<char>::empty());
    }
}

/// Cancelling, for every stored status (ASCII case ignored): a missing
/// order is not found; a cancelled one replays; a draft, pending,
/// pending-payment or unpaid one is cancelled; any other is a conflict.
pub proof fn law_cancel_outcomes(status: Option<Seq<char>>)
    ensures
        status.is_none() ==> cancel_outcome(status) == Err::<TransitionStep, ErrorKind>(ErrorKind::NotFound),
        status.is_some() && lower_seq(status.unwrap()) == "cancelled"@ ==> cancel_outcome(status) == Ok::<
            TransitionStep,
            ErrorKind,
        >(TransitionStep::Replay),
        status.is_some() && (lower_seq(status.unwrap()) == "draft"@ || lower_seq(status.unwrap()) == "pending"@
            || lower_seq(status.unwrap()) == "pending_payment"@ || lower_seq(status.unwrap()) == "unpaid"@)
            ==> cancel_outcome(status) == Ok::<TransitionStep, ErrorKind>(TransitionStep::Apply),
        status.is_some() && !(lower_seq(status.unwrap()) == "cancelled"@ || lower_seq(status.unwrap()) == "draft"@
            || lower_seq(status.unwrap()) == "pending"@ || lower_seq(status.unwrap()) == "pending_payment"@
            || lower_seq(status.unwrap()) == "unpaid"@) ==> cancel_outcome(status) == Err::<
            TransitionStep,
            ErrorKind,
        >(ErrorKind::Conflict),
{
    reveal_strlit("cancelled");
    reveal_strlit("draft");
    reveal_strlit("pending");
    reveal_strlit("pending_payment");
    reveal_strlit("unpaid");
    lemma_lower_fixed("cancelled"@);
}

/// Closing, for every stored status (ASCII case ignored): a missing order
/// is not found; a closed one replays; a cancelled one is a conflict; any
/// other is closed.
pub proof fn law_close_outcomes(status: Option<Seq<char>>)
    ensures
        status.is_none() ==> close_outcome(status) == Err::<TransitionStep, ErrorKind>(ErrorKind::NotFound),
        status.is_some() && lower_seq(status.unwrap()) == "closed"@ ==> close_outcome(status) == Ok::<
            TransitionStep,
            ErrorKind,
        >(TransitionStep::Replay),
        status.is_some() && lower_seq(status.unwrap()) == "cancelled"@ ==> close_outcome(status) == Err::<
            TransitionStep,
            ErrorKind,
        >(ErrorKind::Conflict),
        status.is_some() && lower_seq(status.unwrap()) != "closed"@ && lower_seq(status.unwrap()) != "cancelled"@
            ==> close_outcome(status) == Ok::<TransitionStep, ErrorKind>(TransitionStep::Apply),
{
    reveal_strlit("cancelled");
    reveal_strlit("closed");
    lemma_lower_fixed("closed"@);
}

/// The payment window of an order can expire exactly when its stored
/// status (ASCII case ignored) is draft, pending, pending-payment, unpaid
/// or wait-pay.
pub proof fn law_expirable_statuses(status: Option<Seq<char>>)
    ensures
        is_expirable(status) <==> status.is_some() && (lower_seq(status.unwrap()) == "draft"@ || lower_seq(
            status.unwrap(),
        ) == "pending"@ || lower_seq(status.unwrap()) == "pending_payment"@ || lower_seq(status.unwrap())
            == "unpaid"@ || lower_seq(status.unwrap()) == "wait_pay"@),
{
    reveal_strlit("draft");
    reveal_strlit("pending");
    reveal_strlit("pending_payment");
    reveal_strlit("unpaid");
    reveal_strlit("wait_pay");
    if status.is_none() {
        assert(sql_status_key(status) =~= Seq::<char>::empty());
    }
}

/// Once an order has been closed, closing it again is a replay.
pub proof fn law_close_is_idempotent(from_status: Option<Seq<char>>)
    requires
        close_outcome(from_status) == Ok::<TransitionStep, ErrorKind>(TransitionStep::Apply),
    ensures
        close_outcome(Some("closed"@)) == Ok::<TransitionStep, ErrorKind>(TransitionStep::Replay),
{
}

/// Once receipt has been confirmed (order `completed`, fulfillment
/// `delivered`), confirming again is a replay.
pub proof fn law_receipt_confirmation_is_idempotent(
    from_status: Option<Seq<char>>,
    fulfillment_status: Option<Seq<char>>,
)
    requires
        receipt_outcome(from_status, fulfillment_status) == Ok::<TransitionStep, ErrorKind>(
            TransitionStep::Apply,
        ),
    ensures
        receipt_outcome(Some("completed"@), Some("delivered"@)) == Ok::<TransitionStep, ErrorKind>(
            TransitionStep::Replay,
        ),
{
}

/// An order that has been paid cannot be cancelled: the command is a
/// conflict, whatever the case of the stored status.
pub proof fn law_paid_order_cannot_be_cancelled(status: Seq<char>)
    requires
        lower_seq(status) == "paid"@,
    ensures
        cancel_outcome(Some(status)) == Err::<TransitionStep, ErrorKind>(ErrorKind::Conflict),
{
    reveal_strlit("paid");
    reveal_strlit("cancelled");
    reveal_strlit("draft");
    reveal_strlit("pending");
    reveal_strlit("pending_payment");
    reveal_strlit("unpaid");
    lemma_lower_fixed("cancelled"@);
    assert(lower_seq(status).len() != lower_seq("cancelled"@).len());
}

/// A cancelled order cannot be closed.
pub proof fn law_cancelled_order_cannot_be_closed(status: Seq<char>)
    requires
        lower_seq(status) == "cancelled"@,
    ensures
        close_outcome(Some(status)) == Err::<TransitionStep, ErrorKind>(ErrorKind::Conflict),
{
    reveal_strlit("cancelled");
    reveal_strlit("closed");
    lemma_lower_fixed("closed"@);
    assert(lower_seq(status).len() != lower_seq("closed"@).len());
}

/// Orders that reached a final state (cancelled, closed, expired,
/// completed) are never picked up by the expiration sweep.
pub proof fn law_final_orders_never_expire(status: Seq<char>)
    requires
        lower_seq(status) == "cancelled"@ || lower_seq(status) == "closed"@ || lower_seq(status)
            == "expired"@ || lower_seq(status) == "completed"@,
    ensures
        !is_expirable(Some(status)),
{
    reveal_strlit("cancelled");
    reveal_strlit("closed");
    reveal_strlit("expired");
    reveal_strlit("completed");
    reveal_strlit("draft");
    reveal_strlit("pending");
    reveal_strlit("pending_payment");
    reveal_strlit("unpaid");
    reveal_strlit("wait_pay");
    let k = lower_seq(status);
    assert(k.len() == 9 || k.len() == 6 || k.len() == 7);
    assert(k != "draft"@);
    assert(k != "unpaid"@) by {
        if k.len() == 6 {
            assert(k[0] != "unpaid"@[0]);
        }
    }
    assert(k != "pending"@) by {
        if k.len() == 7 {
            assert(k[0] != "pending"@[0]);
        }
    }
    assert(k != "pending_payment"@);
    assert(k != "wait_pay"@);
}

} // verus!
