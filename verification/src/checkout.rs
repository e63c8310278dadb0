//! Checkout sessions, quotes and the owner orders created from them:
//! idempotent creation, storage identities, amounts, and the order plan.
use vstd::prelude::*;
use crate::error::{conflict, invalid_state, storage, CommerceError, ErrorKind};
use crate::inventory::PhysicalInventoryLine;
use crate::json::{json_member_at, json_pointer_member, member_text, JsonMember};
use crate::lifecycle::{
    normalize_organization_scope, opt_string_view, opt_view, organization_scope, stable_order_storage_id,
    storage_id, str_views,
};
use crate::partner::OrderPartnerSnapshot;
use crate::money::{multiply_money_amount, running_total_overflows, seq_sum, sum_money_amounts};
use crate::settlement::{is_success_payment, payment_status_is_success};
use crate::text::{
    append_str, chars_eq, chars_eq_str, chars_of, int_text, lower_chars, lower_seq, nat_text,
    nat_text_exec, parse_i64, parse_i64_chars, string_of, trim, trim_chars, trim_lower,
};
use crate::transitions::{key_of, lemma_lower_fixed, same_ignoring_case, sql_status_key};

verus! {

/// Idempotency scope of checkout session creation.
pub const CHECKOUT_SESSION_CREATE_SCOPE: &'static str = "checkout.sessions.create";

/// Idempotency scope of checkout quote creation.
pub const CHECKOUT_QUOTE_CREATE_SCOPE: &'static str = "checkout.sessions.quotes.create";

/// Which checkout command an idempotency record guards.
#[derive(Clone, Copy, Debug, PartialEq, Eq, Structural)]
pub enum CheckoutCommandKind {
    Session,
    Quote,
}

/// A stored idempotency record of a checkout command.
#[derive(Clone, Debug)]
pub struct CheckoutIdempotencyRecord {
    pub request_hash: String,
    pub status: String,
    pub response_json: Option<String>,
}

/// What a checkout command does about its idempotency key.
#[derive(Clone, Copy, Debug, PartialEq, Eq, Structural)]
pub enum IdempotencyStep {
    /// The command completed before: answer with the stored response.
    Replay,
    /// The key is held by an unfinished attempt: take it over and run.
    Refresh,
    /// The key is new: lock it and run.
    Insert,
}

/// A stored idempotency record as its request hash and status.
pub open spec fn record_view(record: Option<CheckoutIdempotencyRecord>) -> Option<(Seq<char>, Seq<char>)> {
    match record {
        Some(rec) => Some((rec.request_hash@, rec.status@)),
        None => None,
    }
}

pub open spec fn step_outcome(r: Result<IdempotencyStep, CommerceError>) -> Result<IdempotencyStep, ErrorKind> {
    match r {
        Ok(step) => Ok(step),
        Err(e) => Err(e.kind),
    }
}

/// What a checkout command does about its idempotency record (see
/// [`checkout_idempotency_step`]).
pub open spec fn idempotency_outcome(
    record: Option<(Seq<char>, Seq<char>)>,
    request_hash: Seq<char>,
    kind: CheckoutCommandKind,
) -> Result<IdempotencyStep, ErrorKind> {
    match record {
        None => Ok(IdempotencyStep::Insert),
        Some((hash, status)) => if kind == CheckoutCommandKind::Session && status == "completed"@ {
            Ok(IdempotencyStep::Replay)
        } else if hash != request_hash {
            Err(ErrorKind::Conflict)
        } else if status == "completed"@ {
            Ok(IdempotencyStep::Replay)
        } else {
            Ok(IdempotencyStep::Refresh)
        },
    }
}

/// What every stored record means for a checkout command: an unknown key
/// is new; a completed session replays whatever request comes with its
/// key; otherwise a record whose request hash differs from the request is
/// a conflict, whatever its status; a completed record of the same
/// request replays; an unfinished one of the same request is taken over.
pub proof fn law_idempotency_outcomes(
    record: Option<(Seq<char>, Seq<char>)>,
    request_hash: Seq<char>,
    kind: CheckoutCommandKind,
)
    ensures
        record.is_none() ==> idempotency_outcome(record, request_hash, kind) == Ok::<IdempotencyStep, ErrorKind>(
            IdempotencyStep::Insert,
        ),
        record.is_some() && kind == CheckoutCommandKind::Session && record.unwrap().1 == "completed"@
            ==> idempotency_outcome(record, request_hash, kind) == Ok::<IdempotencyStep, ErrorKind>(
            IdempotencyStep::Replay,
        ),
        record.is_some() && kind == CheckoutCommandKind::Quote && record.unwrap().0 != request_hash
            ==> idempotency_outcome(record, request_hash, kind) == Err::<IdempotencyStep, ErrorKind>(
            ErrorKind::Conflict,
        ),
        record.is_some() && record.unwrap().1 != "completed"@ && record.unwrap().0 != request_hash
            ==> idempotency_outcome(record, request_hash, kind) == Err::<IdempotencyStep, ErrorKind>(
            ErrorKind::Conflict,
        ),
        record.is_some() && record.unwrap().0 == request_hash && record.unwrap().1 == "completed"@
            ==> idempotency_outcome(record, request_hash, kind) == Ok::<IdempotencyStep, ErrorKind>(
            IdempotencyStep::Replay,
        ),
        record.is_some() && record.unwrap().0 == request_hash && record.unwrap().1 != "completed"@
            ==> idempotency_outcome(record, request_hash, kind) == Ok::<IdempotencyStep, ErrorKind>(
            IdempotencyStep::Refresh,
        ),
{
}

/// A checkout command runs once per key: once a command that was inserted
/// or took over its key has completed, the same request under that key
/// replays the stored response; a different request replays too for a
/// session and is a conflict for a quote.
pub proof fn law_completed_checkout_command_replays(
    record: Option<(Seq<char>, Seq<char>)>,
    request_hash: Seq<char>,
    other_hash: Seq<char>,
    kind: CheckoutCommandKind,
)
    requires
        idempotency_outcome(record, request_hash, kind) == Ok::<IdempotencyStep, ErrorKind>(
            IdempotencyStep::Insert,
        ) || idempotency_outcome(record, request_hash, kind) == Ok::<IdempotencyStep, ErrorKind>(
            IdempotencyStep::Refresh,
        ),
    ensures
        idempotency_outcome(Some((request_hash, "completed"@)), request_hash, kind) == Ok::<
            IdempotencyStep,
            ErrorKind,
        >(IdempotencyStep::Replay),
        other_hash != request_hash ==> idempotency_outcome(
            Some((request_hash, "completed"@)),
            other_hash,
            kind,
        ) == if kind == CheckoutCommandKind::Session {
            Ok::<IdempotencyStep, ErrorKind>(IdempotencyStep::Replay)
        } else {
            Err::<IdempotencyStep, ErrorKind>(ErrorKind::Conflict)
        },
{
}

/// A completed checkout session is found by its key alone and replays,
/// whatever request now comes with the key (a session and its completed
/// record are written together). Otherwise a recorded key reused
/// with another request is a conflict; a completed quote replays; an
/// unfinished attempt is taken over; an unknown key is new.
pub fn checkout_idempotency_step(
    record: &Option<CheckoutIdempotencyRecord>,
    request_hash: &str,
    kind: CheckoutCommandKind,
) -> (r: Result<IdempotencyStep, CommerceError>)
    ensures
        step_outcome(r) == idempotency_outcome(record_view(*record), request_hash@, kind),
{
    match record {
        None => Ok(IdempotencyStep::Insert),
        Some(rec) => {
            let completed = chars_eq_str(&chars_of(rec.status.as_str()), "completed");
            if completed && kind == CheckoutCommandKind::Session {
                Ok(IdempotencyStep::Replay)
            } else if !chars_eq(&chars_of(rec.request_hash.as_str()), &chars_of(request_hash)) {
                match kind {
                    CheckoutCommandKind::Session => Err(
                        conflict("idempotency key was used with a different checkout session request"),
                    ),
                    CheckoutCommandKind::Quote => Err(
                        conflict("idempotency key was used with a different checkout quote request"),
                    ),
                }
            } else if completed {
                Ok(IdempotencyStep::Replay)
            } else {
                Ok(IdempotencyStep::Refresh)
            }
        },
    }
}

fn storage_id3(a: &str, b: &str, c: &str) -> (r: String)
    ensures
        r@ == storage_id(seq![a@, b@, c@]),
{
    let parts: [&str; 3] = [a, b, c];
    proof {
        assert(str_views(parts@) =~= seq![a@, b@, c@]);
    }
    stable_order_storage_id(parts.as_slice())
}

fn storage_id4(a: &str, b: &str, c: &str, d: &str) -> (r: String)
    ensures
        r@ == storage_id(seq![a@, b@, c@, d@]),
{
    let parts: [&str; 4] = [a, b, c, d];
    proof {
        assert(str_views(parts@) =~= seq![a@, b@, c@, d@]);
    }
    stable_order_storage_id(parts.as_slice())
}

/// The id of the checkout session an idempotency key creates.
pub fn checkout_session_id(tenant_id: &str, idempotency_key: &str) -> (r: String)
    ensures
        r@ == storage_id(seq!["checkout-session"@, tenant_id@, idempotency_key@]),
{
    storage_id3("checkout-session", tenant_id, idempotency_key)
}

/// The id of a checkout quote.
pub fn checkout_quote_id(tenant_id: &str, session_id: &str, request_no: &str) -> (r: String)
    ensures
        r@ == storage_id(seq!["checkout-quote"@, tenant_id@, session_id@, request_no@]),
{
    storage_id4("checkout-quote", tenant_id, session_id, request_no)
}

/// The id of a checkout idempotency record.
pub fn checkout_idempotency_id(tenant_id: &str, scope: &str, idempotency_key: &str) -> (r: String)
    ensures
        r@ == storage_id(seq!["checkout-idempotency"@, tenant_id@, scope@, idempotency_key@]),
{
    storage_id4("checkout-idempotency", tenant_id, scope, idempotency_key)
}

/// The id of the `index`-th line of a checkout session.
pub fn checkout_line_id(session_id: &str, index: usize) -> (r: String)
    ensures
        r@ == session_id@ + "-line-"@ + nat_text(index as nat),
{
    let mut v = chars_of(session_id);
    append_str(&mut v, "-line-");
    let digits = nat_text_exec(index as u64);
    crate::text::append_chars(&mut v, &digits);
    string_of(&v)
}

/// The quote number of a quote command: `{request_no}:{idempotency_key}`.
pub fn checkout_quote_no(request_no: &str, idempotency_key: &str) -> (r: String)
    ensures
        r@ == request_no@ + ":"@ + idempotency_key@,
{
    let mut v = chars_of(request_no);
    append_str(&mut v, ":");
    append_str(&mut v, idempotency_key);
    string_of(&v)
}

/// A checkout expires when it is created (the order's payment window
/// governs from then on).
pub fn checkout_expires_at(now: &str) -> (r: String)
    ensures
        r@ == now@,
{
    now.to_owned()
}

/// The price of one checkout line, in minor units.
#[derive(Clone, Copy, Debug)]
pub struct CheckoutLinePrice {
    pub unit_price_minor: i64,
    pub quantity: i64,
}

/// The amounts of a checkout: each line's total, their sum as original and
/// payable amount, and no discount.
#[derive(Clone, Debug)]
pub struct CheckoutAmounts {
    pub line_totals: Vec<String>,
    pub original_amount: String,
    pub discount_amount: String,
    pub payable_amount: String,
}

pub open spec fn line_product(l: CheckoutLinePrice) -> int {
    l.unit_price_minor * l.quantity
}

pub open spec fn line_priced(l: CheckoutLinePrice) -> bool {
    l.quantity > 0 && i64::MIN <= line_product(l) <= i64::MAX
}

pub open spec fn line_products(lines: Seq<CheckoutLinePrice>) -> Seq<i64> {
    lines.map_values(|l: CheckoutLinePrice| line_product(l) as i64)
}

/// Can the checkout be priced: every line has a positive quantity and a
/// total within `i64`, and no running total leaves `i64`.
pub open spec fn checkout_priced(lines: Seq<CheckoutLinePrice>) -> bool {
    &&& forall|i: int| 0 <= i < lines.len() ==> line_priced(#[trigger] lines[i])
    &&& !running_total_overflows(line_products(lines))
}

/// Prices the lines of a checkout; a line that cannot be priced or a total
/// too large is a validation error.
pub fn checkout_amounts(lines: &Vec<CheckoutLinePrice>) -> (r: Result<CheckoutAmounts, CommerceError>)
    ensures
        r.is_ok() == checkout_priced(lines@),
        r.is_err() ==> r->Err_0.kind == ErrorKind::Validation,
        r.is_ok() ==> {
            let a = r->Ok_0;
            &&& a.line_totals@.len() == lines@.len()
            &&& forall|i: int| 0 <= i < lines@.len() ==> (#[trigger] a.line_totals@[i])@ == int_text(line_product(lines@[i]))
            &&& a.original_amount@ == int_text(seq_sum(line_products(lines@)))
            &&& a.payable_amount@ == a.original_amount@
            &&& a.discount_amount@ == "0"@
        },
{
    let mut totals: Vec<String> = Vec::new();
    let mut minors: Vec<i64> = Vec::new();
    let mut i: usize = 0;
    while i < lines.len()
        invariant
            i <= lines@.len(),
            totals@.len() == i,
            minors@ =~= line_products(lines@.take(i as int)),
            forall|k: int| 0 <= k < i ==> line_priced(#[trigger] lines@[k]),
            forall|k: int| 0 <= k < i ==> (#[trigger] totals@[k])@ == int_text(line_product(lines@[k])),
        decreases lines.len() - i,
    {
        let line = lines[i];
        let total = match multiply_money_amount(line.unit_price_minor, line.quantity) {
            Ok(t) => t,
            Err(e) => {
                proof {
                    assert(!line_priced(lines@[i as int]));
                }
                return Err(e);
            },
        };
        assert(line_priced(line));
        let product: i64 = line.unit_price_minor * line.quantity;
        totals.push(total);
        minors.push(product);
        proof {
            assert(lines@.take(i + 1) =~= lines@.take(i as int).push(lines@[i as int]));
        }
        i = i + 1;
    }
    proof {
        assert(lines@.take(lines@.len() as int) =~= lines@);
    }
    let original = sum_money_amounts(&minors)?;
    let payable = original.clone();
    Ok(CheckoutAmounts { line_totals: totals, original_amount: original, discount_amount: "0".to_owned(), payable_amount: payable })
}

/// A checkout session as answered to its owner (amounts as minor-unit
/// text).
#[derive(Clone, Debug)]
pub struct CheckoutSessionView {
    pub checkout_session_id: String,
    pub currency_code: String,
    pub discount_amount: String,
    pub original_amount: String,
    pub payable_amount: String,
    pub quote_id: Option<String>,
    pub status: String,
}

/// A checkout quote as answered to its owner.
#[derive(Clone, Debug)]
pub struct CheckoutQuoteView {
    pub checkout_session_id: String,
    pub currency_code: String,
    pub discount_amount: String,
    pub original_amount: String,
    pub payable_amount: String,
    pub quote_id: String,
}

/// The members of a stored checkout response that a replay reads.
#[derive(Clone, Debug)]
pub struct CheckoutResponseMembers {
    /// The whole document; `None` when the response is not JSON.
    pub document: Option<JsonMember>,
    pub checkout_session_id: Option<JsonMember>,
    pub status: Option<JsonMember>,
    pub quote_id: Option<JsonMember>,
    pub currency_code: Option<JsonMember>,
    pub original_amount: Option<JsonMember>,
    pub discount_amount: Option<JsonMember>,
    pub payable_amount: Option<JsonMember>,
}

/// The members of the response `text` as JSON reads them.
pub open spec fn response_members(text: Seq<char>) -> CheckoutResponseMembers {
    CheckoutResponseMembers {
        document: json_pointer_member(text, Seq::empty()),
        checkout_session_id: json_pointer_member(text, "/checkoutSessionId"@),
        status: json_pointer_member(text, "/status"@),
        quote_id: json_pointer_member(text, "/quoteId"@),
        currency_code: json_pointer_member(text, "/currencyCode"@),
        original_amount: json_pointer_member(text, "/originalAmount"@),
        discount_amount: json_pointer_member(text, "/discountAmount"@),
        payable_amount: json_pointer_member(text, "/payableAmount"@),
    }
}

fn read_response_members(text: &str) -> (r: CheckoutResponseMembers)
    ensures
        r == response_members(text@),
{
    proof {
        reveal_strlit("");
        assert(""@ =~= Seq::<char>::empty());
    }
    CheckoutResponseMembers {
        document: json_member_at(text, ""),
        checkout_session_id: json_member_at(text, "/checkoutSessionId"),
        status: json_member_at(text, "/status"),
        quote_id: json_member_at(text, "/quoteId"),
        currency_code: json_member_at(text, "/currencyCode"),
        original_amount: json_member_at(text, "/originalAmount"),
        discount_amount: json_member_at(text, "/discountAmount"),
        payable_amount: json_member_at(text, "/payableAmount"),
    }
}

fn member_string(m: &Option<JsonMember>) -> (r: Option<String>)
    ensures
        opt_string_view(r) == member_text(*m),
{
    match m {
        Some(JsonMember::Text(s)) => Some(s.clone()),
        _ => None,
    }
}

fn required_member(m: &Option<JsonMember>, missing: &str) -> (r: Result<String, CommerceError>)
    ensures
        match r {
            Ok(v) => member_text(*m) == Some(v@),
            Err(e) => member_text(*m).is_none() && e.kind == ErrorKind::Storage,
        },
{
    match member_string(m) {
        Some(v) => Ok(v),
        None => Err(storage(missing)),
    }
}

/// The six string members every stored session response carries.
pub open spec fn session_members_complete(m: CheckoutResponseMembers) -> bool {
    &&& member_text(m.checkout_session_id).is_some()
    &&& member_text(m.status).is_some()
    &&& member_text(m.currency_code).is_some()
    &&& member_text(m.original_amount).is_some()
    &&& member_text(m.discount_amount).is_some()
    &&& member_text(m.payable_amount).is_some()
}

/// Does `r` rebuild the session view the members hold? An unreadable
/// response or a missing member is a storage error.
pub open spec fn session_replayed(m: CheckoutResponseMembers, r: Result<CheckoutSessionView, CommerceError>) -> bool {
    if m.document.is_some() && session_members_complete(m) {
        &&& r.is_ok()
        &&& Some(r->Ok_0.checkout_session_id@) == member_text(m.checkout_session_id)
        &&& Some(r->Ok_0.status@) == member_text(m.status)
        &&& Some(r->Ok_0.currency_code@) == member_text(m.currency_code)
        &&& Some(r->Ok_0.original_amount@) == member_text(m.original_amount)
        &&& Some(r->Ok_0.discount_amount@) == member_text(m.discount_amount)
        &&& Some(r->Ok_0.payable_amount@) == member_text(m.payable_amount)
        &&& opt_string_view(r->Ok_0.quote_id) == member_text(m.quote_id)
    } else {
        r.is_err() && r->Err_0.kind == ErrorKind::Storage
    }
}

/// Rebuilds a session view from the members of its stored response.
pub fn checkout_session_from_members(m: &CheckoutResponseMembers) -> (r: Result<CheckoutSessionView, CommerceError>)
    ensures
        session_replayed(*m, r),
{
    if m.document.is_none() {
        return Err(storage("invalid checkout idempotency response"));
    }
    let checkout_session_id = required_member(&m.checkout_session_id, "checkout response checkoutSessionId is missing")?;
    let status = required_member(&m.status, "checkout response status is missing")?;
    let currency_code = required_member(&m.currency_code, "checkout response currencyCode is missing")?;
    let original_amount = required_member(&m.original_amount, "checkout response originalAmount is missing")?;
    let discount_amount = required_member(&m.discount_amount, "checkout response discountAmount is missing")?;
    let payable_amount = required_member(&m.payable_amount, "checkout response payableAmount is missing")?;
    let quote_id = member_string(&m.quote_id);
    Ok(CheckoutSessionView {
        checkout_session_id,
        currency_code,
        discount_amount,
        original_amount,
        payable_amount,
        quote_id,
        status,
    })
}

/// Rebuilds the session view stored with a completed idempotency record:
/// a record without response is an invalid state; otherwise see
/// [`session_replayed`].
pub fn replay_checkout_session(response_json: Option<&str>) -> (r: Result<CheckoutSessionView, CommerceError>)
    ensures
        response_json.is_none() ==> r.is_err() && r->Err_0.kind == ErrorKind::InvalidState,
        response_json.is_some() ==> session_replayed(response_members(response_json.unwrap()@), r),
{
    let text = match response_json {
        Some(t) => t,
        None => return Err(invalid_state("checkout idempotency record has no response")),
    };
    checkout_session_from_members(&read_response_members(text))
}

/// The string members every stored quote response carries.
pub open spec fn quote_members_complete(m: CheckoutResponseMembers) -> bool {
    &&& member_text(m.checkout_session_id).is_some()
    &&& member_text(m.quote_id).is_some()
    &&& member_text(m.currency_code).is_some()
    &&& member_text(m.original_amount).is_some()
    &&& member_text(m.discount_amount).is_some()
    &&& member_text(m.payable_amount).is_some()
}

/// Does `r` rebuild the quote view the members hold?
pub open spec fn quote_replayed(m: CheckoutResponseMembers, r: Result<CheckoutQuoteView, CommerceError>) -> bool {
    if m.document.is_some() && quote_members_complete(m) {
        &&& r.is_ok()
        &&& Some(r->Ok_0.checkout_session_id@) == member_text(m.checkout_session_id)
        &&& Some(r->Ok_0.quote_id@) == member_text(m.quote_id)
        &&& Some(r->Ok_0.currency_code@) == member_text(m.currency_code)
        &&& Some(r->Ok_0.original_amount@) == member_text(m.original_amount)
        &&& Some(r->Ok_0.discount_amount@) == member_text(m.discount_amount)
        &&& Some(r->Ok_0.payable_amount@) == member_text(m.payable_amount)
    } else {
        r.is_err() && r->Err_0.kind == ErrorKind::Storage
    }
}

/// Rebuilds a quote view from the members of its stored response.
pub fn checkout_quote_from_members(m: &CheckoutResponseMembers) -> (r: Result<CheckoutQuoteView, CommerceError>)
    ensures
        quote_replayed(*m, r),
{
    if m.document.is_none() {
        return Err(storage("invalid checkout quote idempotency response"));
    }
    let checkout_session_id = required_member(&m.checkout_session_id, "checkout response checkoutSessionId is missing")?;
    let quote_id = required_member(&m.quote_id, "checkout response quoteId is missing")?;
    let currency_code = required_member(&m.currency_code, "checkout response currencyCode is missing")?;
    let original_amount = required_member(&m.original_amount, "checkout response originalAmount is missing")?;
    let discount_amount = required_member(&m.discount_amount, "checkout response discountAmount is missing")?;
    let payable_amount = required_member(&m.payable_amount, "checkout response payableAmount is missing")?;
    Ok(CheckoutQuoteView {
        checkout_session_id,
        currency_code,
        discount_amount,
        original_amount,
        payable_amount,
        quote_id,
    })
}

/// Rebuilds the quote view stored with a completed idempotency record.
pub fn replay_checkout_quote(response_json: Option<&str>) -> (r: Result<CheckoutQuoteView, CommerceError>)
    ensures
        response_json.is_none() ==> r.is_err() && r->Err_0.kind == ErrorKind::InvalidState,
        response_json.is_some() ==> quote_replayed(response_members(response_json.unwrap()@), r),
{
    let text = match response_json {
        Some(t) => t,
        None => return Err(invalid_state("checkout quote idempotency record has no response")),
    };
    checkout_quote_from_members(&read_response_members(text))
}

/// The stored expiry (unix seconds) of a session or quote has passed;
/// an unreadable expiry never expires.
pub open spec fn window_expired(expires_at: Option<Seq<char>>, now_seconds: int) -> bool {
    match expires_at {
        None => false,
        Some(v) => (match parse_i64(trim(v)) {
            Some(x) => x,
            None => i64::MAX as int,
        }) <= now_seconds,
    }
}

pub fn checkout_window_expired(expires_at: Option<&str>, now_seconds: i64) -> (r: bool)
    ensures
        r == window_expired(opt_view(expires_at), now_seconds as int),
{
    match expires_at {
        None => false,
        Some(v) => {
            let at = match parse_i64_chars(&trim_chars(&chars_of(v))) {
                Some(x) => x,
                None => i64::MAX,
            };
            at <= now_seconds
        },
    }
}

/// The clock reading of a command timestamp (unix-seconds text); 0 when
/// unreadable.
pub fn timestamp_seconds(now: &str) -> (r: i64)
    ensures
        r as int == match parse_i64(trim(now@)) {
            Some(x) => x,
            None => 0,
        },
{
    match parse_i64_chars(&trim_chars(&chars_of(now))) {
        Some(x) => x,
        None => 0,
    }
}

/// A session or quote that an order or quote is created from must not have
/// expired.
pub fn ensure_checkout_window_open(expires_at: Option<&str>, now: &str, kind: CheckoutCommandKind) -> (r:
    Result<(), CommerceError>)
    ensures
        r.is_ok() == !window_expired(
            opt_view(expires_at),
            match parse_i64(trim(now@)) {
                Some(x) => x,
                None => 0,
            },
        ),
        r.is_err() ==> r->Err_0.kind == ErrorKind::InvalidState,
{
    if checkout_window_expired(expires_at, timestamp_seconds(now)) {
        match kind {
            CheckoutCommandKind::Session => Err(
                invalid_state("checkout session has expired; create a new checkout session"),
            ),
            CheckoutCommandKind::Quote => Err(
                invalid_state("checkout quote has expired; create a new checkout session"),
            ),
        }
    } else {
        Ok(())
    }
}

/// A checkout session that a quote can be made from: its stored status,
/// lowercased, is `active`, `quoted` or `open` (a missing session has none).
pub open spec fn session_quotable(status: Option<Seq<char>>) -> bool {
    sql_status_key(status) == "active"@ || sql_status_key(status) == "quoted"@ || sql_status_key(status)
        == "open"@
}

/// A quote needs a quotable session; any other is a conflict.
pub fn ensure_checkout_session_quotable(status: Option<&str>) -> (r: Result<(), CommerceError>)
    ensures
        r.is_ok() == session_quotable(opt_view(status)),
        r.is_err() ==> r->Err_0.kind == ErrorKind::Conflict,
{
    let k = key_of(status);
    if chars_eq_str(&k, "active") || chars_eq_str(&k, "quoted") || chars_eq_str(&k, "open") {
        Ok(())
    } else {
        Err(conflict("checkout session is not quotable"))
    }
}

/// Quoting leaves a session `quoted`, which can be quoted again; once an
/// order was submitted from it, it can no longer be quoted.
pub proof fn law_quoted_session_stays_quotable()
    ensures
        session_quotable(Some("quoted"@)),
        !session_quotable(Some("submitted"@)),
{
    reveal_strlit("quoted");
    reveal_strlit("submitted");
    reveal_strlit("active");
    reveal_strlit("open");
    lemma_lower_fixed("quoted"@);
    lemma_lower_fixed("submitted"@);
    assert(sql_status_key(Some("submitted"@)) =~= "submitted"@);
    assert("submitted"@.len() != "active"@.len());
    assert("submitted"@[0] != "quoted"@[0]);
    assert("submitted"@.len() != "open"@.len());
}

/// Which orders, lines and sessions count as what. An order summary shows
/// its total as paid exactly when the order is paid, completed or fulfilled
/// (ASCII case ignored) or its payment status collected money
/// (`success`, `succeeded` or `paid`, trimmed, case ignored). A line ships
/// as goods exactly when its fulfillment type (trimmed, case ignored) is
/// `physical` or `physical_shipment`. A session can be quoted exactly when
/// its stored status, lowercased, is `active`, `quoted` or `open`.
pub proof fn law_checkout_status_sets(
    status: Seq<char>,
    payment_status: Option<Seq<char>>,
    fulfillment_type: Seq<char>,
    session_status: Option<Seq<char>>,
)
    ensures
        summary_is_paid(status, payment_status) <==> (lower_seq(status) == "paid"@ || lower_seq(status)
            == "completed"@ || lower_seq(status) == "fulfilled"@ || match payment_status {
            Some(p) => lower_seq(trim(p)) == "success"@ || lower_seq(trim(p)) == "succeeded"@ || lower_seq(
                trim(p),
            ) == "paid"@,
            None => false,
        }),
        is_physical_fulfillment(fulfillment_type) <==> (lower_seq(trim(fulfillment_type)) == "physical"@
            || lower_seq(trim(fulfillment_type)) == "physical_shipment"@),
        session_quotable(session_status) <==> session_status.is_some() && (lower_seq(session_status.unwrap())
            == "active"@ || lower_seq(session_status.unwrap()) == "quoted"@ || lower_seq(
            session_status.unwrap(),
        ) == "open"@),
{
    reveal_strlit("paid");
    reveal_strlit("completed");
    reveal_strlit("fulfilled");
    lemma_lower_fixed("paid"@);
    lemma_lower_fixed("completed"@);
    lemma_lower_fixed("fulfilled"@);
    reveal_strlit("active");
    reveal_strlit("quoted");
    reveal_strlit("open");
    if session_status.is_none() {
        assert(sql_status_key(session_status) =~= Seq::<char>::empty());
    }
}

/// A checkout without selected lines cannot be quoted or ordered.
pub fn ensure_checkout_has_lines(line_count: usize) -> (r: Result<(), CommerceError>)
    ensures
        r.is_ok() == (line_count > 0),
        r.is_err() ==> r->Err_0.kind == ErrorKind::Conflict,
{
    if line_count == 0 {
        Err(conflict("checkout session has no selected lines"))
    } else {
        Ok(())
    }
}

/// A physical checkout accepts only physical SKUs priced in the checkout
/// currency (ASCII case ignored).
pub fn check_physical_checkout_line(line_currency: &str, checkout_currency: &str, physical: bool) -> (r:
    Result<(), CommerceError>)
    ensures
        r.is_ok() == (same_ignoring_case(line_currency@, checkout_currency@) && physical),
        r.is_err() ==> r->Err_0.kind == ErrorKind::Conflict,
{
    if !chars_eq(&lower_chars(&chars_of(line_currency)), &lower_chars(&chars_of(checkout_currency))) {
        return Err(conflict("checkout SKU currency does not match checkout currency"));
    }
    if !physical {
        return Err(conflict("checkout only accepts physical shipment SKUs"));
    }
    Ok(())
}

fn concat3(a: &str, b: &str, c: &str) -> (r: String)
    ensures
        r@ == a@ + b@ + c@,
{
    let mut v = chars_of(a);
    append_str(&mut v, b);
    append_str(&mut v, c);
    string_of(&v)
}

/// The order a checkout session becomes: `order-{checkout_session_id}`.
pub fn owner_order_id(checkout_session_id: &str) -> (r: String)
    ensures
        r@ == "order-"@ + checkout_session_id@,
{
    proof {
        reveal_strlit("");
    }
    let r = concat3("order-", checkout_session_id, "");
    assert(r@ =~= "order-"@ + checkout_session_id@);
    r
}

/// The order item of a checkout line: `{order_id}-item-{line_id}`.
pub fn order_item_id(order_id: &str, line_id: &str) -> (r: String)
    ensures
        r@ == order_id@ + "-item-"@ + line_id@,
{
    concat3(order_id, "-item-", line_id)
}

/// The order-total amount breakdown of an order: `{order_id}-amount`.
pub fn order_amount_breakdown_id(order_id: &str) -> (r: String)
    ensures
        r@ == order_id@ + "-amount"@,
{
    proof {
        reveal_strlit("");
    }
    let r = concat3(order_id, "-amount", "");
    assert(r@ =~= order_id@ + "-amount"@);
    r
}

/// An order's payment window ends when its checkout session expires, or
/// now when the session has no expiry.
pub fn order_expires_at(session_expires_at: &Option<String>, now: &str) -> (r: String)
    ensures
        r@ == match *session_expires_at {
            Some(e) => e@,
            None => now@,
        },
{
    match session_expires_at {
        Some(e) => e.clone(),
        None => now.to_owned(),
    }
}

/// The head row of an order created from a checkout session.
#[derive(Clone, Debug)]
pub struct OwnerOrderHead {
    pub order_id: String,
    pub order_sn: String,
    pub organization_id: String,
    pub status: String,
    pub payment_status: String,
    pub fulfillment_status: String,
    pub refund_status: String,
    pub subject: String,
    pub currency_code: String,
    pub request_no: String,
    pub idempotency_key: String,
    pub partner_id: Option<String>,
    pub expired_at: String,
}

pub open spec fn partner_id_of(snapshot: Option<OrderPartnerSnapshot>) -> Option<Seq<char>> {
    match snapshot {
        Some(p) => Some(p.partner_id@),
        None => None,
    }
}

/// The head of the order a checkout session becomes: it waits for its
/// inventory, unpaid, unfulfilled and unrefunded; its order number is the
/// request number; it records the chosen partner's id and expires with the
/// session (or now, when the session has no expiry).
pub fn new_owner_order_head(
    checkout_session_id: &str,
    organization_id: Option<&str>,
    request_no: &str,
    idempotency_key: &str,
    subject: &str,
    currency_code: &str,
    partner_snapshot: &Option<OrderPartnerSnapshot>,
    session_expires_at: &Option<String>,
    now: &str,
) -> (r: OwnerOrderHead)
    ensures
        r.order_id@ == "order-"@ + checkout_session_id@,
        r.order_sn@ == request_no@,
        r.request_no@ == request_no@,
        r.organization_id@ == organization_scope(opt_view(organization_id)),
        r.status@ == "pending_inventory"@,
        r.payment_status@ == "pending"@,
        r.fulfillment_status@ == "unfulfilled"@,
        r.refund_status@ == "none"@,
        r.subject@ == subject@,
        r.currency_code@ == currency_code@,
        r.idempotency_key@ == idempotency_key@,
        opt_string_view(r.partner_id) == partner_id_of(*partner_snapshot),
        r.expired_at@ == match *session_expires_at {
            Some(e) => e@,
            None => now@,
        },
{
    let partner_id = match partner_snapshot {
        Some(p) => Some(p.partner_id.clone()),
        None => None,
    };
    OwnerOrderHead {
        order_id: owner_order_id(checkout_session_id),
        order_sn: request_no.to_owned(),
        organization_id: normalize_organization_scope(organization_id),
        status: "pending_inventory".to_owned(),
        payment_status: "pending".to_owned(),
        fulfillment_status: "unfulfilled".to_owned(),
        refund_status: "none".to_owned(),
        subject: subject.to_owned(),
        currency_code: currency_code.to_owned(),
        request_no: request_no.to_owned(),
        idempotency_key: idempotency_key.to_owned(),
        partner_id,
        expired_at: order_expires_at(session_expires_at, now),
    }
}

/// Does an order summary show its total as paid: a paid, completed or
/// fulfilled order, or a collected payment.
pub open spec fn summary_is_paid(status: Seq<char>, payment_status: Option<Seq<char>>) -> bool {
    same_ignoring_case(status, "paid"@) || same_ignoring_case(status, "completed"@)
        || same_ignoring_case(status, "fulfilled"@) || is_success_payment(payment_status)
}

pub fn order_summary_is_paid(status: &str, payment_status: Option<&str>) -> (r: bool)
    ensures
        r == summary_is_paid(status@, opt_view(payment_status)),
{
    let k = lower_chars(&chars_of(status));
    chars_eq(&k, &lower_chars(&chars_of("paid"))) || chars_eq(&k, &lower_chars(&chars_of("completed")))
        || chars_eq(&k, &lower_chars(&chars_of("fulfilled"))) || payment_status_is_success(payment_status)
}

/// The paid amount an order summary shows: its total when paid.
pub fn order_summary_paid_amount(status: &str, payment_status: Option<&str>, total_amount: &str) -> (r:
    Option<String>)
    ensures
        summary_is_paid(status@, opt_view(payment_status)) ==> opt_string_view(r) == Some(total_amount@),
        !summary_is_paid(status@, opt_view(payment_status)) ==> r.is_none(),
{
    if order_summary_is_paid(status, payment_status) {
        Some(total_amount.to_owned())
    } else {
        None
    }
}

/// A line shipped as goods (`physical` or `physical_shipment`, trimmed,
/// ASCII case ignored).
pub open spec fn is_physical_fulfillment(fulfillment_type: Seq<char>) -> bool {
    lower_seq(trim(fulfillment_type)) == "physical"@ || lower_seq(trim(fulfillment_type))
        == "physical_shipment"@
}

/// A selected line of a checkout, as stored.
#[derive(Clone, Debug)]
pub struct CheckoutLineRow {
    pub sku_id: String,
    pub shop_id: String,
    pub quantity: i64,
    pub fulfillment_type: String,
}

pub open spec fn inventory_line_of(l: CheckoutLineRow) -> (Seq<char>, Seq<char>, i64) {
    (l.sku_id@, l.shop_id@, l.quantity)
}

/// The physical lines of a checkout, in order, as inventory lines.
pub open spec fn physical_lines(lines: Seq<CheckoutLineRow>) -> Seq<(Seq<char>, Seq<char>, i64)>
    decreases lines.len(),
{
    if lines.len() == 0 {
        Seq::empty()
    } else if is_physical_fulfillment(lines.last().fulfillment_type@) {
        physical_lines(lines.drop_last()).push(inventory_line_of(lines.last()))
    } else {
        physical_lines(lines.drop_last())
    }
}

pub open spec fn inventory_lines_view(v: Seq<PhysicalInventoryLine>) -> Seq<(Seq<char>, Seq<char>, i64)> {
    v.map_values(|l: PhysicalInventoryLine| (l.sku_id@, l.shop_id@, l.quantity))
}

/// The inventory a new order must reserve: its physical lines.
pub fn physical_inventory_lines(lines: &Vec<CheckoutLineRow>) -> (r: Vec<PhysicalInventoryLine>)
    ensures
        inventory_lines_view(r@) == physical_lines(lines@),
{
    let mut r: Vec<PhysicalInventoryLine> = Vec::new();
    let mut i: usize = 0;
    while i < lines.len()
        invariant
            i <= lines@.len(),
            inventory_lines_view(r@) =~= physical_lines(lines@.take(i as int)),
        decreases lines.len() - i,
    {
        let line = &lines[i];
        let k = trim_lower(line.fulfillment_type.as_str());
        proof {
            assert(lines@.take(i + 1).drop_last() =~= lines@.take(i as int));
            assert(lines@.take(i + 1).last() == lines@[i as int]);
        }
        if chars_eq_str(&k, "physical") || chars_eq_str(&k, "physical_shipment") {
            r.push(PhysicalInventoryLine { sku_id: line.sku_id.clone(), shop_id: line.shop_id.clone(), quantity: line.quantity });
        }
        i = i + 1;
    }
    proof {
        assert(lines@.take(lines@.len() as int) =~= lines@);
    }
    r
}

/// The title of a checkout line: its snapshot's non-blank `title`
/// (trimmed), else the SKU id.
pub open spec fn line_title(title_member: Option<JsonMember>, sku_id: Seq<char>) -> Seq<char> {
    match member_text(title_member) {
        Some(t) => if trim(t).len() > 0 {
            trim(t)
        } else {
            sku_id
        },
        None => sku_id,
    }
}

/// The title of a line whose snapshot has the `title` member given.
pub fn line_title_from_member(title_member: &Option<JsonMember>, sku_id: &str) -> (r: String)
    ensures
        r@ == line_title(*title_member, sku_id@),
{
    match member_string(title_member) {
        Some(t) => {
            let trimmed = trim_chars(&chars_of(t.as_str()));
            if trimmed.len() > 0 {
                string_of(&trimmed)
            } else {
                sku_id.to_owned()
            }
        },
        None => sku_id.to_owned(),
    }
}

/// The title of a checkout line with item snapshot `snapshot_json`.
pub fn checkout_line_title(snapshot_json: &str, sku_id: &str) -> (r: String)
    ensures
        r@ == line_title(json_pointer_member(snapshot_json@, "/title"@), sku_id@),
{
    line_title_from_member(&json_member_at(snapshot_json, "/title"), sku_id)
}

/// An owner's order counters and paid total (minor-unit text).
#[derive(Clone, Debug)]
pub struct OrderOwnerStatistics {
    pub total_orders: i64,
    pub pending_payment: i64,
    pub pending_shipment: i64,
    pub pending_receipt: i64,
    pub completed: i64,
    pub total_amount: String,
}

/// The statistics of an owner without orders (or without the order read
/// model): all zero.
pub fn empty_order_statistics() -> (r: OrderOwnerStatistics)
    ensures
        r.total_orders == 0 && r.pending_payment == 0 && r.pending_shipment == 0 && r.pending_receipt
            == 0 && r.completed == 0,
        r.total_amount@ == "0"@,
{
    OrderOwnerStatistics {
        total_orders: 0,
        pending_payment: 0,
        pending_shipment: 0,
        pending_receipt: 0,
        completed: 0,
        total_amount: "0".to_owned(),
    }
}

} // verus!
