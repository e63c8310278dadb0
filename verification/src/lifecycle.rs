//! The order lifecycle: storage identities, audit events, and the state
//! machines that settle payments, refunds, cancellation, closing, receipt
//! and expiration.
use vstd::prelude::*;
use crate::error::{CommerceError, ErrorKind};
use crate::text::{
    append_chars, append_str, chars_eq_str, chars_of, is_ws, lower_seq, string_of, trim, trim_chars,
    trim_lower,
};

verus! {

/// Organization scope stored for platform (organization-less) orders.
pub const PLATFORM_ORGANIZATION_SCOPE_SENTINEL: &'static str = "0";

/// The organization scope a row stores: the trimmed organization id, or
/// the platform sentinel `"0"` when it is missing or blank.
pub open spec fn organization_scope(organization_id: Option<Seq<char>>) -> Seq<char> {
    match organization_id {
        Some(o) => if trim(o).len() > 0 {
            trim(o)
        } else {
            "0"@
        },
        None => "0"@,
    }
}

/// A stored organization scope normalizes to itself: rows written with
/// the normalized scope are found again by queries that normalize theirs.
pub proof fn law_organization_scope_is_stable(organization_id: Option<Seq<char>>)
    ensures
        organization_scope(Some(organization_scope(organization_id))) == organization_scope(organization_id),
{
    reveal_strlit("0");
    match organization_id {
        Some(o) => {
            crate::text::lemma_trim_idempotent(o);
        },
        None => {},
    }
    assert(trim("0"@) == "0"@) by {
        assert(!crate::text::is_ws('0'));
        assert(crate::text::trim_start("0"@) == "0"@);
        assert(crate::text::trim_end("0"@) == "0"@);
    }
}

pub open spec fn opt_view(o: Option<&str>) -> Option<Seq<char>> {
    match o {
        Some(s) => Some(s@),
        None => None,
    }
}

pub open spec fn opt_string_view(o: Option<String>) -> Option<Seq<char>> {
    match o {
        Some(s) => Some(s@),
        None => None,
    }
}

pub fn normalize_organization_scope(organization_id: Option<&str>) -> (r: String)
    ensures
        r@ == organization_scope(opt_view(organization_id)),
{
    match organization_id {
        Some(o) => {
            let raw = chars_of(o);
            let t = trim_chars(&raw);
            if t.len() > 0 {
                string_of(&t)
            } else {
                PLATFORM_ORGANIZATION_SCOPE_SENTINEL.to_owned()
            }
        },
        None => PLATFORM_ORGANIZATION_SCOPE_SENTINEL.to_owned(),
    }
}

fn concat2(a: &str, b: &str) -> (r: String)
    ensures
        r@ == a@ + b@,
{
    let mut v = chars_of(a);
    append_str(&mut v, b);
    string_of(&v)
}

/// The idempotency key of an order cancellation: `order-cancel:{order_id}`.
pub fn order_cancel_idempotency_key(order_id: &str) -> (r: String)
    ensures
        r@ == "order-cancel:"@ + order_id@,
{
    concat2("order-cancel:", order_id)
}

/// The idempotency key of an order close: `order-close:{order_id}`.
pub fn order_close_idempotency_key(order_id: &str) -> (r: String)
    ensures
        r@ == "order-close:"@ + order_id@,
{
    concat2("order-close:", order_id)
}

/// A character kept in a storage id; every other character becomes `-`.
pub open spec fn is_storage_id_char(c: char) -> bool {
    ||| ('a' <= c && c <= 'z')
    ||| ('A' <= c && c <= 'Z')
    ||| ('0' <= c && c <= '9')
    ||| c == '-'
    ||| c == '_'
    ||| c == '.'
}

pub open spec fn storage_id_part(s: Seq<char>) -> Seq<char> {
    s.map_values(|c: char| if is_storage_id_char(c) { c } else { '-' })
}

/// The parts sanitised and joined with `-`.
pub open spec fn storage_id(parts: Seq<Seq<char>>) -> Seq<char>
    decreases parts.len(),
{
    if parts.len() == 0 {
        Seq::empty()
    } else if parts.len() == 1 {
        storage_id_part(parts[0])
    } else {
        storage_id(parts.drop_last()) + seq!['-'] + storage_id_part(parts.last())
    }
}

/// Storage ids hold only ASCII letters, digits, `-`, `_` and `.`,
/// whatever the parts they are made of.
pub proof fn law_storage_ids_use_safe_characters(parts: Seq<Seq<char>>)
    ensures
        forall|i: int| 0 <= i < storage_id(parts).len() ==> is_storage_id_char(#[trigger] storage_id(parts)[i]),
    decreases parts.len(),
{
    if parts.len() == 1 {
        assert forall|i: int| 0 <= i < storage_id(parts).len() implies is_storage_id_char(
            #[trigger] storage_id(parts)[i],
        ) by {
            assert(storage_id(parts)[i] == storage_id_part(parts[0])[i]);
        }
    } else if parts.len() > 1 {
        law_storage_ids_use_safe_characters(parts.drop_last());
        let head = storage_id(parts.drop_last());
        let tail = storage_id_part(parts.last());
        assert forall|i: int| 0 <= i < storage_id(parts).len() implies is_storage_id_char(
            #[trigger] storage_id(parts)[i],
        ) by {
            if i < head.len() {
                assert(storage_id(parts)[i] == head[i]);
            } else if i == head.len() {
                assert(storage_id(parts)[i] == '-');
            } else {
                assert(storage_id(parts)[i] == tail[i - head.len() - 1]);
            }
        }
    }
}

pub open spec fn str_views(parts: Seq<&str>) -> Seq<Seq<char>> {
    parts.map_values(|p: &str| p@)
}

fn storage_id_part_exec(s: &str) -> (r: Vec<char>)
    ensures
        r@ == storage_id_part(s@),
{
    let v = chars_of(s);
    let mut r: Vec<char> = Vec::new();
    let mut i: usize = 0;
    while i < v.len()
        invariant
            i <= v.len(),
            r@ =~= storage_id_part(v@.take(i as int)),
        decreases v.len() - i,
    {
        let c = v[i];
        let keep = ('a' <= c && c <= 'z') || ('A' <= c && c <= 'Z') || ('0' <= c && c <= '9') || c
            == '-' || c == '_' || c == '.';
        if keep {
            r.push(c);
        } else {
            r.push('-');
        }
        i = i + 1;
        proof {
            assert(v@.take(i as int) =~= v@.take(i - 1).push(v@[i - 1]));
        }
    }
    proof {
        assert(v@.take(v.len() as int) =~= v@);
    }
    r
}

/// A deterministic storage id built from `parts`: each part keeps ASCII
/// letters, digits, `-`, `_` and `.`, turns every other character into
/// `-`, and the parts are joined with `-`.
pub fn stable_order_storage_id(parts: &[&str]) -> (r: String)
    ensures
        r@ == storage_id(str_views(parts@)),
{
    let mut v: Vec<char> = Vec::new();
    let mut i: usize = 0;
    while i < parts.len()
        invariant
            i <= parts.len(),
            v@ == storage_id(str_views(parts@.take(i as int))),
        decreases parts.len() - i,
    {
        let piece = storage_id_part_exec(parts[i]);
        proof {
            assert(str_views(parts@.take(i + 1)).drop_last() =~= str_views(parts@.take(i as int)));
            assert(str_views(parts@.take(i + 1)).last() == parts@[i as int]@);
        }
        if i > 0 {
            v.push('-');
        } else {
            proof {
                assert(str_views(parts@.take(1)).len() == 1);
            }
        }
        append_chars(&mut v, &piece);
        i = i + 1;
    }
    proof {
        assert(parts@.take(parts@.len() as int) =~= parts@);
    }
    string_of(&v)
}

/// What a lifecycle transition records in the order event log (and, for
/// cancellations, the cancellation log).
#[derive(Clone, Debug)]
pub struct OrderLifecycleAuditInput {
    pub tenant_id: String,
    pub organization_id: Option<String>,
    pub order_id: String,
    pub event_type: &'static str,
    pub from_status: String,
    pub to_status: &'static str,
    pub actor_type: &'static str,
    pub actor_id: Option<String>,
    pub reason_code: Option<String>,
    pub reason_message: Option<String>,
    pub request_no: String,
    pub idempotency_key: String,
    pub now: String,
}

/// The order event insert; every placeholder is bound by
/// [`order_event_bind_values`] in order.
pub const ORDER_EVENT_INSERT_SQL: &'static str = "INSERT INTO commerce_order_event (id, tenant_id, organization_id, event_no, order_id, event_type, from_status, to_status, actor_type, actor_id, reason_code, message, payload_json, request_id, idempotency_key, created_at) VALUES ($1, $2, $3, $4, $5, $6, $7, $8, $9, $10, $11, $12, '{}', $13, $14, $15)";

/// The order cancellation insert; every placeholder is bound by
/// [`order_cancellation_bind_values`] in order.
pub const ORDER_CANCELLATION_INSERT_SQL: &'static str = "INSERT INTO commerce_order_cancellation (id, tenant_id, order_id, status, reason_code, reason_message, created_at) VALUES ($1, $2, $3, 'completed', $4, $5, $6)";

/// The id of the event an audit input records.
pub open spec fn order_event_id(input: OrderLifecycleAuditInput) -> Seq<char> {
    storage_id(
        seq![
            "order-event"@,
            input.tenant_id@,
            input.order_id@,
            input.event_type@,
            input.idempotency_key@,
        ],
    )
}

/// The values bound to `$1..$15` of [`ORDER_EVENT_INSERT_SQL`].
pub open spec fn order_event_values(input: OrderLifecycleAuditInput) -> Seq<Option<Seq<char>>> {
    seq![
        Some(order_event_id(input)),
        Some(input.tenant_id@),
        Some(organization_scope(opt_string_view(input.organization_id))),
        Some("OE-"@ + input.event_type@ + "-"@ + input.request_no@),
        Some(input.order_id@),
        Some(input.event_type@),
        Some(input.from_status@),
        Some(input.to_status@),
        Some(input.actor_type@),
        opt_string_view(input.actor_id),
        opt_string_view(input.reason_code),
        opt_string_view(input.reason_message),
        Some(input.request_no@),
        Some(input.idempotency_key@),
        Some(input.now@),
    ]
}

/// The values bound to `$1..$6` of [`ORDER_CANCELLATION_INSERT_SQL`].
pub open spec fn order_cancellation_values(input: OrderLifecycleAuditInput) -> Seq<
    Option<Seq<char>>,
> {
    seq![
        Some(storage_id(seq!["order-cancellation"@, input.tenant_id@, input.order_id@, input.idempotency_key@])),
        Some(input.tenant_id@),
        Some(input.order_id@),
        Some(
            match input.reason_code {
                Some(c) => c@,
                None => "user_cancel"@,
            },
        ),
        opt_string_view(input.reason_message),
        Some(input.now@),
    ]
}

pub open spec fn opt_string_views(v: Seq<Option<String>>) -> Seq<Option<Seq<char>>> {
    v.map_values(|o: Option<String>| opt_string_view(o))
}

/// `o.as_deref()`.
pub fn opt_str(o: &Option<String>) -> (r: Option<&str>)
    ensures
        opt_view(r) == opt_string_view(*o),
{
    match o {
        Some(s) => Some(s.as_str()),
        None => None,
    }
}

fn clone_opt(o: &Option<String>) -> (r: Option<String>)
    ensures
        opt_string_view(r) == opt_string_view(*o),
{
    match o {
        Some(s) => Some(s.clone()),
        None => None,
    }
}

/// The values of an order event row, in placeholder order.
pub fn order_event_bind_values(input: &OrderLifecycleAuditInput) -> (r: Vec<Option<String>>)
    ensures
        opt_string_views(r@) == order_event_values(*input),
        r@.len() == 15,
{
    let parts: [&str; 5] = [
        "order-event",
        input.tenant_id.as_str(),
        input.order_id.as_str(),
        input.event_type,
        input.idempotency_key.as_str(),
    ];
    let id = stable_order_storage_id(parts.as_slice());
    proof {
        assert(str_views(parts@) =~= seq![
            "order-event"@,
            input.tenant_id@,
            input.order_id@,
            input.event_type@,
            input.idempotency_key@,
        ]);
    }
    let mut event_no = chars_of("OE-");
    append_str(&mut event_no, input.event_type);
    append_str(&mut event_no, "-");
    append_str(&mut event_no, input.request_no.as_str());
    let mut r: Vec<Option<String>> = Vec::new();
    r.push(Some(id));
    r.push(Some(input.tenant_id.clone()));
    r.push(Some(normalize_organization_scope(opt_str(&input.organization_id))));
    r.push(Some(string_of(&event_no)));
    r.push(Some(input.order_id.clone()));
    r.push(Some(input.event_type.to_owned()));
    r.push(Some(input.from_status.clone()));
    r.push(Some(input.to_status.to_owned()));
    r.push(Some(input.actor_type.to_owned()));
    r.push(clone_opt(&input.actor_id));
    r.push(clone_opt(&input.reason_code));
    r.push(clone_opt(&input.reason_message));
    r.push(Some(input.request_no.clone()));
    r.push(Some(input.idempotency_key.clone()));
    r.push(Some(input.now.clone()));
    proof {
        assert(opt_string_views(r@) =~= order_event_values(*input));
    }
    r
}

/// The values of an order cancellation row, in placeholder order.
pub fn order_cancellation_bind_values(input: &OrderLifecycleAuditInput) -> (r: Vec<Option<String>>)
    ensures
        opt_string_views(r@) == order_cancellation_values(*input),
        r@.len() == 6,
{
    let parts: [&str; 4] = [
        "order-cancellation",
        input.tenant_id.as_str(),
        input.order_id.as_str(),
        input.idempotency_key.as_str(),
    ];
    let id = stable_order_storage_id(parts.as_slice());
    proof {
        assert(str_views(parts@) =~= seq![
            "order-cancellation"@,
            input.tenant_id@,
            input.order_id@,
            input.idempotency_key@,
        ]);
    }
    let reason = match &input.reason_code {
        Some(c) => c.clone(),
        None => "user_cancel".to_owned(),
    };
    let mut r: Vec<Option<String>> = Vec::new();
    r.push(Some(id));
    r.push(Some(input.tenant_id.clone()));
    r.push(Some(input.order_id.clone()));
    r.push(Some(reason));
    r.push(clone_opt(&input.reason_message));
    r.push(Some(input.now.clone()));
    proof {
        assert(opt_string_views(r@) =~= order_cancellation_values(*input));
    }
    r
}

} // verus!
