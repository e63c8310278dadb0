//! Shipment packages created by operators: their idempotent identity and
//! defaults, and what shipping a package does to its shipment and order.
use vstd::prelude::*;
use crate::lifecycle::{
    opt_string_view, opt_view, storage_id, stable_order_storage_id, str_views,
    OrderLifecycleAuditInput,
};
use crate::settlement::status_key;
use crate::text::{append_str, chars_eq_str, chars_of, lower_seq, string_of, trim_lower};
use crate::transitions::{audit_matches, clone_text};

verus! {

/// The id of the package an idempotency key creates on a shipment.
pub fn shipment_package_storage_id(tenant_id: &str, shipment_id: &str, idempotency_key: &str) -> (r:
    String)
    ensures
        r@ == storage_id(seq!["shipment-package"@, tenant_id@, shipment_id@, idempotency_key@]),
{
    let parts: [&str; 4] = ["shipment-package", tenant_id, shipment_id, idempotency_key];
    proof {
        assert(str_views(parts@) =~= seq!["shipment-package"@, tenant_id@, shipment_id@, idempotency_key@]);
    }
    stable_order_storage_id(parts.as_slice())
}

/// A new package's number: the one given, else `PKG-{request_no}`.
pub fn shipment_package_no(package_no: &Option<String>, request_no: &str) -> (r: String)
    ensures
        r@ == match opt_string_view(*package_no) {
            Some(n) => n,
            None => "PKG-"@ + request_no@,
        },
{
    match package_no {
        Some(n) => n.clone(),
        None => {
            let mut v = chars_of("PKG-");
            append_str(&mut v, request_no);
            string_of(&v)
        },
    }
}

/// A new package's status: the one given, else `created`.
pub fn shipment_package_status(status: &Option<String>) -> (r: String)
    ensures
        r@ == match opt_string_view(*status) {
            Some(s) => s,
            None => "created"@,
        },
{
    match status {
        Some(s) => s.clone(),
        None => "created".to_owned(),
    }
}

/// What advancing a shipment package does beyond the package row.
#[derive(Clone, Copy, Debug, PartialEq, Eq, Structural)]
pub enum ShipmentAdvance {
    /// The package is not being shipped: nothing else changes.
    PackageOnly,
    /// The shipment becomes `shipped`; its order is not a paid order
    /// waiting to ship (it may have shipped already), so it stays.
    ShipmentOnly,
    /// The shipment and its paid order become `shipped` (status and
    /// fulfillment status), and the order records one `shipped` event.
    ShipOrder,
}

/// What setting a package's status to `package_status` (unchanged when
/// none) does, for an order in `order_status`.
pub open spec fn shipment_advance(package_status: Option<Seq<char>>, order_status: Seq<char>) -> ShipmentAdvance {
    match package_status {
        Some(p) => if status_key(p) == "shipped"@ {
            if status_key(order_status) == "paid"@ {
                ShipmentAdvance::ShipOrder
            } else {
                ShipmentAdvance::ShipmentOnly
            }
        } else {
            ShipmentAdvance::PackageOnly
        },
        None => ShipmentAdvance::PackageOnly,
    }
}

/// The order's status after an advance.
pub open spec fn order_status_after(advance: ShipmentAdvance, order_status: Seq<char>) -> Seq<char> {
    match advance {
        ShipmentAdvance::ShipOrder => "shipped"@,
        _ => order_status,
    }
}

/// Decides what advancing a package to `package_status` does.
pub fn decide_shipment_advance(package_status: Option<&str>, order_status: &str) -> (r: ShipmentAdvance)
    ensures
        r == shipment_advance(opt_view(package_status), order_status@),
{
    match package_status {
        Some(p) => {
            if chars_eq_str(&trim_lower(p), "shipped") {
                if chars_eq_str(&trim_lower(order_status), "paid") {
                    ShipmentAdvance::ShipOrder
                } else {
                    ShipmentAdvance::ShipmentOnly
                }
            } else {
                ShipmentAdvance::PackageOnly
            }
        },
        None => ShipmentAdvance::PackageOnly,
    }
}

/// An order ships once: after an advance has shipped it, no later advance
/// ships it again, so it records exactly one `shipped` event.
pub proof fn law_order_ships_once(
    first_package_status: Option<Seq<char>>,
    later_package_status: Option<Seq<char>>,
    order_status: Seq<char>,
)
    ensures
        shipment_advance(first_package_status, order_status) == ShipmentAdvance::ShipOrder ==> shipment_advance(
            later_package_status,
            order_status_after(shipment_advance(first_package_status, order_status), order_status),
        ) != ShipmentAdvance::ShipOrder,
{
    reveal_strlit("shipped");
    reveal_strlit("paid");
    let s = "shipped"@;
    assert(!crate::text::is_ws(s[0]) && !crate::text::is_ws(s.last())) by {
        assert(s[0] == 's' && s.last() == 'd');
    }
    assert(crate::text::trim_start(s) == s);
    assert(crate::text::trim_end(s) == s);
    assert(status_key(s)[0] == 's');
    assert(status_key(s) != "paid"@) by {
        assert("paid"@[0] == 'p');
    }
}

/// The `shipped` events that a run of package advances records on an order
/// starting in `order_status`, each advance seeing the order as the
/// earlier ones left it.
pub open spec fn shipped_events(package_statuses: Seq<Option<Seq<char>>>, order_status: Seq<char>) -> nat
    decreases package_statuses.len(),
{
    if package_statuses.len() == 0 {
        0
    } else {
        let advance = shipment_advance(package_statuses[0], order_status);
        (if advance == ShipmentAdvance::ShipOrder {
            1nat
        } else {
            0nat
        }) + shipped_events(package_statuses.drop_first(), order_status_after(advance, order_status))
    }
}

proof fn lemma_shipped_order_records_nothing(package_statuses: Seq<Option<Seq<char>>>)
    ensures
        shipped_events(package_statuses, "shipped"@) == 0,
    decreases package_statuses.len(),
{
    if package_statuses.len() > 0 {
        law_order_ships_once(Some("shipped"@), package_statuses[0], "paid"@);
        lemma_shipped_not_paid();
        lemma_shipped_order_records_nothing(package_statuses.drop_first());
    }
}

proof fn lemma_shipped_not_paid()
    ensures
        status_key("shipped"@) != "paid"@,
        status_key("shipped"@) == "shipped"@,
{
    reveal_strlit("shipped");
    reveal_strlit("paid");
    let s = "shipped"@;
    assert(crate::text::trim_start(s) == s) by {
        assert(s[0] == 's');
    }
    assert(crate::text::trim_end(s) == s) by {
        assert(s.last() == 'd');
    }
    assert(lower_seq(s) =~= s) by {
        assert forall|i: int| 0 <= i < s.len() implies #[trigger] crate::text::lower_char(s[i]) == s[i] by {
            assert(!crate::text::is_upper_ascii(s[i]));
        }
    }
    assert(status_key(s)[0] != "paid"@[0]);
}

/// However many times a shipment's packages are advanced, its order
/// records at most one `shipped` event.
pub proof fn law_order_records_at_most_one_shipped_event(
    package_statuses: Seq<Option<Seq<char>>>,
    order_status: Seq<char>,
)
    ensures
        shipped_events(package_statuses, order_status) <= 1,
    decreases package_statuses.len(),
{
    if package_statuses.len() > 0 {
        let advance = shipment_advance(package_statuses[0], order_status);
        if advance == ShipmentAdvance::ShipOrder {
            lemma_shipped_order_records_nothing(package_statuses.drop_first());
        } else {
            law_order_records_at_most_one_shipped_event(package_statuses.drop_first(), order_status);
        }
    }
}

/// The audit record of an order shipped with its package: event `shipped`
/// by the merchant, from the order's status to `shipped`, under the
/// package update's request number and idempotency key.
pub fn order_shipped_audit_input(
    tenant_id: &str,
    organization_id: &Option<String>,
    order_id: &str,
    from_status: &str,
    request_no: &str,
    idempotency_key: &str,
    now: &str,
) -> (r: OrderLifecycleAuditInput)
    ensures
        audit_matches(r, tenant_id@, opt_string_view(*organization_id), order_id@, from_status@, now@),
        r.event_type@ == "shipped"@,
        r.to_status@ == "shipped"@,
        r.actor_type@ == "merchant"@,
        r.actor_id.is_none(),
        r.reason_code.is_none(),
        r.reason_message.is_none(),
        r.request_no@ == request_no@,
        r.idempotency_key@ == idempotency_key@,
{
    OrderLifecycleAuditInput {
        tenant_id: tenant_id.to_owned(),
        organization_id: clone_text(organization_id),
        order_id: order_id.to_owned(),
        event_type: "shipped",
        from_status: from_status.to_owned(),
        to_status: "shipped",
        actor_type: "merchant",
        actor_id: None,
        reason_code: None,
        reason_message: None,
        request_no: request_no.to_owned(),
        idempotency_key: idempotency_key.to_owned(),
        now: now.to_owned(),
    }
}

} // verus!
