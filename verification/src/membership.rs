//! Membership orders: the purchase a paid membership order settles, read
//! from the order item snapshot, and the catalog facts of a package.
use vstd::prelude::*;
use crate::error::{conflict, invalid_state, storage, CommerceError, ErrorKind};
use crate::json::{json_member_at, json_pointer_member, JsonMember};
use crate::lifecycle::opt_view;
use crate::text::{
    append_str, chars_eq_str, chars_of, lower_chars, lower_seq, parse_i64, parse_i64_chars,
    string_of, trim, trim_chars, trim_lower, upper_chars, upper_seq,
};
use crate::transitions::same_ignoring_case;

verus! {

/// The package id of a membership quota recharge, which is not a catalog
/// package.
pub const MEMBERSHIP_QUOTA_RECHARGE_PACKAGE_ID: &'static str = "membership-quota-recharge";

/// The catalog query of a membership package by external id within a tenant,
/// preferring the organization's own package over the tenant-wide one.
///
/// It reads only `membership_package` and `membership_package_group`: the
/// package owns its display name (`product_name` is the package's name), and
/// the merchandise catalog is neither joined nor written.
pub const LOAD_MEMBERSHIP_PACKAGE_BY_EXTERNAL_ID: &'static str = "SELECT CAST(p.external_id AS TEXT) AS package_external_id, p.name AS package_name, CAST(p.price_amount AS TEXT) AS price_amount, COALESCE(NULLIF(p.currency_code, ''), 'CNY') AS currency_code, CAST(p.duration_days AS BIGINT) AS duration_days, p.sku_id, p.name AS product_name FROM membership_package p JOIN membership_package_group g ON g.id = p.package_group_id WHERE ( (p.tenant_id = CAST($1 AS TEXT) AND p.organization_id = CAST($2 AS TEXT)) OR (p.tenant_id = CAST($1 AS TEXT) AND p.organization_id = '0') ) AND ( (g.tenant_id = CAST($1 AS TEXT) AND g.organization_id = CAST($2 AS TEXT)) OR (g.tenant_id = CAST($1 AS TEXT) AND g.organization_id = '0') ) AND CAST(p.external_id AS TEXT) = $3 AND p.status = 'active' AND g.status = 'active' ORDER BY CASE WHEN p.tenant_id = CAST($1 AS TEXT) AND p.organization_id = CAST($2 AS TEXT) THEN 0 WHEN p.tenant_id = CAST($1 AS TEXT) AND p.organization_id = '0' THEN 1 ELSE 2 END ASC, COALESCE(p.sort_weight, 0) ASC, p.id ASC LIMIT 1";

/// The public catalog query of a membership package by external id, with
/// the platform tenant left as a placeholder. Like the tenant query it reads
/// only the package and its group, and names the package by its own name.
pub const LOAD_MEMBERSHIP_PACKAGE_BY_EXTERNAL_ID_PUBLIC: &'static str = "SELECT CAST(p.external_id AS TEXT) AS package_external_id, p.name AS package_name, CAST(p.price_amount AS TEXT) AS price_amount, COALESCE(NULLIF(p.currency_code, ''), 'CNY') AS currency_code, CAST(p.duration_days AS BIGINT) AS duration_days, p.sku_id, p.name AS product_name FROM membership_package p JOIN membership_package_group g ON g.id = p.package_group_id WHERE p.tenant_id = '__PLATFORM_TENANT__' AND (p.organization_id = '0' OR p.organization_id = '0') AND (g.tenant_id = '__PLATFORM_TENANT__' OR g.tenant_id IS NULL) AND (g.organization_id = '0' OR g.organization_id = '0') AND CAST(p.external_id AS TEXT) = $1 AND p.status = 'active' AND g.status = 'active' ORDER BY COALESCE(p.sort_weight, 0) ASC, p.id ASC LIMIT 1";

/// The membership purchase a paid order settles.
#[derive(Clone, Debug)]
pub struct MembershipPurchaseSettlementSnapshot {
    pub action: String,
    pub order_no: String,
    pub package_id: i64,
    pub grant_quantity: Option<i64>,
}

/// A positive integer member: an `i64`, or a string holding one (trimmed).
pub open spec fn positive_member(m: Option<JsonMember>) -> Option<int> {
    let v = match m {
        Some(JsonMember::Integer(i)) => Some(i as int),
        Some(JsonMember::Text(s)) => parse_i64(trim(s@)),
        _ => None,
    };
    match v {
        Some(x) => if x > 0 {
            Some(x)
        } else {
            None
        },
        None => None,
    }
}

pub open spec fn opt_int(o: Option<i64>) -> Option<int> {
    match o {
        Some(v) => Some(v as int),
        None => None,
    }
}

/// The positive integer a snapshot member holds, if any.
pub fn positive_member_value(m: &Option<JsonMember>) -> (r: Option<i64>)
    ensures
        opt_int(r) == positive_member(*m),
{
    let v = match m {
        Some(JsonMember::Integer(i)) => Some(*i),
        Some(JsonMember::Text(s)) => parse_i64_chars(&trim_chars(&chars_of(s.as_str()))),
        _ => None,
    };
    match v {
        Some(x) => {
            if x > 0 {
                Some(x)
            } else {
                None
            }
        },
        None => None,
    }
}

/// The positive integer member at `pointer` of a snapshot.
pub fn json_positive_i64(snapshot_json: &str, pointer: &str) -> (r: Option<i64>)
    ensures
        opt_int(r) == positive_member(json_pointer_member(snapshot_json@, pointer@)),
{
    positive_member_value(&json_member_at(snapshot_json, pointer))
}

/// A required snapshot text: trimmed and not blank, else an invalid state
/// naming what is missing.
pub fn required_snapshot_text(value: &str, name: &str) -> (r: Result<String, CommerceError>)
    ensures
        trim(value@).len() > 0 ==> r.is_ok() && r->Ok_0@ == trim(value@),
        trim(value@).len() == 0 ==> r.is_err() && r->Err_0.kind == ErrorKind::InvalidState,
{
    let t = trim_chars(&chars_of(value));
    if t.len() == 0 {
        let mut message = chars_of(name);
        append_str(&mut message, " is unavailable");
        return Err(invalid_state(string_of(&message).as_str()));
    }
    Ok(string_of(&t))
}

/// The action of a membership purchase: the order's own action when set,
/// else the snapshot's `action` member, trimmed and lowercased.
pub open spec fn purchase_action(membership_action: Option<Seq<char>>, action_member: Option<JsonMember>) -> Seq<char> {
    let own = match membership_action {
        Some(a) => if trim(a).len() > 0 {
            Some(trim(a))
        } else {
            None
        },
        None => None,
    };
    let chosen = match own {
        Some(a) => a,
        None => match action_member {
            Some(JsonMember::Text(s)) => trim(s@),
            _ => Seq::empty(),
        },
    };
    lower_seq(chosen)
}

pub open spec fn known_action(a: Seq<char>) -> bool {
    a == "purchase"@ || a == "renew"@ || a == "upgrade"@ || a == "recharge"@
}

/// The members of a membership order item snapshot that settlement reads.
#[derive(Clone, Debug)]
pub struct MembershipSnapshotMembers {
    /// The whole document; `None` when the snapshot is not JSON.
    pub document: Option<JsonMember>,
    /// The `action` member.
    pub action: Option<JsonMember>,
    /// The `grantQuantity` member.
    pub grant_quantity: Option<JsonMember>,
    /// The `packageId` member.
    pub package_id: Option<JsonMember>,
}

/// The snapshot text of an order item (trimmed; empty when there is none).
pub open spec fn snapshot_text(sku_snapshot_json: Option<Seq<char>>) -> Seq<char> {
    match sku_snapshot_json {
        Some(s) => trim(s),
        None => Seq::empty(),
    }
}

/// The members of the snapshot `text` as JSON reads them.
pub open spec fn snapshot_members(text: Seq<char>) -> MembershipSnapshotMembers {
    MembershipSnapshotMembers {
        document: json_pointer_member(text, Seq::empty()),
        action: json_pointer_member(text, "/action"@),
        grant_quantity: json_pointer_member(text, "/grantQuantity"@),
        package_id: json_pointer_member(text, "/packageId"@),
    }
}

/// The purchase a settled order carries, as (action, order number, package
/// id, grant quantity): none for an order that is not a membership;
/// otherwise the order number and a readable snapshot are required, the
/// action must be known, and a quota recharge must carry a positive grant
/// quantity while any other action a positive package id (each failure an
/// invalid state).
pub open spec fn membership_purchase_verdict(
    subject: Seq<char>,
    order_no: Seq<char>,
    membership_action: Option<Seq<char>>,
    snapshot_present: bool,
    m: MembershipSnapshotMembers,
) -> Result<Option<(Seq<char>, Seq<char>, int, Option<int>)>, ErrorKind> {
    if !same_ignoring_case(subject, "membership"@) {
        Ok(None)
    } else if trim(order_no).len() == 0 || !snapshot_present || m.document.is_none() {
        Err(ErrorKind::InvalidState)
    } else {
        let action = purchase_action(membership_action, m.action);
        if !known_action(action) {
            Err(ErrorKind::InvalidState)
        } else if action == "recharge"@ {
            match positive_member(m.grant_quantity) {
                Some(q) => Ok(Some((action, trim(order_no), 0, Some(q)))),
                None => Err(ErrorKind::InvalidState),
            }
        } else {
            match positive_member(m.package_id) {
                Some(p) => Ok(Some((action, trim(order_no), p, None))),
                None => Err(ErrorKind::InvalidState),
            }
        }
    }
}

pub open spec fn purchase_view(r: Result<Option<MembershipPurchaseSettlementSnapshot>, CommerceError>) -> Result<
    Option<(Seq<char>, Seq<char>, int, Option<int>)>,
    ErrorKind,
> {
    match r {
        Ok(None) => Ok(None),
        Ok(Some(s)) => Ok(Some((s.action@, s.order_no@, s.package_id as int, opt_int(s.grant_quantity)))),
        Err(e) => Err(e.kind),
    }
}

/// Decides the purchase of a settled order from the snapshot members it
/// read (see [`membership_purchase_verdict`]).
pub fn membership_purchase_from_members(
    subject: &str,
    order_no: &str,
    membership_action: Option<&str>,
    snapshot_present: bool,
    members: &MembershipSnapshotMembers,
) -> (r: Result<Option<MembershipPurchaseSettlementSnapshot>, CommerceError>)
    ensures
        purchase_view(r) == membership_purchase_verdict(
            subject@,
            order_no@,
            opt_view(membership_action),
            snapshot_present,
            *members,
        ),
{
    let subject_key = lower_chars(&chars_of(subject));
    let membership_key = lower_chars(&chars_of("membership"));
    if !crate::text::chars_eq(&subject_key, &membership_key) {
        return Ok(None);
    }
    let order_no = required_snapshot_text(order_no, "membership order number")?;
    if !snapshot_present {
        return Err(invalid_state("membership order item snapshot is unavailable"));
    }
    if members.document.is_none() {
        return Err(invalid_state("membership order item snapshot is invalid"));
    }
    let own = match membership_action {
        Some(a) => {
            let t = trim_chars(&chars_of(a));
            if t.len() > 0 {
                Some(t)
            } else {
                None
            }
        },
        None => None,
    };
    let chosen = match own {
        Some(a) => a,
        None => match &members.action {
            Some(JsonMember::Text(s)) => trim_chars(&chars_of(s.as_str())),
            _ => Vec::new(),
        },
    };
    let action = lower_chars(&chosen);
    if !(chars_eq_str(&action, "purchase") || chars_eq_str(&action, "renew") || chars_eq_str(
        &action,
        "upgrade",
    ) || chars_eq_str(&action, "recharge")) {
        return Err(invalid_state("membership order item snapshot action is invalid"));
    }
    if chars_eq_str(&action, "recharge") {
        let grant_quantity = match positive_member_value(&members.grant_quantity) {
            Some(q) => q,
            None => return Err(invalid_state("membership order item snapshot grant quantity is invalid")),
        };
        return Ok(
            Some(
                MembershipPurchaseSettlementSnapshot {
                    action: string_of(&action),
                    order_no,
                    package_id: 0,
                    grant_quantity: Some(grant_quantity),
                },
            ),
        );
    }
    let package_id = match positive_member_value(&members.package_id) {
        Some(p) => p,
        None => return Err(invalid_state("membership order item snapshot package id is invalid")),
    };
    Ok(
        Some(
            MembershipPurchaseSettlementSnapshot {
                action: string_of(&action),
                order_no,
                package_id,
                grant_quantity: None,
            },
        ),
    )
}

/// The membership purchase of a settled order (see
/// [`membership_purchase_verdict`]), reading the order item snapshot.
pub fn membership_purchase_snapshot(
    subject: &str,
    order_no: &str,
    membership_action: Option<&str>,
    sku_snapshot_json: Option<&str>,
) -> (r: Result<Option<MembershipPurchaseSettlementSnapshot>, CommerceError>)
    ensures
        purchase_view(r) == membership_purchase_verdict(
            subject@,
            order_no@,
            opt_view(membership_action),
            snapshot_text(opt_view(sku_snapshot_json)).len() > 0,
            snapshot_members(snapshot_text(opt_view(sku_snapshot_json))),
        ),
{
    let trimmed = match sku_snapshot_json {
        Some(s) => trim_chars(&chars_of(s)),
        None => Vec::new(),
    };
    let present = trimmed.len() > 0;
    let text = string_of(&trimmed);
    proof {
        reveal_strlit("");
        assert(""@ =~= Seq::<char>::empty());
    }
    let members = MembershipSnapshotMembers {
        document: json_member_at(text.as_str(), ""),
        action: json_member_at(text.as_str(), "/action"),
        grant_quantity: json_member_at(text.as_str(), "/grantQuantity"),
        package_id: json_member_at(text.as_str(), "/packageId"),
    };
    proof {
        assert(members == snapshot_members(text@));
    }
    membership_purchase_from_members(subject, order_no, membership_action, present, &members)
}

/// The status a membership order shows: paid, closed, or awaiting payment.
pub open spec fn membership_status(status: Seq<char>) -> Seq<char> {
    let k = lower_seq(trim(status));
    if k == "paid"@ || k == "fulfilled"@ || k == "completed"@ {
        "paid"@
    } else if k == "cancelled"@ || k == "canceled"@ || k == "expired"@ {
        "closed"@
    } else {
        "pending_payment"@
    }
}

/// A membership order shows `paid` when its status (trimmed, ASCII case
/// ignored) is paid, fulfilled or completed; `closed` when it is
/// cancelled, canceled or expired; and `pending_payment` otherwise.
pub proof fn law_membership_status_labels(status: Seq<char>)
    ensures
        ({
            let k = lower_seq(trim(status));
            &&& (k == "paid"@ || k == "fulfilled"@ || k == "completed"@) ==> membership_status(status) == "paid"@
            &&& (k == "cancelled"@ || k == "canceled"@ || k == "expired"@) ==> membership_status(status)
                == "closed"@
            &&& !(k == "paid"@ || k == "fulfilled"@ || k == "completed"@ || k == "cancelled"@ || k
                == "canceled"@ || k == "expired"@) ==> membership_status(status) == "pending_payment"@
        }),
{
    reveal_strlit("paid");
    reveal_strlit("fulfilled");
    reveal_strlit("completed");
    reveal_strlit("cancelled");
    reveal_strlit("canceled");
    reveal_strlit("expired");
    assert("cancelled"@[0] != "fulfilled"@[0]);
    assert("cancelled"@[1] != "completed"@[1]);
    assert("paid"@.len() == 4 && "expired"@.len() == 7 && "canceled"@.len() == 8);
}

pub fn membership_order_status_label(status: &str) -> (r: &'static str)
    ensures
        r@ == membership_status(status@),
{
    let k = trim_lower(status);
    if chars_eq_str(&k, "paid") || chars_eq_str(&k, "fulfilled") || chars_eq_str(&k, "completed") {
        "paid"
    } else if chars_eq_str(&k, "cancelled") || chars_eq_str(&k, "canceled") || chars_eq_str(&k, "expired") {
        "closed"
    } else {
        "pending_payment"
    }
}

/// The catalog facts of a membership package.
#[derive(Clone, Debug)]
pub struct MembershipPackageFacts {
    pub package_external_id: String,
    pub package_name: String,
    pub price_amount: String,
    pub currency_code: String,
    pub duration_days: i64,
    pub sku_id: String,
    pub product_name: String,
}

/// A positive integer column, else a storage error.
pub fn required_positive_integer(value: Option<i64>) -> (r: Result<i64, CommerceError>)
    ensures
        match value {
            Some(v) => if v > 0 {
                r == Ok::<i64, CommerceError>(v)
            } else {
                r.is_err() && r->Err_0.kind == ErrorKind::Storage
            },
            None => r.is_err() && r->Err_0.kind == ErrorKind::Storage,
        },
{
    match value {
        Some(v) => {
            if v > 0 {
                Ok(v)
            } else {
                Err(storage("integer column must be greater than zero"))
            }
        },
        None => Err(storage("invalid integer column")),
    }
}

/// A catalog package row as the order uses it: it must name a SKU and a
/// positive duration; its currency is trimmed and uppercased.
pub fn membership_package_from_row(
    package_external_id: &str,
    package_name: &str,
    price_amount: &str,
    currency_code: &str,
    duration_days: Option<i64>,
    sku_id: &str,
    product_name: &str,
) -> (r: Result<MembershipPackageFacts, CommerceError>)
    ensures
        trim(sku_id@).len() == 0 ==> r.is_err() && r->Err_0.kind == ErrorKind::Conflict,
        trim(sku_id@).len() > 0 && !(duration_days.is_some() && duration_days.unwrap() > 0) ==> r.is_err()
            && r->Err_0.kind == ErrorKind::Storage,
        trim(sku_id@).len() > 0 && duration_days.is_some() && duration_days.unwrap() > 0 ==> r.is_ok()
            && r->Ok_0.duration_days == duration_days.unwrap() && r->Ok_0.sku_id@ == sku_id@
            && r->Ok_0.currency_code@ == upper_seq(trim(currency_code@)) && r->Ok_0.price_amount@
            == price_amount@ && r->Ok_0.package_external_id@ == package_external_id@
            && r->Ok_0.package_name@ == package_name@ && r->Ok_0.product_name@ == product_name@,
{
    if trim_chars(&chars_of(sku_id)).len() == 0 {
        return Err(conflict("membership package product sku is unavailable"));
    }
    let duration = required_positive_integer(duration_days)?;
    Ok(
        MembershipPackageFacts {
            package_external_id: package_external_id.to_owned(),
            package_name: package_name.to_owned(),
            price_amount: price_amount.to_owned(),
            currency_code: string_of(&upper_chars(&trim_chars(&chars_of(currency_code)))),
            duration_days: duration,
            sku_id: sku_id.to_owned(),
            product_name: product_name.to_owned(),
        },
    )
}

/// The synthetic package of a membership quota recharge: the requested
/// amount in CNY, without duration.
pub fn recharge_membership_package(amount: &str) -> (r: MembershipPackageFacts)
    ensures
        r.package_external_id@ == MEMBERSHIP_QUOTA_RECHARGE_PACKAGE_ID@,
        r.sku_id@ == MEMBERSHIP_QUOTA_RECHARGE_PACKAGE_ID@,
        r.price_amount@ == amount@,
        r.currency_code@ == "CNY"@,
        r.duration_days == 0,
        r.package_name@ == "Membership quota recharge"@,
        r.product_name@ == "Membership quota recharge"@,
{
    MembershipPackageFacts {
        package_external_id: MEMBERSHIP_QUOTA_RECHARGE_PACKAGE_ID.to_owned(),
        package_name: "Membership quota recharge".to_owned(),
        price_amount: amount.to_owned(),
        currency_code: "CNY".to_owned(),
        duration_days: 0,
        sku_id: MEMBERSHIP_QUOTA_RECHARGE_PACKAGE_ID.to_owned(),
        product_name: "Membership quota recharge".to_owned(),
    }
}

/// The duration a replayed membership order reports: none for a quota
/// recharge, else its positive stored duration.
pub fn replayed_membership_duration(action: &str, duration_days: Option<i64>) -> (r: Result<i64, CommerceError>)
    ensures
        action@ == "recharge"@ ==> r == Ok::<i64, CommerceError>(0),
        action@ != "recharge"@ ==> match duration_days {
            Some(v) => if v > 0 {
                r == Ok::<i64, CommerceError>(v)
            } else {
                r.is_err()
            },
            None => r.is_err(),
        },
{
    if chars_eq_str(&chars_of(action), "recharge") {
        Ok(0)
    } else {
        required_positive_integer(duration_days)
    }
}

} // verus!
