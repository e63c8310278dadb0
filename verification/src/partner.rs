//! The partner relation an order snapshots when it is created.
use vstd::prelude::*;
use crate::error::CommerceError;
use crate::lifecycle::{opt_string_view, opt_view};
use crate::text::{chars_of, int_text, i64_text, parse_i64, parse_i64_chars, string_of};

verus! {

/// The partner facts an order records.
#[derive(Clone, Debug, PartialEq, Eq)]
pub struct OrderPartnerSnapshot {
    pub partner_id: String,
    pub name: String,
    pub level_no: String,
    pub status: String,
}

/// The partner domain's numeric ids for an order's tenant, organization
/// and customer: a tenant or customer id that is not a number has no
/// partner relation; an organization id that is not one is the platform
/// (0).
pub fn partner_lookup_ids(tenant_id: &str, organization_id: Option<&str>, owner_user_id: &str) -> (r:
    Option<(i64, i64, i64)>)
    ensures
        match (parse_i64(tenant_id@), parse_i64(owner_user_id@)) {
            (Some(t), Some(u)) => r.is_some() && r.unwrap().0 == t && r.unwrap().2 == u
                && r.unwrap().1 == match opt_view(organization_id) {
                Some(o) => match parse_i64(o) {
                    Some(v) => v,
                    None => 0,
                },
                None => 0,
            },
            _ => r.is_none(),
        },
{
    let tenant = match parse_i64_chars(&chars_of(tenant_id)) {
        Some(t) => t,
        None => return None,
    };
    let organization = match organization_id {
        Some(o) => match parse_i64_chars(&chars_of(o)) {
            Some(v) => v,
            None => 0,
        },
        None => 0,
    };
    let customer = match parse_i64_chars(&chars_of(owner_user_id)) {
        Some(u) => u,
        None => return None,
    };
    Some((tenant, organization, customer))
}

/// The snapshot of a resolved partner, its numeric ids as decimal text.
pub fn order_partner_snapshot(partner_id: i64, name: &str, level_no: i64, status: &str) -> (r:
    OrderPartnerSnapshot)
    ensures
        r.partner_id@ == int_text(partner_id as int),
        r.name@ == name@,
        r.level_no@ == int_text(level_no as int),
        r.status@ == status@,
{
    OrderPartnerSnapshot {
        partner_id: string_of(&i64_text(partner_id)),
        name: name.to_owned(),
        level_no: string_of(&i64_text(level_no)),
        status: status.to_owned(),
    }
}

/// The partner an order shows when its stored snapshot cannot be read:
/// the bare partner id, with the other facts empty; none without an id.
pub fn partner_snapshot_fallback(partner_id: &Option<String>) -> (r: Option<OrderPartnerSnapshot>)
    ensures
        partner_id.is_none() ==> r.is_none(),
        partner_id.is_some() ==> r.is_some() && r.unwrap().partner_id@ == partner_id.unwrap()@
            && r.unwrap().name@.len() == 0 && r.unwrap().level_no@.len() == 0 && r.unwrap().status@.len()
            == 0,
{
    match partner_id {
        Some(p) => Some(
            OrderPartnerSnapshot {
                partner_id: p.clone(),
                name: String::new(),
                level_no: String::new(),
                status: String::new(),
            },
        ),
        None => None,
    }
}

/// The partner snapshot a new order records: the one the command carries;
/// else what the partner domain resolved (the caller asks it only when the
/// command carries none); and none when that resolution failed, since a
/// partner relation never blocks an order.
pub fn choose_order_partner_snapshot(
    command_snapshot: Option<OrderPartnerSnapshot>,
    resolved: Result<Option<OrderPartnerSnapshot>, CommerceError>,
) -> (r: Option<OrderPartnerSnapshot>)
    ensures
        r == match command_snapshot {
            Some(snapshot) => Some(snapshot),
            None => match resolved {
                Ok(found) => found,
                Err(_) => None,
            },
        },
{
    match command_snapshot {
        Some(snapshot) => Some(snapshot),
        None => match resolved {
            Ok(found) => found,
            Err(_) => None,
        },
    }
}

} // verus!
