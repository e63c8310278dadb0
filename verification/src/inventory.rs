//! Physical inventory reservations of an order: the request rules and what
//! reserving, consuming, releasing and restocking do to the reservation
//! rows, replays included.
use vstd::prelude::*;
use crate::error::{conflict, invalid_state, validation, CommerceError, ErrorKind};
use crate::text::{append_str, chars_eq, chars_eq_str, chars_of, lower_chars, string_of, trim, trim_chars};
use crate::transitions::same_ignoring_case;

verus! {

/// One SKU line of a physical order.
#[derive(Clone, Debug)]
pub struct PhysicalInventoryLine {
    pub sku_id: String,
    pub shop_id: String,
    pub quantity: i64,
}

/// A request to reserve the stock of a physical order.
#[derive(Clone, Debug)]
pub struct ReservePhysicalOrderInventoryRequest {
    pub tenant_id: String,
    pub merchant_organization_id: String,
    pub order_id: String,
    pub request_no: String,
    pub idempotency_key: String,
    pub lines: Vec<PhysicalInventoryLine>,
}

/// A request to release (or restock) the reservations of an order.
#[derive(Clone, Debug)]
pub struct ReleasePhysicalOrderInventoryRequest {
    pub tenant_id: String,
    pub order_id: String,
    pub reason_code: String,
    pub request_no: String,
    pub idempotency_key: String,
}

/// The answer to an inventory mutation.
#[derive(Clone, Copy, Debug, PartialEq, Eq, Structural)]
pub struct PhysicalInventoryMutationOutcome {
    pub accepted: bool,
    pub replayed: bool,
}

pub open spec fn blank(s: Seq<char>) -> bool {
    trim(s).len() == 0
}

/// Every field of a reservation request is present and every line names a
/// SKU and a shop with a positive quantity.
pub open spec fn reserve_request_complete(r: ReservePhysicalOrderInventoryRequest) -> bool {
    &&& !blank(r.tenant_id@)
    &&& !blank(r.merchant_organization_id@)
    &&& !blank(r.order_id@)
    &&& !blank(r.request_no@)
    &&& !blank(r.idempotency_key@)
    &&& r.lines@.len() > 0
    &&& forall|i: int|
        0 <= i < r.lines@.len() ==> {
            let line = #[trigger] r.lines@[i];
            line.quantity > 0 && !blank(line.sku_id@) && !blank(line.shop_id@)
        }
}

/// No two lines name the same SKU (surrounding whitespace ignored).
pub open spec fn distinct_skus(lines: Seq<PhysicalInventoryLine>) -> bool {
    forall|i: int, j: int|
        0 <= i < j < lines.len() ==> trim(#[trigger] lines[i].sku_id@) != trim(#[trigger] lines[j].sku_id@)
}

fn is_blank(s: &str) -> (r: bool)
    ensures
        r == blank(s@),
{
    trim_chars(&chars_of(s)).len() == 0
}

/// Validates a reservation request: incomplete requests and requests that
/// name a SKU twice are rejected.
pub fn validate_reserve_request(request: &ReservePhysicalOrderInventoryRequest) -> (r: Result<
    (),
    CommerceError,
>)
    ensures
        r.is_ok() == (reserve_request_complete(*request) && distinct_skus(request.lines@)),
        r.is_err() ==> r->Err_0.kind == ErrorKind::Validation,
{
    let mut complete = !is_blank(request.tenant_id.as_str()) && !is_blank(
        request.merchant_organization_id.as_str(),
    ) && !is_blank(request.order_id.as_str()) && !is_blank(request.request_no.as_str())
        && !is_blank(request.idempotency_key.as_str()) && request.lines.len() > 0;
    let mut i: usize = 0;
    while i < request.lines.len()
        invariant
            i <= request.lines@.len(),
            complete == (!blank(request.tenant_id@) && !blank(request.merchant_organization_id@)
                && !blank(request.order_id@) && !blank(request.request_no@) && !blank(
                request.idempotency_key@,
            ) && request.lines@.len() > 0 && forall|k: int|
                0 <= k < i ==> {
                    let line = #[trigger] request.lines@[k];
                    line.quantity > 0 && !blank(line.sku_id@) && !blank(line.shop_id@)
                }),
        decreases request.lines.len() - i,
    {
        let line = &request.lines[i];
        let ok = line.quantity > 0 && !is_blank(line.sku_id.as_str()) && !is_blank(line.shop_id.as_str());
        proof {
            if !ok {
                assert(!(forall|k: int|
                    0 <= k < i + 1 ==> {
                        let line = #[trigger] request.lines@[k];
                        line.quantity > 0 && !blank(line.sku_id@) && !blank(line.shop_id@)
                    }));
            }
        }
        complete = complete && ok;
        i = i + 1;
    }
    if !complete {
        return Err(validation("physical inventory reservation lines are invalid"));
    }
    let mut skus: Vec<Vec<char>> = Vec::new();
    let mut j: usize = 0;
    while j < request.lines.len()
        invariant
            j <= request.lines@.len(),
            skus@.len() == j,
            forall|k: int| 0 <= k < j ==> (#[trigger] skus@[k])@ == trim(request.lines@[k].sku_id@),
            forall|a: int, b: int|
                0 <= a < b < j ==> trim(#[trigger] request.lines@[a].sku_id@) != trim(
                    #[trigger] request.lines@[b].sku_id@,
                ),
        decreases request.lines.len() - j,
    {
        let sku = trim_chars(&chars_of(request.lines[j].sku_id.as_str()));
        let mut k: usize = 0;
        while k < j
            invariant
                k <= j,
                j < request.lines@.len(),
                skus@.len() == j,
                sku@ == trim(request.lines@[j as int].sku_id@),
                forall|m: int| 0 <= m < j ==> (#[trigger] skus@[m])@ == trim(request.lines@[m].sku_id@),
                forall|m: int| 0 <= m < k ==> trim(#[trigger] request.lines@[m].sku_id@) != sku@,
            decreases j - k,
        {
            if chars_eq(&skus[k], &sku) {
                proof {
                    assert(!distinct_skus(request.lines@)) by {
                        assert(trim(request.lines@[k as int].sku_id@) == trim(request.lines@[j as int].sku_id@));
                    }
                }
                return Err(validation("physical inventory reservation contains duplicate SKU lines"));
            }
            k = k + 1;
        }
        skus.push(sku);
        j = j + 1;
    }
    Ok(())
}

/// The id of the reservation row of one SKU of an order.
pub fn reservation_id(order_id: &str, sku_id: &str) -> (r: String)
    ensures
        r@ == "inventory-reservation-"@ + order_id@ + "-"@ + sku_id@,
{
    let mut v = chars_of("inventory-reservation-");
    append_str(&mut v, order_id);
    append_str(&mut v, "-");
    append_str(&mut v, sku_id);
    string_of(&v)
}

/// The release request the expiry sweep issues for an order whose
/// reservations outlived their payment window.
pub fn sweep_release_request(tenant_id: &str, order_id: &str) -> (r: ReleasePhysicalOrderInventoryRequest)
    ensures
        r.tenant_id@ == tenant_id@,
        r.order_id@ == order_id@,
        r.reason_code@ == "reservation_expired"@,
        r.request_no@ == "sweep-"@ + order_id@,
        r.idempotency_key@ == "sweep:"@ + order_id@,
{
    let mut request_no = chars_of("sweep-");
    append_str(&mut request_no, order_id);
    let mut key = chars_of("sweep:");
    append_str(&mut key, order_id);
    ReleasePhysicalOrderInventoryRequest {
        tenant_id: tenant_id.to_owned(),
        order_id: order_id.to_owned(),
        reason_code: "reservation_expired".to_owned(),
        request_no: string_of(&request_no),
        idempotency_key: string_of(&key),
    }
}

/// What a mutation does to an order's reservation rows: whether it is a
/// replay, and which rows (in row order) it moves to the new status.
#[derive(Clone, Debug)]
pub struct ReservationMutationPlan {
    pub replayed: bool,
    pub apply: Vec<bool>,
}

pub open spec fn str_seqs(v: Seq<String>) -> Seq<Seq<char>> {
    v.map_values(|s: String| s@)
}

pub open spec fn consumed(s: Seq<char>) -> bool {
    same_ignoring_case(s, "consumed"@)
}

pub open spec fn reserved(s: Seq<char>) -> bool {
    same_ignoring_case(s, "reserved"@)
}

/// Rows that a release leaves alone: released ones are back in stock and
/// consumed ones were shipped.
pub open spec fn release_skips(s: Seq<char>) -> bool {
    s == "released"@ || s == "consumed"@
}

/// Rows that a restock leaves alone: already back in stock.
pub open spec fn restock_skips(s: Seq<char>) -> bool {
    s == "restocked"@ || s == "released"@
}

/// Consuming an order's reservations: an order without reservations is
/// an invalid state; all consumed is a replay; a row neither consumed nor
/// reserved is an invalid state; otherwise every reserved row is consumed.
pub open spec fn consume_verdict(rows: Seq<Seq<char>>) -> Result<(bool, Seq<bool>), ErrorKind> {
    if rows.len() == 0 {
        Err(ErrorKind::InvalidState)
    } else if forall|i: int| 0 <= i < rows.len() ==> consumed(#[trigger] rows[i]) {
        Ok((true, Seq::new(rows.len(), |i: int| false)))
    } else if exists|i: int| 0 <= i < rows.len() && !consumed(#[trigger] rows[i]) && !reserved(rows[i]) {
        Err(ErrorKind::InvalidState)
    } else {
        Ok((false, Seq::new(rows.len(), |i: int| !consumed(rows[i]))))
    }
}

/// Releasing: no rows or nothing left to release is a replay; a row that
/// is neither skipped nor reserved is an invalid state; otherwise every
/// reserved row is released.
pub open spec fn release_verdict(rows: Seq<Seq<char>>) -> Result<(bool, Seq<bool>), ErrorKind> {
    if forall|i: int| 0 <= i < rows.len() ==> release_skips(#[trigger] rows[i]) {
        Ok((true, Seq::new(rows.len(), |i: int| false)))
    } else if exists|i: int|
        0 <= i < rows.len() && !release_skips(#[trigger] rows[i]) && !reserved(rows[i]) {
        Err(ErrorKind::InvalidState)
    } else {
        Ok((false, Seq::new(rows.len(), |i: int| !release_skips(rows[i]))))
    }
}

/// Restocking after a return: no rows or nothing left to restock is a
/// replay; a row that is neither skipped nor consumed is an invalid state;
/// otherwise every consumed row is restocked.
pub open spec fn restock_verdict(rows: Seq<Seq<char>>) -> Result<(bool, Seq<bool>), ErrorKind> {
    if forall|i: int| 0 <= i < rows.len() ==> restock_skips(#[trigger] rows[i]) {
        Ok((true, Seq::new(rows.len(), |i: int| false)))
    } else if exists|i: int|
        0 <= i < rows.len() && !restock_skips(#[trigger] rows[i]) && !consumed(rows[i]) {
        Err(ErrorKind::InvalidState)
    } else {
        Ok((false, Seq::new(rows.len(), |i: int| !restock_skips(rows[i]))))
    }
}

pub open spec fn plan_matches(r: Result<ReservationMutationPlan, CommerceError>, v: Result<(bool, Seq<bool>), ErrorKind>) -> bool {
    match r {
        Ok(p) => v == Ok::<(bool, Seq<bool>), ErrorKind>((p.replayed, p.apply@)),
        Err(e) => v == Err::<(bool, Seq<bool>), ErrorKind>(e.kind),
    }
}

fn ignoring_case(s: &str, literal: &str) -> (r: bool)
    ensures
        r == same_ignoring_case(s@, literal@),
{
    chars_eq(&lower_chars(&chars_of(s)), &lower_chars(&chars_of(literal)))
}

fn exactly(s: &str, literal: &str) -> (r: bool)
    ensures
        r == (s@ == literal@),
{
    chars_eq_str(&chars_of(s), literal)
}

/// Plans the consumption of an order's reservation rows (given their
/// statuses in row order).
pub fn plan_inventory_consume(statuses: &Vec<String>) -> (r: Result<ReservationMutationPlan, CommerceError>)
    ensures
        plan_matches(r, consume_verdict(str_seqs(statuses@))),
{
    let ghost rows = str_seqs(statuses@);
    if statuses.len() == 0 {
        return Err(invalid_state("physical order has no inventory reservation"));
    }
    let mut all_done = true;
    let mut invalid = false;
    let mut apply: Vec<bool> = Vec::new();
    let mut i: usize = 0;
    while i < statuses.len()
        invariant
            i <= statuses@.len(),
            rows == str_seqs(statuses@),
            apply@.len() == i,
            forall|k: int| 0 <= k < i ==> apply@[k] == !consumed(#[trigger] rows[k]),
            all_done == forall|k: int| 0 <= k < i ==> consumed(#[trigger] rows[k]),
            invalid == exists|k: int| 0 <= k < i && !consumed(#[trigger] rows[k]) && !reserved(rows[k]),
        decreases statuses.len() - i,
    {
        let s = statuses[i].as_str();
        let c = ignoring_case(s, "consumed");
        let res = ignoring_case(s, "reserved");
        proof {
            assert(rows[i as int] == statuses@[i as int]@);
            if !c && !res {
                assert(!consumed(rows[i as int]) && !reserved(rows[i as int]));
            }
        }
        all_done = all_done && c;
        invalid = invalid || (!c && !res);
        apply.push(!c);
        i = i + 1;
    }
    if all_done {
        let mut none: Vec<bool> = Vec::new();
        let mut k: usize = 0;
        while k < statuses.len()
            invariant
                k <= statuses@.len(),
                none@ =~= Seq::new(k as nat, |i: int| false),
            decreases statuses.len() - k,
        {
            none.push(false);
            k = k + 1;
        }
        return Ok(ReservationMutationPlan { replayed: true, apply: none });
    }
    if invalid {
        return Err(invalid_state("inventory reservation cannot be consumed"));
    }
    proof {
        assert(apply@ =~= Seq::new(rows.len(), |k: int| !consumed(rows[k])));
    }
    Ok(ReservationMutationPlan { replayed: false, apply })
}

/// Plans the release of an order's reservation rows.
pub fn plan_inventory_release(statuses: &Vec<String>) -> (r: Result<ReservationMutationPlan, CommerceError>)
    ensures
        plan_matches(r, release_verdict(str_seqs(statuses@))),
{
    let ghost rows = str_seqs(statuses@);
    let mut all_done = true;
    let mut invalid = false;
    let mut apply: Vec<bool> = Vec::new();
    let mut i: usize = 0;
    while i < statuses.len()
        invariant
            i <= statuses@.len(),
            rows == str_seqs(statuses@),
            apply@.len() == i,
            forall|k: int| 0 <= k < i ==> apply@[k] == !release_skips(#[trigger] rows[k]),
            all_done == forall|k: int| 0 <= k < i ==> release_skips(#[trigger] rows[k]),
            invalid == exists|k: int| 0 <= k < i && !release_skips(#[trigger] rows[k]) && !reserved(rows[k]),
        decreases statuses.len() - i,
    {
        let s = statuses[i].as_str();
        let skip = exactly(s, "released") || exactly(s, "consumed");
        let res = ignoring_case(s, "reserved");
        proof {
            assert(rows[i as int] == statuses@[i as int]@);
            if !skip && !res {
                assert(!release_skips(rows[i as int]) && !reserved(rows[i as int]));
            }
        }
        all_done = all_done && skip;
        invalid = invalid || (!skip && !res);
        apply.push(!skip);
        i = i + 1;
    }
    if all_done {
        let mut none: Vec<bool> = Vec::new();
        let mut k: usize = 0;
        while k < statuses.len()
            invariant
                k <= statuses@.len(),
                none@ =~= Seq::new(k as nat, |i: int| false),
            decreases statuses.len() - k,
        {
            none.push(false);
            k = k + 1;
        }
        return Ok(ReservationMutationPlan { replayed: true, apply: none });
    }
    if invalid {
        return Err(invalid_state("inventory reservation cannot be released"));
    }
    proof {
        assert(apply@ =~= Seq::new(rows.len(), |k: int| !release_skips(rows[k])));
    }
    Ok(ReservationMutationPlan { replayed: false, apply })
}

/// Plans the restock of an order's consumed reservation rows.
pub fn plan_inventory_restock(statuses: &Vec<String>) -> (r: Result<ReservationMutationPlan, CommerceError>)
    ensures
        plan_matches(r, restock_verdict(str_seqs(statuses@))),
{
    let ghost rows = str_seqs(statuses@);
    let mut all_done = true;
    let mut invalid = false;
    let mut apply: Vec<bool> = Vec::new();
    let mut i: usize = 0;
    while i < statuses.len()
        invariant
            i <= statuses@.len(),
            rows == str_seqs(statuses@),
            apply@.len() == i,
            forall|k: int| 0 <= k < i ==> apply@[k] == !restock_skips(#[trigger] rows[k]),
            all_done == forall|k: int| 0 <= k < i ==> restock_skips(#[trigger] rows[k]),
            invalid == exists|k: int| 0 <= k < i && !restock_skips(#[trigger] rows[k]) && !consumed(rows[k]),
        decreases statuses.len() - i,
    {
        let s = statuses[i].as_str();
        let skip = exactly(s, "restocked") || exactly(s, "released");
        let c = ignoring_case(s, "consumed");
        proof {
            assert(rows[i as int] == statuses@[i as int]@);
            if !skip && !c {
                assert(!restock_skips(rows[i as int]) && !consumed(rows[i as int]));
            }
        }
        all_done = all_done && skip;
        invalid = invalid || (!skip && !c);
        apply.push(!skip);
        i = i + 1;
    }
    if all_done {
        let mut none: Vec<bool> = Vec::new();
        let mut k: usize = 0;
        while k < statuses.len()
            invariant
                k <= statuses@.len(),
                none@ =~= Seq::new(k as nat, |i: int| false),
            decreases statuses.len() - k,
        {
            none.push(false);
            k = k + 1;
        }
        return Ok(ReservationMutationPlan { replayed: true, apply: none });
    }
    if invalid {
        return Err(invalid_state("inventory reservation is not consumed; cannot restock"));
    }
    proof {
        assert(apply@ =~= Seq::new(rows.len(), |k: int| !restock_skips(rows[k])));
    }
    Ok(ReservationMutationPlan { replayed: false, apply })
}

/// The rows after a mutation moved the `apply` rows to `target`.
pub open spec fn statuses_after(rows: Seq<Seq<char>>, apply: Seq<bool>, target: Seq<char>) -> Seq<Seq<char>> {
    Seq::new(rows.len(), |i: int| if apply[i] { target } else { rows[i] })
}

/// Consuming is idempotent: once the reserved rows are consumed, consuming
/// again is a replay that changes nothing.
pub proof fn law_consume_replays(rows: Seq<Seq<char>>, apply: Seq<bool>)
    requires
        consume_verdict(rows) == Ok::<(bool, Seq<bool>), ErrorKind>((false, apply)),
    ensures
        consume_verdict(statuses_after(rows, apply, "consumed"@)) == Ok::<(bool, Seq<bool>), ErrorKind>(
            (true, Seq::new(rows.len(), |i: int| false)),
        ),
{
    let after = statuses_after(rows, apply, "consumed"@);
    assert forall|i: int| 0 <= i < after.len() implies consumed(#[trigger] after[i]) by {
        if !apply[i] {
            assert(apply[i] == !consumed(rows[i]));
        }
    }
}

/// Releasing is idempotent: once released, releasing again is a replay.
pub proof fn law_release_replays(rows: Seq<Seq<char>>, apply: Seq<bool>)
    requires
        release_verdict(rows) == Ok::<(bool, Seq<bool>), ErrorKind>((false, apply)),
    ensures
        release_verdict(statuses_after(rows, apply, "released"@)) == Ok::<(bool, Seq<bool>), ErrorKind>(
            (true, Seq::new(rows.len(), |i: int| false)),
        ),
{
    let after = statuses_after(rows, apply, "released"@);
    assert forall|i: int| 0 <= i < after.len() implies release_skips(#[trigger] after[i]) by {
        if !apply[i] {
            assert(apply[i] == !release_skips(rows[i]));
        }
    }
}

/// Restocking is idempotent: once restocked, restocking again is a replay.
pub proof fn law_restock_replays(rows: Seq<Seq<char>>, apply: Seq<bool>)
    requires
        restock_verdict(rows) == Ok::<(bool, Seq<bool>), ErrorKind>((false, apply)),
    ensures
        restock_verdict(statuses_after(rows, apply, "restocked"@)) == Ok::<(bool, Seq<bool>), ErrorKind>(
            (true, Seq::new(rows.len(), |i: int| false)),
        ),
{
    let after = statuses_after(rows, apply, "restocked"@);
    assert forall|i: int| 0 <= i < after.len() implies restock_skips(#[trigger] after[i]) by {
        if !apply[i] {
            assert(apply[i] == !restock_skips(rows[i]));
        }
    }
}

/// A release never returns consumed (shipped) stock.
pub proof fn law_release_skips_consumed(rows: Seq<Seq<char>>, replayed: bool, apply: Seq<bool>, i: int)
    requires
        release_verdict(rows) == Ok::<(bool, Seq<bool>), ErrorKind>((replayed, apply)),
        0 <= i < rows.len(),
        rows[i] == "consumed"@,
    ensures
        !apply[i],
{
}

/// After the reservations of an order are consumed, releasing them (a
/// buyer cancelling late) is a replay: nothing returns to stock.
pub proof fn law_release_after_consume_is_noop(rows: Seq<Seq<char>>, apply: Seq<bool>)
    requires
        forall|i: int| 0 <= i < rows.len() ==> #[trigger] rows[i] == "reserved"@ || rows[i] == "consumed"@,
        consume_verdict(rows) == Ok::<(bool, Seq<bool>), ErrorKind>((false, apply)),
    ensures
        release_verdict(statuses_after(rows, apply, "consumed"@)) == Ok::<(bool, Seq<bool>), ErrorKind>(
            (true, Seq::new(rows.len(), |i: int| false)),
        ),
{
    let after = statuses_after(rows, apply, "consumed"@);
    assert forall|i: int| 0 <= i < after.len() implies release_skips(#[trigger] after[i]) by {
        if !apply[i] {
            assert(apply[i] == !consumed(rows[i]));
            if rows[i] == "reserved"@ {
                reveal_strlit("reserved");
                reveal_strlit("consumed");
                assert(rows[i][0] != "consumed"@[0]);
                assert(lower_seq_first(rows[i]) != lower_seq_first("consumed"@));
            }
        }
    }
}

/// Which rows each mutation moves. An order without reservations cannot
/// be consumed, and releasing or restocking it is a replay. A consumption
/// that is not a replay moves exactly the reserved rows (ASCII case
/// ignored); a release moves exactly the rows not yet released or
/// consumed, each of them reserved; a restock moves exactly the rows not
/// yet restocked or released, each of them consumed.
pub proof fn law_mutations_move_the_right_rows(rows: Seq<Seq<char>>, apply: Seq<bool>)
    ensures
        rows.len() == 0 ==> consume_verdict(rows) == Err::<(bool, Seq<bool>), ErrorKind>(ErrorKind::InvalidState)
            && release_verdict(rows) is Ok && release_verdict(rows)->Ok_0.0 && restock_verdict(rows) is Ok
            && restock_verdict(rows)->Ok_0.0,
        consume_verdict(rows) == Ok::<(bool, Seq<bool>), ErrorKind>((false, apply)) ==> forall|i: int|
            0 <= i < rows.len() ==> (apply[i] <==> crate::text::lower_seq(#[trigger] rows[i]) == "reserved"@),
        release_verdict(rows) == Ok::<(bool, Seq<bool>), ErrorKind>((false, apply)) ==> forall|i: int|
            0 <= i < rows.len() ==> (apply[i] <==> !(#[trigger] rows[i] == "released"@ || rows[i] == "consumed"@))
                && (apply[i] ==> crate::text::lower_seq(rows[i]) == "reserved"@),
        restock_verdict(rows) == Ok::<(bool, Seq<bool>), ErrorKind>((false, apply)) ==> forall|i: int|
            0 <= i < rows.len() ==> (apply[i] <==> !(#[trigger] rows[i] == "restocked"@ || rows[i] == "released"@))
                && (apply[i] ==> crate::text::lower_seq(rows[i]) == "consumed"@),
{
    reveal_strlit("reserved");
    reveal_strlit("consumed");
    crate::transitions::lemma_lower_fixed("reserved"@);
    crate::transitions::lemma_lower_fixed("consumed"@);
    assert("reserved"@[0] != "consumed"@[0]);
}

spec fn lower_seq_first(s: Seq<char>) -> char {
    crate::text::lower_seq(s)[0]
}

/// A reservation row as stored for a replayed reservation request.
#[derive(Clone, Debug)]
pub struct StoredReservation {
    pub organization_id: String,
    pub sku_id: String,
    pub quantity: i64,
    pub idempotency_key: String,
    pub status: String,
}

pub open spec fn row_matches_line(row: StoredReservation, line: PhysicalInventoryLine) -> bool {
    row.sku_id@ == trim(line.sku_id@) && row.quantity == line.quantity
}

pub open spec fn row_has_some_line(row: StoredReservation, lines: Seq<PhysicalInventoryLine>) -> bool {
    exists|j: int| 0 <= j < lines.len() && row_matches_line(row, #[trigger] lines[j])
}

pub open spec fn line_has_some_row(line: PhysicalInventoryLine, stored: Seq<StoredReservation>) -> bool {
    exists|i: int| 0 <= i < stored.len() && row_matches_line(#[trigger] stored[i], line)
}

/// A stored row belongs to the replayed request: same merchant, same
/// idempotency key, still reserved or already consumed.
pub open spec fn row_fields_match(row: StoredReservation, request: ReservePhysicalOrderInventoryRequest) -> bool {
    &&& row.organization_id@ == request.merchant_organization_id@
    &&& row.idempotency_key@ == request.idempotency_key@
    &&& (row.status@ == "reserved"@ || row.status@ == "consumed"@)
}

/// A replayed reservation request matches what is stored: one live row per
/// requested SKU with its quantity, under the same merchant and
/// idempotency key.
pub open spec fn replay_matches(
    stored: Seq<StoredReservation>,
    request: ReservePhysicalOrderInventoryRequest,
    existing: int,
) -> bool {
    let lines = request.lines@;
    &&& existing == lines.len()
    &&& stored.len() == lines.len()
    &&& forall|i: int| 0 <= i < stored.len() ==> row_fields_match(#[trigger] stored[i], request)
    &&& forall|i: int| 0 <= i < stored.len() ==> row_has_some_line(#[trigger] stored[i], lines)
    &&& forall|j: int| 0 <= j < lines.len() ==> line_has_some_row(#[trigger] lines[j], stored)
}

fn row_has_line(row: &StoredReservation, trimmed: &Vec<Vec<char>>, lines: &Vec<PhysicalInventoryLine>) -> (r: bool)
    requires
        trimmed@.len() == lines@.len(),
        forall|k: int| 0 <= k < lines@.len() ==> (#[trigger] trimmed@[k])@ == trim(lines@[k].sku_id@),
    ensures
        r == row_has_some_line(*row, lines@),
{
    let sku = chars_of(row.sku_id.as_str());
    let mut j: usize = 0;
    while j < lines.len()
        invariant
            j <= lines@.len(),
            trimmed@.len() == lines@.len(),
            sku@ == row.sku_id@,
            forall|k: int| 0 <= k < lines@.len() ==> (#[trigger] trimmed@[k])@ == trim(lines@[k].sku_id@),
            forall|k: int| 0 <= k < j ==> !row_matches_line(*row, #[trigger] lines@[k]),
        decreases lines.len() - j,
    {
        if chars_eq(&trimmed[j], &sku) && lines[j].quantity == row.quantity {
            assert(row_matches_line(*row, lines@[j as int]));
            return true;
        }
        j = j + 1;
    }
    false
}

fn line_has_row(line: &PhysicalInventoryLine, sku: &Vec<char>, stored: &Vec<StoredReservation>) -> (r: bool)
    requires
        sku@ == trim(line.sku_id@),
    ensures
        r == line_has_some_row(*line, stored@),
{
    let mut i: usize = 0;
    while i < stored.len()
        invariant
            i <= stored@.len(),
            sku@ == trim(line.sku_id@),
            forall|k: int| 0 <= k < i ==> !row_matches_line(#[trigger] stored@[k], *line),
        decreases stored.len() - i,
    {
        if chars_eq(&chars_of(stored[i].sku_id.as_str()), sku) && stored[i].quantity == line.quantity {
            assert(row_matches_line(stored@[i as int], *line));
            return true;
        }
        i = i + 1;
    }
    false
}

/// The row a first reservation stores for a line of the request.
pub open spec fn row_stored_for(row: StoredReservation, request: ReservePhysicalOrderInventoryRequest, line: PhysicalInventoryLine) -> bool {
    &&& row.organization_id@ == request.merchant_organization_id@
    &&& row.sku_id@ == line.sku_id@
    &&& row.quantity == line.quantity
    &&& row.idempotency_key@ == request.idempotency_key@
    &&& row.status@ == "reserved"@
}

/// Replaying a reservation request matches the rows its first
/// reservation stored (one per line, in line order), so the stock is taken
/// once. SKU ids are stored as sent and compared trimmed, so this holds of
/// requests whose SKU ids carry no surrounding whitespace.
pub proof fn law_reservation_replay_matches_stored_rows(
    request: ReservePhysicalOrderInventoryRequest,
    stored: Seq<StoredReservation>,
)
    requires
        forall|i: int| 0 <= i < request.lines@.len() ==> trim(#[trigger] request.lines@[i].sku_id@) == request.lines@[i].sku_id@,
        stored.len() == request.lines@.len(),
        forall|i: int| 0 <= i < stored.len() ==> row_stored_for(#[trigger] stored[i], request, request.lines@[i]),
    ensures
        replay_matches(stored, request, request.lines@.len() as int),
{
    reveal_strlit("reserved");
    let lines = request.lines@;
    assert forall|i: int| 0 <= i < stored.len() implies row_fields_match(#[trigger] stored[i], request) by {
        assert(row_stored_for(stored[i], request, lines[i]));
    }
    assert forall|i: int| 0 <= i < stored.len() implies row_has_some_line(#[trigger] stored[i], lines) by {
        assert(row_stored_for(stored[i], request, lines[i]));
        assert(trim(lines[i].sku_id@) == lines[i].sku_id@);
        assert(row_matches_line(stored[i], lines[i]));
    }
    assert forall|j: int| 0 <= j < lines.len() implies line_has_some_row(#[trigger] lines[j], stored) by {
        assert(row_stored_for(stored[j], request, lines[j]));
        assert(trim(lines[j].sku_id@) == lines[j].sku_id@);
        assert(row_matches_line(stored[j], lines[j]));
    }
}

/// A request that reuses the reservation of an order but changes the
/// quantity of one of its SKUs does not match the stored rows: the
/// reservation refuses it as a conflict instead of taking stock again.
pub proof fn law_changed_reservation_is_rejected(
    request: ReservePhysicalOrderInventoryRequest,
    changed: ReservePhysicalOrderInventoryRequest,
    stored: Seq<StoredReservation>,
    j: int,
)
    requires
        distinct_skus(request.lines@),
        forall|i: int| 0 <= i < request.lines@.len() ==> trim(#[trigger] request.lines@[i].sku_id@) == request.lines@[i].sku_id@,
        stored.len() == request.lines@.len(),
        forall|i: int| 0 <= i < stored.len() ==> row_stored_for(#[trigger] stored[i], request, request.lines@[i]),
        0 <= j < request.lines@.len(),
        changed.lines@.len() == request.lines@.len(),
        trim(changed.lines@[j].sku_id@) == request.lines@[j].sku_id@,
        changed.lines@[j].quantity != request.lines@[j].quantity,
    ensures
        !replay_matches(stored, changed, changed.lines@.len() as int),
{
    let lines = request.lines@;
    let line = changed.lines@[j];
    if line_has_some_row(line, stored) {
        let i = choose|i: int| 0 <= i < stored.len() && row_matches_line(#[trigger] stored[i], line);
        assert(row_stored_for(stored[i], request, lines[i]));
        assert(trim(lines[i].sku_id@) == lines[i].sku_id@);
        assert(trim(lines[j].sku_id@) == lines[j].sku_id@);
        if i != j {
            if i < j {
                assert(trim(lines[i].sku_id@) != trim(lines[j].sku_id@));
            } else {
                assert(trim(lines[j].sku_id@) != trim(lines[i].sku_id@));
            }
        }
        assert(false);
    }
    assert(!line_has_some_row(changed.lines@[j], stored));
}

/// Does a replayed reservation request match the stored reservations?
/// (`existing` is the number of stored rows the replay found.)
pub fn reservation_replay_matches(
    stored: &Vec<StoredReservation>,
    request: &ReservePhysicalOrderInventoryRequest,
    existing: i64,
) -> (r: bool)
    ensures
        r == replay_matches(stored@, *request, existing as int),
{
    let lines: &Vec<PhysicalInventoryLine> = &request.lines;
    if existing < 0 || existing as u64 != lines.len() as u64 || stored.len() != lines.len() {
        return false;
    }
    let mut trimmed: Vec<Vec<char>> = Vec::new();
    let mut k: usize = 0;
    while k < lines.len()
        invariant
            lines@ == request.lines@,
            k <= lines@.len(),
            trimmed@.len() == k,
            forall|m: int| 0 <= m < k ==> (#[trigger] trimmed@[m])@ == trim(lines@[m].sku_id@),
        decreases lines.len() - k,
    {
        trimmed.push(trim_chars(&chars_of(lines[k].sku_id.as_str())));
        k = k + 1;
    }
    let mut i: usize = 0;
    while i < stored.len()
        invariant
            lines@ == request.lines@,
            i <= stored@.len(),
            trimmed@.len() == lines@.len(),
            forall|m: int| 0 <= m < lines@.len() ==> (#[trigger] trimmed@[m])@ == trim(lines@[m].sku_id@),
            forall|m: int| 0 <= m < i ==> row_fields_match(#[trigger] stored@[m], *request),
            forall|m: int| 0 <= m < i ==> row_has_some_line(#[trigger] stored@[m], lines@),
        decreases stored.len() - i,
    {
        let row = &stored[i];
        let fields_ok = chars_eq(&chars_of(row.organization_id.as_str()), &chars_of(request.merchant_organization_id.as_str()))
            && chars_eq(&chars_of(row.idempotency_key.as_str()), &chars_of(request.idempotency_key.as_str()))
            && (exactly(row.status.as_str(), "reserved") || exactly(row.status.as_str(), "consumed"));
        let found = row_has_line(row, &trimmed, lines);
        if !fields_ok || !found {
            proof {
                if !fields_ok {
                    assert(!row_fields_match(stored@[i as int], *request));
                    assert(!(forall|m: int| 0 <= m < stored@.len() ==> row_fields_match(#[trigger] stored@[m], *request)));
                } else {
                    assert(!row_has_some_line(stored@[i as int], request.lines@));
                    assert(!(forall|m: int| 0 <= m < stored@.len() ==> row_has_some_line(#[trigger] stored@[m], request.lines@)));
                }
                assert(!replay_matches(stored@, *request, existing as int));
            }
            return false;
        }
        i = i + 1;
    }
    let mut j: usize = 0;
    while j < lines.len()
        invariant
            lines@ == request.lines@,
            j <= lines@.len(),
            trimmed@.len() == lines@.len(),
            forall|m: int| 0 <= m < lines@.len() ==> (#[trigger] trimmed@[m])@ == trim(lines@[m].sku_id@),
            forall|m: int| 0 <= m < stored@.len() ==> row_fields_match(#[trigger] stored@[m], *request),
            forall|m: int| 0 <= m < stored@.len() ==> row_has_some_line(#[trigger] stored@[m], lines@),
            forall|m: int| 0 <= m < j ==> line_has_some_row(#[trigger] lines@[m], stored@),
        decreases lines.len() - j,
    {
        if !line_has_row(&lines[j], &trimmed[j], stored) {
            proof {
                assert(!line_has_some_row(request.lines@[j as int], stored@));
                assert(!(forall|m: int| 0 <= m < request.lines@.len() ==> line_has_some_row(#[trigger] request.lines@[m], stored@)));
                assert(!replay_matches(stored@, *request, existing as int));
            }
            return false;
        }
        j = j + 1;
    }
    proof {
        assert(existing as int == lines@.len());
    }
    true
}

/// Plans a reservation request against the rows already stored for the
/// order: invalid requests are rejected; an order with reservations is a
/// replay that must match them (else a conflict); otherwise the lines are
/// reserved (`Ok(false)`).
pub fn plan_inventory_reservation(
    request: &ReservePhysicalOrderInventoryRequest,
    existing: i64,
    stored: &Vec<StoredReservation>,
) -> (r: Result<bool, CommerceError>)
    ensures
        !(reserve_request_complete(*request) && distinct_skus(request.lines@)) ==> r.is_err()
            && r->Err_0.kind == ErrorKind::Validation,
        reserve_request_complete(*request) && distinct_skus(request.lines@) ==> {
            if existing > 0 {
                if replay_matches(stored@, *request, existing as int) {
                    r == Ok::<bool, CommerceError>(true)
                } else {
                    r.is_err() && r->Err_0.kind == ErrorKind::Conflict
                }
            } else {
                r == Ok::<bool, CommerceError>(false)
            }
        },
{
    validate_reserve_request(request)?;
    if existing > 0 {
        if reservation_replay_matches(stored, request, existing) {
            Ok(true)
        } else {
            Err(conflict("inventory reservation replay does not match the original order"))
        }
    } else {
        Ok(false)
    }
}

/// The counters of one stock row of a SKU.
#[derive(Clone, Copy, Debug, PartialEq, Eq, Structural)]
pub struct StockLevels {
    pub available: i64,
    pub reserved: i64,
    pub sold: i64,
    pub safety: i64,
    pub version: i64,
}

/// A movement of stock between the counters of a row.
#[derive(Clone, Copy, Debug, PartialEq, Eq, Structural)]
pub enum StockMove {
    /// Available to reserved, keeping the safety stock.
    Reserve,
    /// Reserved to sold.
    Consume,
    /// Reserved back to available.
    Release,
    /// Sold back to available (a return).
    Restock,
}

pub open spec fn in_i64(x: int) -> bool {
    i64::MIN <= x <= i64::MAX
}

/// The row's guard on moving `q` units.
pub open spec fn stock_guard(s: StockLevels, m: StockMove, q: int) -> bool {
    match m {
        StockMove::Reserve => s.available - s.safety >= q,
        StockMove::Consume => s.reserved >= q,
        StockMove::Release => s.reserved >= q,
        StockMove::Restock => s.sold >= q,
    }
}

pub open spec fn available_delta(m: StockMove, q: int) -> int {
    match m {
        StockMove::Reserve => -q,
        StockMove::Consume => 0,
        StockMove::Release => q,
        StockMove::Restock => q,
    }
}

pub open spec fn reserved_delta(m: StockMove, q: int) -> int {
    match m {
        StockMove::Reserve => q,
        StockMove::Consume => -q,
        StockMove::Release => -q,
        StockMove::Restock => 0,
    }
}

pub open spec fn sold_delta(m: StockMove, q: int) -> int {
    match m {
        StockMove::Reserve => 0,
        StockMove::Consume => q,
        StockMove::Release => 0,
        StockMove::Restock => -q,
    }
}

/// The row after moving `q` units, its version bumped; none when the
/// row's guard refuses the move or a counter would leave the `i64` range.
pub open spec fn stock_after(s: StockLevels, m: StockMove, q: int) -> Option<StockLevels> {
    if stock_guard(s, m, q) && in_i64(s.available + available_delta(m, q)) && in_i64(
        s.reserved + reserved_delta(m, q),
    ) && in_i64(s.sold + sold_delta(m, q)) && in_i64(s.version + 1) {
        Some(
            StockLevels {
                available: (s.available + available_delta(m, q)) as i64,
                reserved: (s.reserved + reserved_delta(m, q)) as i64,
                sold: (s.sold + sold_delta(m, q)) as i64,
                safety: s.safety,
                version: (s.version + 1) as i64,
            },
        )
    } else {
        None
    }
}

/// Moves `quantity` units of a stock row (see [`stock_after`]).
pub fn move_stock(s: StockLevels, m: StockMove, quantity: i64) -> (r: Option<StockLevels>)
    ensures
        r == stock_after(s, m, quantity as int),
{
    let q = quantity as i128;
    let guard = match m {
        StockMove::Reserve => (s.available as i128) - (s.safety as i128) >= q,
        StockMove::Consume => (s.reserved as i128) >= q,
        StockMove::Release => (s.reserved as i128) >= q,
        StockMove::Restock => (s.sold as i128) >= q,
    };
    let (da, dr, ds): (i128, i128, i128) = match m {
        StockMove::Reserve => (0 - q, q, 0),
        StockMove::Consume => (0, 0 - q, q),
        StockMove::Release => (q, 0 - q, 0),
        StockMove::Restock => (q, 0, 0 - q),
    };
    let a = (s.available as i128) + da;
    let r = (s.reserved as i128) + dr;
    let d = (s.sold as i128) + ds;
    let v = (s.version as i128) + 1;
    let lo = i64::MIN as i128;
    let hi = i64::MAX as i128;
    if guard && lo <= a && a <= hi && lo <= r && r <= hi && lo <= d && d <= hi && v <= hi {
        Some(StockLevels { available: a as i64, reserved: r as i64, sold: d as i64, safety: s.safety, version: v as i64 })
    } else {
        None
    }
}

/// A stock row whose counters are not negative.
pub open spec fn stock_valid(s: StockLevels) -> bool {
    s.available >= 0 && s.reserved >= 0 && s.sold >= 0 && s.safety >= 0
}

/// The units a stock row accounts for.
pub open spec fn stock_total(s: StockLevels) -> int {
    s.available + s.reserved + s.sold
}

/// Every movement keeps the row's total: stock only moves between its
/// counters, and each movement bumps the version once.
pub proof fn law_stock_moves_keep_the_total(s: StockLevels, m: StockMove, q: int)
    ensures
        stock_after(s, m, q) matches Some(t) ==> stock_total(t) == stock_total(s) && t.version == s.version + 1
            && t.safety == s.safety,
{
}

/// Moving a positive quantity keeps every counter of a row from going
/// negative: each guard refuses a move that would.
pub proof fn law_stock_moves_keep_rows_valid(s: StockLevels, m: StockMove, q: int)
    requires
        stock_valid(s),
        q > 0,
    ensures
        stock_after(s, m, q) matches Some(t) ==> stock_valid(t),
{
}

/// A reservation never dips into the safety stock.
pub proof fn law_reserve_keeps_safety_stock(s: StockLevels, q: int)
    ensures
        stock_after(s, StockMove::Reserve, q) matches Some(t) ==> t.available >= t.safety,
{
}

/// Releasing what was reserved gives the row back its counters: a
/// released reservation leaves available, reserved and sold as they were
/// before it, and the release is always allowed when the reserved counter
/// was not negative.
pub proof fn law_release_undoes_reserve(s: StockLevels, q: int)
    requires
        s.reserved >= 0,
        s.version < i64::MAX - 1,
    ensures
        stock_after(s, StockMove::Reserve, q) matches Some(t) ==> stock_after(t, StockMove::Release, q) matches Some(u)
            && u.available == s.available && u.reserved == s.reserved && u.sold == s.sold,
{
}

/// Consuming what was reserved sells it: after a reservation and its
/// consumption the row has `q` fewer available, the same reserved, and `q`
/// more sold; a restock of those `q` then returns them to available.
pub proof fn law_consume_after_reserve_sells(s: StockLevels, q: int)
    requires
        stock_valid(s),
        stock_total(s) <= i64::MAX,
        s.version < i64::MAX - 2,
    ensures
        match stock_after(s, StockMove::Reserve, q) {
            Some(t) => match stock_after(t, StockMove::Consume, q) {
                Some(u) => u.available == s.available - q && u.reserved == s.reserved && u.sold == s.sold + q
                    && match stock_after(u, StockMove::Restock, q) {
                    Some(w) => w.available == s.available && w.reserved == s.reserved && w.sold == s.sold,
                    None => false,
                },
                None => false,
            },
            None => true,
        },
{
}

} // verus!
