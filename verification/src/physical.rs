//! The rules a physical checkout is resolved by: one merchant, distinct
//! SKUs with positive quantities, shippable and tracked SKUs of active
//! physical products, and an open, reviewed shop in the checkout currency.
use vstd::prelude::*;
use crate::error::{conflict, not_found, validation, CommerceError, ErrorKind};
use crate::text::{
    chars_eq, chars_eq_str, chars_of, int_text, i64_text, lower_chars, lower_seq, string_of, trim,
    trim_chars, trim_lower, upper_chars, upper_seq,
};
use crate::transitions::same_ignoring_case;

verus! {

/// What the resolver reads of a catalog SKU.
#[derive(Clone, Debug)]
pub struct SkuFacts {
    pub status: String,
    pub fulfillment_type: String,
    pub inventory_tracking: String,
    pub currency_code: String,
    pub organization_id: i64,
    pub title: Option<String>,
    pub name: Option<String>,
}

/// What the resolver reads of a catalog product.
#[derive(Clone, Debug)]
pub struct SpuFacts {
    pub status: String,
    pub product_type: String,
}

/// What the resolver reads of the merchant's shop.
#[derive(Clone, Debug)]
pub struct ShopFacts {
    pub operation_status: String,
    pub storefront_status: String,
    pub review_status: String,
    pub default_currency_code: String,
}

pub open spec fn key(s: Seq<char>) -> Seq<char> {
    lower_seq(trim(s))
}

/// The verdict on a SKU: active, shipped physically, inventory tracked,
/// priced in the checkout currency.
pub open spec fn sku_verdict(sku: SkuFacts, currency_code: Seq<char>) -> Result<(), ErrorKind> {
    if !same_ignoring_case(sku.status@, "active"@) {
        Err(ErrorKind::Conflict)
    } else if !(key(sku.fulfillment_type@) == "physical"@ || key(sku.fulfillment_type@)
        == "physical_shipment"@) {
        Err(ErrorKind::Conflict)
    } else if key(sku.inventory_tracking@) == "none"@ || key(sku.inventory_tracking@) == "disabled"@
        || key(sku.inventory_tracking@) == "untracked"@ {
        Err(ErrorKind::Conflict)
    } else if !same_ignoring_case(sku.currency_code@, currency_code) {
        Err(ErrorKind::Conflict)
    } else {
        Ok(())
    }
}

pub open spec fn verdict_of(r: Result<(), CommerceError>) -> Result<(), ErrorKind> {
    match r {
        Ok(_) => Ok(()),
        Err(e) => Err(e.kind),
    }
}

fn ignoring_case(a: &str, b: &str) -> (r: bool)
    ensures
        r == same_ignoring_case(a@, b@),
{
    chars_eq(&lower_chars(&chars_of(a)), &lower_chars(&chars_of(b)))
}

/// A SKU passes exactly when it is active (ASCII case ignored), ships
/// physically (`physical` or `physical_shipment`, trimmed, case ignored),
/// tracks its inventory (tracking is not `none`, `disabled` or
/// `untracked`) and is priced in the checkout currency (case ignored);
/// every refusal is a conflict. A product passes exactly when it is active
/// and physical (`physical`, `physical_goods` or `physical_shipment`). A
/// shop passes exactly when it operates (`active`), its storefront is
/// `active`, `open` or `published`, its review is `approved`, `passed` or
/// `active`, and its currency is the checkout currency.
pub proof fn law_physical_checkout_rules(sku: SkuFacts, spu: SpuFacts, shop: ShopFacts, currency_code: Seq<char>)
    ensures
        sku_verdict(sku, currency_code) is Ok <==> (lower_seq(sku.status@) == lower_seq("active"@) && (key(
            sku.fulfillment_type@,
        ) == "physical"@ || key(sku.fulfillment_type@) == "physical_shipment"@) && key(sku.inventory_tracking@)
            != "none"@ && key(sku.inventory_tracking@) != "disabled"@ && key(sku.inventory_tracking@)
            != "untracked"@ && lower_seq(sku.currency_code@) == lower_seq(currency_code)),
        sku_verdict(sku, currency_code) is Err ==> sku_verdict(sku, currency_code) == Err::<(), ErrorKind>(
            ErrorKind::Conflict,
        ),
        spu_verdict(spu) is Ok <==> (lower_seq(spu.status@) == lower_seq("active"@) && (key(spu.product_type@)
            == "physical"@ || key(spu.product_type@) == "physical_goods"@ || key(spu.product_type@)
            == "physical_shipment"@)),
        spu_verdict(spu) is Err ==> spu_verdict(spu) == Err::<(), ErrorKind>(ErrorKind::Conflict),
        shop_verdict(shop, currency_code) is Ok <==> (lower_seq(shop.operation_status@) == lower_seq("active"@)
            && (key(shop.storefront_status@) == "active"@ || key(shop.storefront_status@) == "open"@ || key(
            shop.storefront_status@,
        ) == "published"@) && (key(shop.review_status@) == "approved"@ || key(shop.review_status@)
            == "passed"@ || key(shop.review_status@) == "active"@) && lower_seq(shop.default_currency_code@)
            == lower_seq(currency_code)),
        shop_verdict(shop, currency_code) is Err ==> shop_verdict(shop, currency_code) == Err::<(), ErrorKind>(
            ErrorKind::Conflict,
        ),
{
}

/// Checks a SKU offered for a physical checkout (its price is checked by
/// the caller, which owns the money unit).
pub fn validate_sku(sku: &SkuFacts, currency_code: &str) -> (r: Result<(), CommerceError>)
    ensures
        verdict_of(r) == sku_verdict(*sku, currency_code@),
{
    if !ignoring_case(sku.status.as_str(), "active") {
        return Err(conflict("checkout SKU is not active"));
    }
    let f = trim_lower(sku.fulfillment_type.as_str());
    if !(chars_eq_str(&f, "physical") || chars_eq_str(&f, "physical_shipment")) {
        return Err(conflict("checkout SKU is not physically shippable"));
    }
    let t = trim_lower(sku.inventory_tracking.as_str());
    if chars_eq_str(&t, "none") || chars_eq_str(&t, "disabled") || chars_eq_str(&t, "untracked") {
        return Err(conflict("physical SKU must enable inventory tracking"));
    }
    if !ignoring_case(sku.currency_code.as_str(), currency_code) {
        return Err(conflict("checkout SKU currency does not match checkout currency"));
    }
    Ok(())
}

/// The verdict on a product: active and physical.
pub open spec fn spu_verdict(spu: SpuFacts) -> Result<(), ErrorKind> {
    if !same_ignoring_case(spu.status@, "active"@) {
        Err(ErrorKind::Conflict)
    } else if !(key(spu.product_type@) == "physical"@ || key(spu.product_type@) == "physical_goods"@
        || key(spu.product_type@) == "physical_shipment"@) {
        Err(ErrorKind::Conflict)
    } else {
        Ok(())
    }
}

/// Checks the product of a SKU offered for a physical checkout.
pub fn validate_spu(spu: &SpuFacts) -> (r: Result<(), CommerceError>)
    ensures
        verdict_of(r) == spu_verdict(*spu),
{
    if !ignoring_case(spu.status.as_str(), "active") {
        return Err(conflict("checkout product is not active"));
    }
    let p = trim_lower(spu.product_type.as_str());
    if !(chars_eq_str(&p, "physical") || chars_eq_str(&p, "physical_goods") || chars_eq_str(
        &p,
        "physical_shipment",
    )) {
        return Err(conflict("checkout product is not a physical product"));
    }
    Ok(())
}

/// The verdict on the merchant's shop: operating, storefront open, review
/// passed, and the checkout currency as its currency.
pub open spec fn shop_verdict(shop: ShopFacts, currency_code: Seq<char>) -> Result<(), ErrorKind> {
    if !same_ignoring_case(shop.operation_status@, "active"@) {
        Err(ErrorKind::Conflict)
    } else if !(key(shop.storefront_status@) == "active"@ || key(shop.storefront_status@) == "open"@
        || key(shop.storefront_status@) == "published"@) {
        Err(ErrorKind::Conflict)
    } else if !(key(shop.review_status@) == "approved"@ || key(shop.review_status@) == "passed"@
        || key(shop.review_status@) == "active"@) {
        Err(ErrorKind::Conflict)
    } else if !same_ignoring_case(shop.default_currency_code@, currency_code) {
        Err(ErrorKind::Conflict)
    } else {
        Ok(())
    }
}

/// Checks the shop a physical checkout is placed with.
pub fn validate_shop(shop: &ShopFacts, currency_code: &str) -> (r: Result<(), CommerceError>)
    ensures
        verdict_of(r) == shop_verdict(*shop, currency_code@),
{
    if !ignoring_case(shop.operation_status.as_str(), "active") {
        return Err(conflict("merchant shop is not operational"));
    }
    let s = trim_lower(shop.storefront_status.as_str());
    if !(chars_eq_str(&s, "active") || chars_eq_str(&s, "open") || chars_eq_str(&s, "published")) {
        return Err(conflict("merchant storefront is not open"));
    }
    let v = trim_lower(shop.review_status.as_str());
    if !(chars_eq_str(&v, "approved") || chars_eq_str(&v, "passed") || chars_eq_str(&v, "active")) {
        return Err(conflict("merchant shop has not passed review"));
    }
    if !ignoring_case(shop.default_currency_code.as_str(), currency_code) {
        return Err(conflict("merchant shop currency does not match checkout currency"));
    }
    Ok(())
}

/// `value` when it holds more than whitespace.
pub open spec fn non_blank_view(value: Option<Seq<char>>) -> Option<Seq<char>> {
    match value {
        Some(v) => if trim(v).len() > 0 {
            Some(v)
        } else {
            None
        },
        None => None,
    }
}

pub open spec fn opt_text(o: Option<String>) -> Option<Seq<char>> {
    match o {
        Some(s) => Some(s@),
        None => None,
    }
}

pub fn non_blank(value: &Option<String>) -> (r: Option<String>)
    ensures
        opt_text(r) == non_blank_view(opt_text(*value)),
{
    match value {
        Some(v) => {
            if trim_chars(&chars_of(v.as_str())).len() > 0 {
                Some(v.clone())
            } else {
                None
            }
        },
        None => None,
    }
}

/// The title a resolved line carries: the SKU's title, else its name (each
/// only when not blank), else nothing.
pub open spec fn sku_title(sku: SkuFacts) -> Seq<char> {
    match non_blank_view(opt_text(sku.title)) {
        Some(t) => t,
        None => match non_blank_view(opt_text(sku.name)) {
            Some(n) => n,
            None => Seq::empty(),
        },
    }
}

/// The title a resolved line carries (see [`sku_title`]).
pub fn sku_line_title(sku: &SkuFacts) -> (r: String)
    ensures
        r@ == sku_title(*sku),
{
    match non_blank(&sku.title) {
        Some(t) => t,
        None => match non_blank(&sku.name) {
            Some(n) => n,
            None => String::new(),
        },
    }
}

/// A requested line whose SKU and product passed their checks, with the
/// unit price (minor units) that the catalog's money unit gave its price and
/// the item snapshot written for it.
#[derive(Clone, Debug)]
pub struct PricedSkuLine {
    pub sku_id: i64,
    pub spu_id: i64,
    pub sku: SkuFacts,
    pub quantity: i64,
    pub unit_price: String,
    pub sku_snapshot_json: String,
}

/// A line of a resolved physical checkout.
#[derive(Clone, Debug)]
pub struct ResolvedCheckoutLine {
    pub sku_id: String,
    pub product_id: String,
    pub merchant_organization_id: String,
    pub shop_id: String,
    pub title: String,
    pub unit_price: String,
    pub currency_code: String,
    pub fulfillment_type: String,
    pub quantity: i64,
    pub inventory_tracking: String,
    pub sku_snapshot_json: String,
}

/// `r` is the resolved line of SKU `sku_id` (product `spu_id`, facts `sku`)
/// bought `quantity` times at `unit_price`, sold by `merchant` through the
/// shop `shop_id`: ids as decimal text, the SKU's title, its currency
/// upper-cased, and the quantity, price, fulfillment, tracking and snapshot
/// kept.
pub open spec fn resolved_line_parts(
    sku_id: i64,
    spu_id: i64,
    sku: SkuFacts,
    quantity: i64,
    unit_price: Seq<char>,
    sku_snapshot_json: Seq<char>,
    merchant: Seq<char>,
    shop_id: Seq<char>,
    r: ResolvedCheckoutLine,
) -> bool {
    &&& r.sku_id@ == int_text(sku_id as int)
    &&& r.product_id@ == int_text(spu_id as int)
    &&& r.merchant_organization_id@ == merchant
    &&& r.shop_id@ == shop_id
    &&& r.title@ == sku_title(sku)
    &&& r.unit_price@ == unit_price
    &&& r.currency_code@ == upper_seq(sku.currency_code@)
    &&& r.fulfillment_type@ == sku.fulfillment_type@
    &&& r.quantity == quantity
    &&& r.inventory_tracking@ == sku.inventory_tracking@
    &&& r.sku_snapshot_json@ == sku_snapshot_json
}

/// `r` is the resolved form of the priced `line` (see
/// [`resolved_line_parts`]).
pub open spec fn resolved_line(
    line: PricedSkuLine,
    merchant: Seq<char>,
    shop_id: Seq<char>,
    r: ResolvedCheckoutLine,
) -> bool {
    resolved_line_parts(
        line.sku_id,
        line.spu_id,
        line.sku,
        line.quantity,
        line.unit_price@,
        line.sku_snapshot_json@,
        merchant,
        shop_id,
        r,
    )
}

fn resolve_line(
    sku_id: i64,
    spu_id: i64,
    sku: &SkuFacts,
    quantity: i64,
    unit_price: &str,
    sku_snapshot_json: &str,
    merchant: &str,
    shop_id: &str,
) -> (r: ResolvedCheckoutLine)
    ensures
        resolved_line_parts(
            sku_id,
            spu_id,
            *sku,
            quantity,
            unit_price@,
            sku_snapshot_json@,
            merchant@,
            shop_id@,
            r,
        ),
{
    ResolvedCheckoutLine {
        sku_id: string_of(&i64_text(sku_id)),
        product_id: string_of(&i64_text(spu_id)),
        merchant_organization_id: merchant.to_owned(),
        shop_id: shop_id.to_owned(),
        title: sku_line_title(sku),
        unit_price: unit_price.to_owned(),
        currency_code: string_of(&upper_chars(&chars_of(sku.currency_code.as_str()))),
        fulfillment_type: sku.fulfillment_type.clone(),
        quantity,
        inventory_tracking: sku.inventory_tracking.clone(),
        sku_snapshot_json: sku_snapshot_json.to_owned(),
    }
}

/// The lines of a resolved physical checkout, one for each priced line and
/// in the same order, all with the checkout's merchant and shop.
pub fn resolved_checkout_lines(
    lines: &Vec<PricedSkuLine>,
    merchant_organization_id: &str,
    shop_id: &str,
) -> (r: Vec<ResolvedCheckoutLine>)
    ensures
        r@.len() == lines@.len(),
        forall|i: int|
            0 <= i < lines@.len() ==> resolved_line(
                lines@[i],
                merchant_organization_id@,
                shop_id@,
                #[trigger] r@[i],
            ),
{
    let mut r: Vec<ResolvedCheckoutLine> = Vec::new();
    let mut i: usize = 0;
    while i < lines.len()
        invariant
            i <= lines@.len(),
            r@.len() == i,
            forall|k: int|
                0 <= k < i ==> resolved_line(
                    lines@[k],
                    merchant_organization_id@,
                    shop_id@,
                    #[trigger] r@[k],
                ),
        decreases lines.len() - i,
    {
        let line = &lines[i];
        let resolved = resolve_line(
            line.sku_id,
            line.spu_id,
            &line.sku,
            line.quantity,
            line.unit_price.as_str(),
            line.sku_snapshot_json.as_str(),
            merchant_organization_id,
            shop_id,
        );
        r.push(resolved);
        i = i + 1;
    }
    r
}

/// The running state of a physical checkout's resolution: the SKUs seen so
/// far (trimmed) and the one merchant every line belongs to.
pub struct PhysicalCheckoutResolution {
    pub seen_skus: Vec<Vec<char>>,
    pub merchant_organization_id: Option<i64>,
}

impl PhysicalCheckoutResolution {
    pub open spec fn seen(&self) -> Seq<Seq<char>> {
        self.seen_skus@.map_values(|v: Vec<char>| v@)
    }

    /// No SKU was admitted twice.
    pub open spec fn wf(&self) -> bool {
        self.seen().no_duplicates()
    }

    /// A resolution before any line; a checkout must have a line.
    pub fn start(line_count: usize) -> (r: Result<Self, CommerceError>)
        ensures
            line_count == 0 ==> r.is_err() && r->Err_0.kind == ErrorKind::Validation,
            line_count > 0 ==> r.is_ok() && r->Ok_0.seen().len() == 0
                && r->Ok_0.merchant_organization_id.is_none() && r->Ok_0.wf(),
    {
        if line_count == 0 {
            return Err(validation("physical checkout requires at least one line"));
        }
        let r = PhysicalCheckoutResolution { seen_skus: Vec::new(), merchant_organization_id: None };
        assert(r.seen() =~= Seq::<Seq<char>>::empty());
        Ok(r)
    }

    /// Admits a requested line: its quantity must be positive and its SKU
    /// (trimmed) not requested before.
    pub fn admit_line(&mut self, quantity: i64, sku_id: &str) -> (r: Result<(), CommerceError>)
        requires
            old(self).wf(),
        ensures
            final(self).wf(),
            quantity <= 0 ==> r.is_err() && r->Err_0.kind == ErrorKind::Validation && final(self).seen()
                == old(self).seen(),
            quantity > 0 && old(self).seen().contains(trim(sku_id@)) ==> r.is_err() && r->Err_0.kind
                == ErrorKind::Validation && final(self).seen() == old(self).seen(),
            quantity > 0 && !old(self).seen().contains(trim(sku_id@)) ==> r.is_ok() && final(self).seen()
                == old(self).seen().push(trim(sku_id@)),
            final(self).merchant_organization_id == old(self).merchant_organization_id,
    {
        if quantity <= 0 {
            return Err(validation("physical checkout quantity must be greater than zero"));
        }
        let sku = trim_chars(&chars_of(sku_id));
        let mut i: usize = 0;
        while i < self.seen_skus.len()
            invariant
                i <= self.seen_skus@.len(),
                sku@ == trim(sku_id@),
                self.wf(),
                forall|k: int| 0 <= k < i ==> (#[trigger] self.seen_skus@[k])@ != sku@,
            decreases self.seen_skus.len() - i,
        {
            if chars_eq(&self.seen_skus[i], &sku) {
                proof {
                    assert(self.seen()[i as int] == trim(sku_id@));
                }
                return Err(validation("physical checkout contains duplicate SKU lines"));
            }
            i = i + 1;
        }
        proof {
            assert forall|k: int| 0 <= k < self.seen().len() implies self.seen()[k] != trim(sku_id@) by {
                assert(self.seen()[k] == self.seen_skus@[k]@);
            }
        }
        self.seen_skus.push(sku);
        proof {
            assert(self.seen() =~= old(self).seen().push(trim(sku_id@)));
        }
        Ok(())
    }

    /// Admits the seller of a line's SKU: it must name a merchant, and
    /// the same merchant as every earlier line.
    pub fn admit_seller(&mut self, organization_id: i64) -> (r: Result<(), CommerceError>)
        ensures
            organization_id <= 0 ==> r.is_err() && r->Err_0.kind == ErrorKind::Conflict,
            organization_id > 0 && old(self).merchant_organization_id.is_some()
                && old(self).merchant_organization_id != Some(organization_id) ==> r.is_err()
                && r->Err_0.kind == ErrorKind::Conflict,
            r.is_ok() <==> organization_id > 0 && (old(self).merchant_organization_id.is_none()
                || old(self).merchant_organization_id == Some(organization_id)),
            r.is_ok() ==> final(self).merchant_organization_id == Some(organization_id),
            r.is_err() ==> final(self).merchant_organization_id == old(self).merchant_organization_id,
            final(self).seen() == old(self).seen(),
    {
        if organization_id <= 0 {
            return Err(conflict("physical SKU has no merchant organization"));
        }
        match self.merchant_organization_id {
            Some(existing) => {
                if existing != organization_id {
                    return Err(conflict("cross-shop checkout is not supported"));
                }
            },
            None => {},
        }
        self.merchant_organization_id = Some(organization_id);
        Ok(())
    }

    /// The merchant of the resolved checkout, as decimal text.
    pub fn merchant(&self) -> (r: Result<String, CommerceError>)
        ensures
            match self.merchant_organization_id {
                Some(m) => r.is_ok() && r->Ok_0@ == int_text(m as int),
                None => r.is_err() && r->Err_0.kind == ErrorKind::Conflict,
            },
    {
        match self.merchant_organization_id {
            Some(m) => Ok(string_of(&i64_text(m))),
            None => Err(conflict("physical checkout merchant is unavailable")),
        }
    }
}

/// A line of a physical checkout request.
#[derive(Clone, Debug)]
pub struct PhysicalCheckoutRequestLine {
    pub sku_id: String,
    pub quantity: i64,
}

/// A physical checkout request: the checkout currency and the lines.
#[derive(Clone, Debug)]
pub struct PhysicalCheckoutRequest {
    pub currency_code: String,
    pub lines: Vec<PhysicalCheckoutRequestLine>,
}

/// A catalog SKU: its id, its product's id, and what the rules read of it.
#[derive(Clone, Debug)]
pub struct CatalogSku {
    pub id: i64,
    pub spu_id: i64,
    pub facts: SkuFacts,
}

/// What the catalog gave for one request line: the SKU (none when not
/// found), its product (none when not found), the unit price (minor units)
/// that the currency's money unit made of the SKU's price or why it could
/// not, and the item snapshot written for the line.
#[derive(Debug)]
pub struct PhysicalLineFacts {
    pub sku: Option<CatalogSku>,
    pub spu: Option<SpuFacts>,
    pub unit_price: Result<String, CommerceError>,
    pub sku_snapshot_json: String,
}

/// The current shop of a merchant, with the snapshot written for it.
#[derive(Clone, Debug)]
pub struct CurrentShop {
    pub shop_id: String,
    pub facts: ShopFacts,
    pub snapshot_json: String,
}

/// A resolved physical checkout: one merchant, its shop, and the lines.
#[derive(Clone, Debug)]
pub struct ResolvedPhysicalCheckout {
    pub merchant_organization_id: String,
    pub shop_id: String,
    pub shop_snapshot_json: String,
    pub lines: Vec<ResolvedCheckoutLine>,
}

/// The SKUs admitted so far (trimmed ids) and the one merchant.
pub type AdmissionState = (Seq<Seq<char>>, Option<i64>);

/// One request line admitted into the state, or why not: a positive
/// quantity, a SKU not requested before, found and valid for the currency,
/// sold by a merchant and by the same merchant as before, of a product
/// found, active and physical.
pub open spec fn admit_step(
    state: AdmissionState,
    line: PhysicalCheckoutRequestLine,
    facts: PhysicalLineFacts,
    currency_code: Seq<char>,
) -> Result<AdmissionState, ErrorKind> {
    if line.quantity <= 0 {
        Err(ErrorKind::Validation)
    } else if state.0.contains(trim(line.sku_id@)) {
        Err(ErrorKind::Validation)
    } else {
        match facts.sku {
            None => Err(ErrorKind::NotFound),
            Some(sku) => match sku_verdict(sku.facts, currency_code) {
                Err(k) => Err(k),
                Ok(_) => if sku.facts.organization_id <= 0 {
                    Err(ErrorKind::Conflict)
                } else if state.1.is_some() && state.1 != Some(sku.facts.organization_id) {
                    Err(ErrorKind::Conflict)
                } else {
                    match facts.spu {
                        None => Err(ErrorKind::NotFound),
                        Some(spu) => match spu_verdict(spu) {
                            Err(k) => Err(k),
                            Ok(_) => Ok(
                                (state.0.push(trim(line.sku_id@)), Some(sku.facts.organization_id)),
                            ),
                        },
                    }
                },
            },
        }
    }
}

/// The state after the first `n` request lines, or the first refusal.
pub open spec fn admitted_prefix(
    lines: Seq<PhysicalCheckoutRequestLine>,
    facts: Seq<PhysicalLineFacts>,
    currency_code: Seq<char>,
    n: nat,
) -> Result<AdmissionState, ErrorKind>
    decreases n,
{
    if n == 0 {
        Ok((Seq::empty(), None))
    } else {
        match admitted_prefix(lines, facts, currency_code, (n - 1) as nat) {
            Err(k) => Err(k),
            Ok(state) => admit_step(state, lines[n - 1], facts[n - 1], currency_code),
        }
    }
}

/// The first unit price that could not be had, if any.
pub open spec fn first_price_error(facts: Seq<PhysicalLineFacts>) -> Option<ErrorKind>
    decreases facts.len(),
{
    if facts.len() == 0 {
        None
    } else {
        match first_price_error(facts.drop_last()) {
            Some(k) => Some(k),
            None => match facts.last().unit_price {
                Err(e) => Some(e.kind),
                Ok(_) => None,
            },
        }
    }
}

/// The verdict on a physical checkout: at least one line, every line
/// admitted in order, the merchant's shop found and valid, and every unit
/// price had.
pub open spec fn physical_checkout_verdict(
    request: PhysicalCheckoutRequest,
    facts: Seq<PhysicalLineFacts>,
    shop: Option<CurrentShop>,
) -> Result<(), ErrorKind> {
    if request.lines@.len() == 0 {
        Err(ErrorKind::Validation)
    } else {
        match admitted_prefix(request.lines@, facts, request.currency_code@, request.lines@.len()) {
            Err(k) => Err(k),
            Ok(_) => match shop {
                None => Err(ErrorKind::NotFound),
                Some(s) => match shop_verdict(s.facts, request.currency_code@) {
                    Err(k) => Err(k),
                    Ok(_) => match first_price_error(facts) {
                        Some(k) => Err(k),
                        None => Ok(()),
                    },
                },
            },
        }
    }
}

pub open spec fn outcome_of<T>(r: Result<T, CommerceError>) -> Result<(), ErrorKind> {
    match r {
        Ok(_) => Ok(()),
        Err(e) => Err(e.kind),
    }
}

/// The merchant every admitted line belongs to.
pub open spec fn admitted_merchant(
    request: PhysicalCheckoutRequest,
    facts: Seq<PhysicalLineFacts>,
) -> int {
    match admitted_prefix(request.lines@, facts, request.currency_code@, request.lines@.len()) {
        Ok(state) => match state.1 {
            Some(m) => m as int,
            None => 0,
        },
        Err(_) => 0,
    }
}

/// `r` is the resolved form of request line `k`, sold by `merchant`
/// through the shop `shop_id`, in the checkout currency upper-cased.
pub open spec fn checkout_line_resolved(
    request: PhysicalCheckoutRequest,
    facts: Seq<PhysicalLineFacts>,
    k: int,
    merchant: Seq<char>,
    shop_id: Seq<char>,
    r: ResolvedCheckoutLine,
) -> bool {
    let sku = facts[k].sku.unwrap();
    &&& resolved_line_parts(
        sku.id,
        sku.spu_id,
        sku.facts,
        request.lines@[k].quantity,
        facts[k].unit_price->Ok_0@,
        facts[k].sku_snapshot_json@,
        merchant,
        shop_id,
        r,
    )
    &&& r.currency_code@ == upper_seq(request.currency_code@)
}

proof fn lemma_refusal_persists(
    lines: Seq<PhysicalCheckoutRequestLine>,
    facts: Seq<PhysicalLineFacts>,
    currency_code: Seq<char>,
    j: nat,
    n: nat,
)
    requires
        j <= n,
        admitted_prefix(lines, facts, currency_code, j).is_err(),
    ensures
        admitted_prefix(lines, facts, currency_code, n) == admitted_prefix(lines, facts, currency_code, j),
    decreases n - j,
{
    if j < n {
        lemma_refusal_persists(lines, facts, currency_code, j, (n - 1) as nat);
    }
}

proof fn lemma_upper_ignores_case(a: Seq<char>, b: Seq<char>)
    requires
        same_ignoring_case(a, b),
    ensures
        upper_seq(a) == upper_seq(b),
{
    assert(a.len() == lower_seq(a).len());
    assert(b.len() == lower_seq(b).len());
    assert forall|i: int| 0 <= i < a.len() implies upper_seq(a)[i] == upper_seq(b)[i] by {
        assert(lower_seq(a)[i] == lower_seq(b)[i]);
        let x = a[i];
        let y = b[i];
        assert(crate::text::lower_char(x) == crate::text::lower_char(y));
        assert(x as int == y as int || x as int + 32 == y as int || y as int + 32 == x as int);
    }
    assert(upper_seq(a) =~= upper_seq(b));
}

/// Resolves a physical checkout. `facts[i]` is what the catalog gave for
/// `request.lines[i]`, and `shop` is the current shop of the merchant of
/// the first line's SKU. The lines are checked in order and the first
/// refusal is returned (see [`physical_checkout_verdict`]); a resolved
/// checkout has one line per request line, with its quantity, the one
/// merchant, its shop and the checkout currency upper-cased.
pub fn resolve_physical_checkout(
    request: &PhysicalCheckoutRequest,
    facts: &Vec<PhysicalLineFacts>,
    shop: &Option<CurrentShop>,
) -> (r: Result<ResolvedPhysicalCheckout, CommerceError>)
    requires
        facts@.len() == request.lines@.len(),
    ensures
        outcome_of(r) == physical_checkout_verdict(*request, facts@, *shop),
        r.is_ok() ==> {
            let c = r->Ok_0;
            let n = request.lines@.len();
            let merchant = admitted_merchant(*request, facts@);
            &&& n > 0
            &&& merchant > 0
            &&& shop.is_some()
            &&& c.merchant_organization_id@ == int_text(merchant)
            &&& c.shop_id@ == shop.unwrap().shop_id@
            &&& c.shop_snapshot_json@ == shop.unwrap().snapshot_json@
            &&& c.lines@.len() == n
            &&& forall|i: int|
                0 <= i < n ==> (#[trigger] request.lines@[i]).quantity > 0
                    && facts@[i].sku.is_some()
                    && facts@[i].sku.unwrap().facts.organization_id == merchant
                    && facts@[i].unit_price is Ok
            &&& forall|i: int, j: int|
                0 <= i < j < n ==> trim((#[trigger] request.lines@[i]).sku_id@) != trim(
                    (#[trigger] request.lines@[j]).sku_id@,
                )
            &&& forall|i: int|
                0 <= i < n ==> checkout_line_resolved(
                    *request,
                    facts@,
                    i,
                    c.merchant_organization_id@,
                    c.shop_id@,
                    #[trigger] c.lines@[i],
                )
        },
{
    let ghost lines = request.lines@;
    let ghost cur = request.currency_code@;
    let ghost n = lines.len();
    let mut resolution = match PhysicalCheckoutResolution::start(request.lines.len()) {
        Ok(s) => s,
        Err(e) => return Err(e),
    };
    proof {
        assert(resolution.seen() =~= Seq::<Seq<char>>::empty());
    }
    let mut i: usize = 0;
    while i < request.lines.len()
        invariant
            facts@.len() == request.lines@.len(),
            lines == request.lines@,
            cur == request.currency_code@,
            n == lines.len(),
            n > 0,
            i <= n,
            resolution.wf(),
            admitted_prefix(lines, facts@, cur, i as nat) == Ok::<AdmissionState, ErrorKind>(
                (resolution.seen(), resolution.merchant_organization_id),
            ),
            i > 0 ==> resolution.merchant_organization_id.is_some()
                && resolution.merchant_organization_id.unwrap() > 0,
            resolution.seen().len() == i,
            forall|k: int| 0 <= k < i ==> resolution.seen()[k] == trim((#[trigger] lines[k]).sku_id@),
            forall|k: int|
                0 <= k < i ==> (#[trigger] lines[k]).quantity > 0 && facts@[k].sku.is_some()
                    && Some(facts@[k].sku.unwrap().facts.organization_id)
                    == resolution.merchant_organization_id
                    && sku_verdict(facts@[k].sku.unwrap().facts, cur) == Ok::<(), ErrorKind>(()),
        decreases n - i,
    {
        let line = &request.lines[i];
        let f = &facts[i];
        let ghost before = (resolution.seen(), resolution.merchant_organization_id);
        proof {
            assert(admitted_prefix(lines, facts@, cur, (i + 1) as nat) == admit_step(
                before,
                lines[i as int],
                facts@[i as int],
                cur,
            ));
        }
        match resolution.admit_line(line.quantity, line.sku_id.as_str()) {
            Ok(()) => {},
            Err(e) => {
                proof {
                    lemma_refusal_persists(lines, facts@, cur, (i + 1) as nat, n);
                }
                return Err(e);
            },
        }
        let sku = match &f.sku {
            Some(s) => s,
            None => {
                proof {
                    lemma_refusal_persists(lines, facts@, cur, (i + 1) as nat, n);
                }
                return Err(not_found("checkout SKU was not found"));
            },
        };
        match validate_sku(&sku.facts, request.currency_code.as_str()) {
            Ok(()) => {},
            Err(e) => {
                proof {
                    lemma_refusal_persists(lines, facts@, cur, (i + 1) as nat, n);
                }
                return Err(e);
            },
        }
        match resolution.admit_seller(sku.facts.organization_id) {
            Ok(()) => {},
            Err(e) => {
                proof {
                    lemma_refusal_persists(lines, facts@, cur, (i + 1) as nat, n);
                }
                return Err(e);
            },
        }
        let spu = match &f.spu {
            Some(p) => p,
            None => {
                proof {
                    lemma_refusal_persists(lines, facts@, cur, (i + 1) as nat, n);
                }
                return Err(not_found("checkout product was not found"));
            },
        };
        match validate_spu(spu) {
            Ok(()) => {},
            Err(e) => {
                proof {
                    lemma_refusal_persists(lines, facts@, cur, (i + 1) as nat, n);
                }
                return Err(e);
            },
        }
        proof {
            assert forall|k: int|
                0 <= k < i + 1 implies (#[trigger] lines[k]).quantity > 0 && facts@[k].sku.is_some()
                && Some(facts@[k].sku.unwrap().facts.organization_id)
                == resolution.merchant_organization_id
                && sku_verdict(facts@[k].sku.unwrap().facts, cur) == Ok::<(), ErrorKind>(()) by {
                if k < i {
                    assert(lines[k].quantity > 0);
                    assert(before.1 == Some(facts@[k].sku.unwrap().facts.organization_id));
                }
            }
            assert forall|k: int| 0 <= k < i + 1 implies resolution.seen()[k] == trim(
                (#[trigger] lines[k]).sku_id@,
            ) by {
                if k < i {
                    assert(resolution.seen()[k] == before.0[k]);
                }
            }
        }
        i = i + 1;
    }
    let merchant = match resolution.merchant() {
        Ok(m) => m,
        Err(e) => return Err(e),
    };
    let current = match shop {
        Some(s) => s,
        None => return Err(not_found("merchant shop was not found")),
    };
    match validate_shop(&current.facts, request.currency_code.as_str()) {
        Ok(()) => {},
        Err(e) => return Err(e),
    }
    let ghost m = resolution.merchant_organization_id.unwrap();
    proof {
        assert(admitted_merchant(*request, facts@) == m);
        assert(resolution.seen().no_duplicates());
        assert forall|a: int, b: int| 0 <= a < b < n implies trim((#[trigger] lines[a]).sku_id@) != trim(
            (#[trigger] lines[b]).sku_id@,
        ) by {
            assert(resolution.seen()[a] != resolution.seen()[b]);
        }
    }
    let mut resolved: Vec<ResolvedCheckoutLine> = Vec::new();
    let mut j: usize = 0;
    while j < request.lines.len()
        invariant
            facts@.len() == request.lines@.len(),
            lines == request.lines@,
            cur == request.currency_code@,
            n == lines.len(),
            j <= n,
            resolved@.len() == j,
            merchant@ == int_text(m as int),
            m > 0,
            first_price_error(facts@.take(j as int)).is_none(),
            admitted_prefix(lines, facts@, cur, n as nat).is_ok(),
            admitted_merchant(*request, facts@) == m,
            *shop == Some(*current),
            shop_verdict(current.facts, cur) == Ok::<(), ErrorKind>(()),
            forall|k: int|
                0 <= k < n ==> (#[trigger] lines[k]).quantity > 0 && facts@[k].sku.is_some()
                    && facts@[k].sku.unwrap().facts.organization_id == m
                    && sku_verdict(facts@[k].sku.unwrap().facts, cur) == Ok::<(), ErrorKind>(()),
            forall|k: int| 0 <= k < j ==> (#[trigger] facts@[k]).unit_price is Ok,
            forall|k: int|
                0 <= k < j ==> checkout_line_resolved(
                    *request,
                    facts@,
                    k,
                    merchant@,
                    current.shop_id@,
                    #[trigger] resolved@[k],
                ),
        decreases n - j,
    {
        let f = &facts[j];
        proof {
            assert(lines[j as int].quantity > 0);
            assert(facts@.take(j + 1).drop_last() =~= facts@.take(j as int));
            assert(facts@.take(j + 1).last() == facts@[j as int]);
        }
        let price = match &f.unit_price {
            Ok(p) => p,
            Err(e) => {
                proof {
                    assert(first_price_error(facts@.take(j + 1)) == Some(e.kind));
                    lemma_price_error_persists(facts@, (j + 1) as nat);
                }
                return Err(CommerceError { kind: e.kind, message: e.message.clone() });
            },
        };
        let sku = match &f.sku {
            Some(s) => s,
            None => return Err(not_found("checkout SKU was not found")),
        };
        let line = resolve_line(
            sku.id,
            sku.spu_id,
            &sku.facts,
            request.lines[j].quantity,
            price.as_str(),
            f.sku_snapshot_json.as_str(),
            merchant.as_str(),
            current.shop_id.as_str(),
        );
        proof {
            assert(sku_verdict(facts@[j as int].sku.unwrap().facts, cur) == Ok::<(), ErrorKind>(()));
            lemma_upper_ignores_case(sku.facts.currency_code@, cur);
        }
        let ghost prev = resolved@;
        resolved.push(line);
        proof {
            assert(resolved@[j as int] == line);
            assert forall|k: int| 0 <= k < j + 1 implies checkout_line_resolved(
                *request,
                facts@,
                k,
                merchant@,
                current.shop_id@,
                #[trigger] resolved@[k],
            ) by {
                if k < j {
                    assert(resolved@[k] == prev[k]);
                }
            }
        }
        j = j + 1;
    }
    proof {
        assert(facts@.take(n as int) =~= facts@);
    }
    Ok(
        ResolvedPhysicalCheckout {
            merchant_organization_id: merchant,
            shop_id: current.shop_id.clone(),
            shop_snapshot_json: current.snapshot_json.clone(),
            lines: resolved,
        },
    )
}

proof fn lemma_price_error_persists(facts: Seq<PhysicalLineFacts>, j: nat)
    requires
        j <= facts.len(),
        first_price_error(facts.take(j as int)).is_some(),
    ensures
        first_price_error(facts) == first_price_error(facts.take(j as int)),
    decreases facts.len() - j,
{
    if j < facts.len() {
        assert(facts.take(j as int + 1).drop_last() =~= facts.take(j as int));
        lemma_price_error_persists(facts, (j + 1) as nat);
    } else {
        assert(facts.take(j as int) =~= facts);
    }
}

} // verus!
