use sdkwork_order::account_value::{
    account_value_order_title, account_value_package_id, account_value_sku_id, check_admin_refund_request,
    coupon_order_initial_state, ensure_refundable_order, ensure_request_updated,
    refund_within_bounds, validate_refund_request_replay, validate_withdrawal_request_replay,
    AccountValueOrderSubject, RefundRequestFacts, WithdrawalRequestFacts,
};
use sdkwork_order::error::ErrorKind;
use sdkwork_order::lifecycle::stable_order_storage_id;
use sdkwork_order::error::CommerceError;
use sdkwork_order::partner::{
    choose_order_partner_snapshot, order_partner_snapshot, partner_lookup_ids, partner_snapshot_fallback,
    OrderPartnerSnapshot,
};
use sdkwork_order::physical::{
    non_blank, resolve_physical_checkout, resolved_checkout_lines, sku_line_title, validate_shop,
    validate_sku, validate_spu, CatalogSku, CurrentShop, PhysicalCheckoutRequest,
    PhysicalCheckoutRequestLine, PhysicalCheckoutResolution, PhysicalLineFacts, PricedSkuLine,
    ShopFacts, SkuFacts, SpuFacts,
};
use sdkwork_order::shipment::{
    decide_shipment_advance, order_shipped_audit_input, shipment_package_no, shipment_package_status,
    shipment_package_storage_id, ShipmentAdvance,
};

fn sku() -> SkuFacts {
    SkuFacts {
        status: "ACTIVE".to_string(),
        fulfillment_type: "physical_shipment".to_string(),
        inventory_tracking: "tracked".to_string(),
        currency_code: "cny".to_string(),
        organization_id: 8,
        title: Some("  ".to_string()),
        name: Some("Blue mug".to_string()),
    }
}

fn shop() -> ShopFacts {
    ShopFacts {
        operation_status: "active".to_string(),
        storefront_status: "Open".to_string(),
        review_status: "approved".to_string(),
        default_currency_code: "CNY".to_string(),
    }
}

#[test]
fn physical_skus_products_and_shops_are_checked() {
    assert!(validate_sku(&sku(), "CNY").is_ok());
    let mut untracked = sku();
    untracked.inventory_tracking = " Untracked ".to_string();
    assert_eq!(validate_sku(&untracked, "CNY").unwrap_err().kind, ErrorKind::Conflict);
    let mut digital = sku();
    digital.fulfillment_type = "virtual".to_string();
    assert_eq!(validate_sku(&digital, "CNY").unwrap_err().kind, ErrorKind::Conflict);
    assert_eq!(validate_sku(&sku(), "USD").unwrap_err().kind, ErrorKind::Conflict);
    assert!(validate_spu(&SpuFacts { status: "active".into(), product_type: "physical_goods".into() }).is_ok());
    assert!(validate_spu(&SpuFacts { status: "draft".into(), product_type: "physical".into() }).is_err());
    assert!(validate_shop(&shop(), "cny").is_ok());
    let mut unreviewed = shop();
    unreviewed.review_status = "pending".to_string();
    assert_eq!(validate_shop(&unreviewed, "CNY").unwrap_err().kind, ErrorKind::Conflict);
    assert_eq!(sku_line_title(&sku()), "Blue mug");
    assert_eq!(non_blank(&Some(" ".to_string())), None);
}

#[test]
fn physical_checkout_resolution_keeps_one_merchant_and_distinct_skus() {
    assert_eq!(PhysicalCheckoutResolution::start(0).err().unwrap().kind, ErrorKind::Validation);
    let mut resolution = PhysicalCheckoutResolution::start(2).ok().unwrap();
    assert!(resolution.admit_line(1, "sku-a").is_ok());
    assert_eq!(resolution.admit_line(2, " sku-a ").unwrap_err().kind, ErrorKind::Validation);
    assert_eq!(resolution.admit_line(0, "sku-b").unwrap_err().kind, ErrorKind::Validation);
    assert_eq!(resolution.merchant().unwrap_err().kind, ErrorKind::Conflict);
    assert!(resolution.admit_seller(8).is_ok());
    assert!(resolution.admit_seller(8).is_ok());
    assert_eq!(resolution.admit_seller(9).unwrap_err().kind, ErrorKind::Conflict);
    assert_eq!(resolution.admit_seller(0).unwrap_err().kind, ErrorKind::Conflict);
    assert_eq!(resolution.merchant().unwrap(), "8");
}

fn refund(amount: &str) -> RefundRequestFacts {
    RefundRequestFacts {
        request_id: "rr-1".into(),
        original_order_id: Some("o1".into()),
        owner_user_id: "u1".into(),
        target_asset: "cash".into(),
        amount: amount.into(),
        currency_code: "CNY".into(),
        provider_amount: None,
        provider_currency_code: None,
        reason_code: Some("damaged".into()),
        reason_detail: None,
    }
}

fn withdrawal(method: Option<&str>) -> WithdrawalRequestFacts {
    WithdrawalRequestFacts {
        request_id: "wr-1".into(),
        owner_user_id: "u1".into(),
        asset: "cash".into(),
        amount: "500".into(),
        currency_code: "CNY".into(),
        provider_amount: None,
        provider_currency_code: None,
        payout_method: method.map(|m| m.to_string()),
        payout_account_ref: None,
        reason_code: None,
    }
}

#[test]
fn refund_request_rejects_unpaid_orders() {
    assert_eq!(ensure_refundable_order(None).unwrap_err().kind, ErrorKind::NotFound);
    assert_eq!(ensure_refundable_order(Some("pending")).unwrap_err().kind, ErrorKind::Conflict);
    assert!(ensure_refundable_order(Some("succeeded")).is_ok());
    assert_eq!(check_admin_refund_request(Some("paid"), false).unwrap_err().kind, ErrorKind::Conflict);
    assert!(check_admin_refund_request(Some("paid"), true).is_ok());
    assert_eq!(check_admin_refund_request(None, true).unwrap_err().kind, ErrorKind::NotFound);
}

#[test]
fn refunds_stay_within_what_the_order_paid() {
    assert!(refund_within_bounds(1000, &vec![300, 200], 500));
    assert!(!refund_within_bounds(1000, &vec![300, 200], 501));
    assert!(refund_within_bounds(0, &Vec::new(), 0));
    assert!(!refund_within_bounds(i64::MAX, &vec![i64::MAX, i64::MAX], 1));
}

#[test]
fn replayed_requests_must_repeat_the_stored_request() {
    assert!(validate_refund_request_replay(&refund("100"), &refund("100")).is_ok());
    assert_eq!(
        validate_refund_request_replay(&refund("100"), &refund("200")).unwrap_err().kind,
        ErrorKind::Conflict
    );
    assert!(validate_withdrawal_request_replay(&withdrawal(Some("bank")), &withdrawal(Some("bank"))).is_ok());
    assert_eq!(
        validate_withdrawal_request_replay(&withdrawal(Some("bank")), &withdrawal(None)).unwrap_err().kind,
        ErrorKind::Conflict
    );
}

#[test]
fn account_value_orders_name_their_subject() {
    assert_eq!(account_value_order_title(AccountValueOrderSubject::TokenBankRecharge), "Token Bank recharge");
    assert_eq!(account_value_order_title(AccountValueOrderSubject::CouponRecharge), "Coupon recharge");
    assert_eq!(account_value_order_title(AccountValueOrderSubject::RefundRequest), "Account value order");
    assert_eq!(account_value_sku_id(&Some("pkg-1".into()), &Some("plan".into()), None, "points"), "pkg-1");
    assert_eq!(account_value_sku_id(&None, &Some("plan".into()), Some("C1"), "points"), "plan");
    assert_eq!(account_value_sku_id(&None, &None, Some("C1"), "points"), "C1");
    assert_eq!(account_value_sku_id(&None, &None, None, "points"), "account-value-points");
    assert_eq!(coupon_order_initial_state(true), ("pending", "pay"));
    assert_eq!(coupon_order_initial_state(false), ("pending_fulfillment", "fulfill"));
    assert!(ensure_request_updated(1, AccountValueOrderSubject::RefundRequest).is_ok());
    assert_eq!(
        ensure_request_updated(0, AccountValueOrderSubject::CashWithdrawal).unwrap_err().kind,
        ErrorKind::NotFound
    );
}

#[test]
fn partner_lookups_need_numeric_ids() {
    assert_eq!(partner_lookup_ids("100001", Some("7"), "42"), Some((100001, 7, 42)));
    assert_eq!(partner_lookup_ids("100001", Some("org-x"), "42"), Some((100001, 0, 42)));
    assert_eq!(partner_lookup_ids("100001", None, "42"), Some((100001, 0, 42)));
    assert_eq!(partner_lookup_ids("tenant", Some("7"), "42"), None);
    assert_eq!(partner_lookup_ids("100001", Some("7"), "user"), None);
    let snapshot = order_partner_snapshot(15, "Acme", 3, "active");
    assert_eq!(snapshot.partner_id, "15");
    assert_eq!(snapshot.level_no, "3");
    assert_eq!(snapshot.name, "Acme");
    assert!(partner_snapshot_fallback(&None).is_none());
    let fallback = partner_snapshot_fallback(&Some("15".into())).unwrap();
    assert_eq!(fallback.partner_id, "15");
    assert!(fallback.name.is_empty());
}

#[test]
fn shipment_packages_default_their_number_and_status() {
    assert_eq!(
        shipment_package_storage_id("t1", "sh-1", "k1"),
        stable_order_storage_id(&["shipment-package", "t1", "sh-1", "k1"])
    );
    assert_eq!(shipment_package_no(&None, "REQ-1"), "PKG-REQ-1");
    assert_eq!(shipment_package_no(&Some("P-9".into()), "REQ-1"), "P-9");
    assert_eq!(shipment_package_status(&None), "created");
    assert_eq!(shipment_package_status(&Some("packed".into())), "packed");
}

#[test]
fn account_value_packages_keep_their_id_or_get_a_new_one() {
    assert_eq!(account_value_package_id(&Some("pkg-7".into())), "pkg-7");
    let first = account_value_package_id(&None);
    let second = account_value_package_id(&None);
    assert_eq!(first.len(), 36);
    assert_eq!(first.matches('-').count(), 4);
    assert_ne!(first, second);
    let chars: Vec<char> = first.chars().collect();
    for (i, c) in chars.iter().enumerate() {
        if [8, 13, 18, 23].contains(&i) {
            assert_eq!(*c, '-');
        } else {
            assert!(c.is_ascii_digit() || ('a'..='f').contains(c));
        }
    }
    assert_eq!(chars[14], '4');
    assert!(['8', '9', 'a', 'b'].contains(&chars[19]));
}

#[test]
fn resolved_lines_carry_the_merchant_shop_and_upper_case_currency() {
    let mut titled = sku();
    titled.title = Some("Red cup".to_string());
    titled.currency_code = "usd".to_string();
    let lines = vec![
        PricedSkuLine {
            sku_id: 101,
            spu_id: 11,
            sku: sku(),
            quantity: 2,
            unit_price: "1990".to_string(),
            sku_snapshot_json: "{}".to_string(),
        },
        PricedSkuLine {
            sku_id: -7,
            spu_id: 12,
            sku: titled,
            quantity: 1,
            unit_price: "500".to_string(),
            sku_snapshot_json: "{\"skuId\":\"-7\"}".to_string(),
        },
    ];
    let resolved = resolved_checkout_lines(&lines, "8", "shop-1");
    assert_eq!(resolved.len(), 2);
    assert_eq!(resolved[0].sku_id, "101");
    assert_eq!(resolved[0].product_id, "11");
    assert_eq!(resolved[0].merchant_organization_id, "8");
    assert_eq!(resolved[0].shop_id, "shop-1");
    assert_eq!(resolved[0].title, "Blue mug");
    assert_eq!(resolved[0].unit_price, "1990");
    assert_eq!(resolved[0].currency_code, "CNY");
    assert_eq!(resolved[0].fulfillment_type, "physical_shipment");
    assert_eq!(resolved[0].quantity, 2);
    assert_eq!(resolved[0].inventory_tracking, "tracked");
    assert_eq!(resolved[0].sku_snapshot_json, "{}");
    assert_eq!(resolved[1].sku_id, "-7");
    assert_eq!(resolved[1].title, "Red cup");
    assert_eq!(resolved[1].currency_code, "USD");
    assert_eq!(resolved[1].quantity, 1);
    assert_eq!(resolved[1].shop_id, "shop-1");
    assert!(resolved_checkout_lines(&Vec::new(), "8", "shop-1").is_empty());
}

fn partner(id: &str) -> OrderPartnerSnapshot {
    OrderPartnerSnapshot {
        partner_id: id.to_string(),
        name: "Partner".to_string(),
        level_no: "2".to_string(),
        status: "active".to_string(),
    }
}

#[test]
fn an_order_records_the_commanded_else_the_resolved_partner() {
    assert_eq!(
        choose_order_partner_snapshot(Some(partner("p-1")), Ok(Some(partner("p-2")))),
        Some(partner("p-1"))
    );
    assert_eq!(choose_order_partner_snapshot(None, Ok(Some(partner("p-2")))), Some(partner("p-2")));
    assert_eq!(choose_order_partner_snapshot(None, Ok(None)), None);
    let failed = CommerceError { kind: ErrorKind::Storage, message: "partner domain down".to_string() };
    assert_eq!(choose_order_partner_snapshot(None, Err(failed)), None);
}

fn request(lines: &[(&str, i64)]) -> PhysicalCheckoutRequest {
    PhysicalCheckoutRequest {
        currency_code: "cny".to_string(),
        lines: lines
            .iter()
            .map(|(sku_id, quantity)| PhysicalCheckoutRequestLine { sku_id: sku_id.to_string(), quantity: *quantity })
            .collect(),
    }
}

fn line_facts(id: i64, organization_id: i64, price: &str) -> PhysicalLineFacts {
    let mut facts = sku();
    facts.organization_id = organization_id;
    PhysicalLineFacts {
        sku: Some(CatalogSku { id, spu_id: id * 10, facts }),
        spu: Some(SpuFacts { status: "active".to_string(), product_type: "physical_goods".to_string() }),
        unit_price: Ok(price.to_string()),
        sku_snapshot_json: format!("{{\"skuId\":\"{id}\"}}"),
    }
}

fn current_shop() -> Option<CurrentShop> {
    Some(CurrentShop { shop_id: "shop-8".to_string(), facts: shop(), snapshot_json: "{}".to_string() })
}

#[test]
fn a_physical_checkout_resolves_to_one_merchant_and_its_shop() {
    let resolved = resolve_physical_checkout(
        &request(&[("101", 2), (" 102 ", 1)]),
        &vec![line_facts(101, 8, "1990"), line_facts(102, 8, "500")],
        &current_shop(),
    )
    .unwrap();
    assert_eq!(resolved.merchant_organization_id, "8");
    assert_eq!(resolved.shop_id, "shop-8");
    assert_eq!(resolved.shop_snapshot_json, "{}");
    assert_eq!(resolved.lines.len(), 2);
    assert_eq!(resolved.lines[0].sku_id, "101");
    assert_eq!(resolved.lines[0].product_id, "1010");
    assert_eq!(resolved.lines[0].quantity, 2);
    assert_eq!(resolved.lines[0].unit_price, "1990");
    assert_eq!(resolved.lines[0].currency_code, "CNY");
    assert_eq!(resolved.lines[0].title, "Blue mug");
    assert_eq!(resolved.lines[1].quantity, 1);
    assert_eq!(resolved.lines[1].merchant_organization_id, "8");
    assert_eq!(resolved.lines[1].shop_id, "shop-8");
    assert_eq!(resolved.lines[1].sku_snapshot_json, "{\"skuId\":\"102\"}");
}

#[test]
fn a_physical_checkout_is_refused_at_its_first_fault() {
    let kind = |req: PhysicalCheckoutRequest, facts: Vec<PhysicalLineFacts>, shop: Option<CurrentShop>| {
        resolve_physical_checkout(&req, &facts, &shop).unwrap_err().kind
    };
    assert_eq!(kind(request(&[]), vec![], current_shop()), ErrorKind::Validation);
    assert_eq!(kind(request(&[("101", 0)]), vec![line_facts(101, 8, "1")], current_shop()), ErrorKind::Validation);
    assert_eq!(
        kind(request(&[("101", 1), (" 101", 1)]), vec![line_facts(101, 8, "1"), line_facts(101, 8, "1")], current_shop()),
        ErrorKind::Validation
    );
    let mut missing = line_facts(101, 8, "1");
    missing.sku = None;
    assert_eq!(kind(request(&[("101", 1)]), vec![missing], current_shop()), ErrorKind::NotFound);
    assert_eq!(kind(request(&[("101", 1)]), vec![line_facts(101, 0, "1")], current_shop()), ErrorKind::Conflict);
    assert_eq!(
        kind(request(&[("101", 1), ("102", 1)]), vec![line_facts(101, 8, "1"), line_facts(102, 9, "1")], current_shop()),
        ErrorKind::Conflict
    );
    let mut no_product = line_facts(101, 8, "1");
    no_product.spu = None;
    assert_eq!(kind(request(&[("101", 1)]), vec![no_product], current_shop()), ErrorKind::NotFound);
    let mut digital = line_facts(101, 8, "1");
    digital.spu = Some(SpuFacts { status: "active".to_string(), product_type: "virtual".to_string() });
    assert_eq!(kind(request(&[("101", 1)]), vec![digital], current_shop()), ErrorKind::Conflict);
    assert_eq!(kind(request(&[("101", 1)]), vec![line_facts(101, 8, "1")], None), ErrorKind::NotFound);
    let mut closed = current_shop().unwrap();
    closed.facts.storefront_status = "closed".to_string();
    assert_eq!(kind(request(&[("101", 1)]), vec![line_facts(101, 8, "1")], Some(closed)), ErrorKind::Conflict);
    let mut unpriced = line_facts(102, 8, "1");
    unpriced.unit_price = Err(CommerceError { kind: ErrorKind::Validation, message: "physical SKU price is invalid".to_string() });
    let error = resolve_physical_checkout(
        &request(&[("101", 1), ("102", 1)]),
        &vec![line_facts(101, 8, "1"), unpriced],
        &current_shop(),
    )
    .unwrap_err();
    assert_eq!(error.kind, ErrorKind::Validation);
    assert_eq!(error.message, "physical SKU price is invalid");
}

#[test]
fn shipping_a_package_ships_a_paid_order_once() {
    assert_eq!(decide_shipment_advance(Some("shipped"), "paid"), ShipmentAdvance::ShipOrder);
    assert_eq!(decide_shipment_advance(Some(" SHIPPED "), "Paid"), ShipmentAdvance::ShipOrder);
    assert_eq!(decide_shipment_advance(Some("shipped"), "shipped"), ShipmentAdvance::ShipmentOnly);
    assert_eq!(decide_shipment_advance(Some("packed"), "paid"), ShipmentAdvance::PackageOnly);
    assert_eq!(decide_shipment_advance(None, "paid"), ShipmentAdvance::PackageOnly);
    let audit = order_shipped_audit_input(
        "tenant-1",
        &Some("0".to_string()),
        "order-ship-1",
        "paid",
        "ship-request-1",
        "ship-request-1",
        "1000",
    );
    assert_eq!(audit.event_type, "shipped");
    assert_eq!(audit.from_status, "paid");
    assert_eq!(audit.to_status, "shipped");
    assert_eq!(audit.actor_type, "merchant");
    assert_eq!(audit.request_no, "ship-request-1");
}
