use sdkwork_order::error::ErrorKind;
use sdkwork_order::inventory::{
    plan_inventory_consume, plan_inventory_release, plan_inventory_reservation,
    plan_inventory_restock, reservation_id, reservation_replay_matches, sweep_release_request,
    validate_reserve_request, PhysicalInventoryLine, PhysicalInventoryMutationOutcome,
    ReservePhysicalOrderInventoryRequest, StoredReservation, move_stock, StockLevels, StockMove,
};

fn line(sku: &str, quantity: i64) -> PhysicalInventoryLine {
    PhysicalInventoryLine { sku_id: sku.to_string(), shop_id: "shop-1".to_string(), quantity }
}

fn request(lines: Vec<PhysicalInventoryLine>) -> ReservePhysicalOrderInventoryRequest {
    ReservePhysicalOrderInventoryRequest {
        tenant_id: "t1".to_string(),
        merchant_organization_id: "m1".to_string(),
        order_id: "o1".to_string(),
        request_no: "r1".to_string(),
        idempotency_key: "k1".to_string(),
        lines,
    }
}

fn stored(sku: &str, quantity: i64, status: &str) -> StoredReservation {
    StoredReservation {
        organization_id: "m1".to_string(),
        sku_id: sku.to_string(),
        quantity,
        idempotency_key: "k1".to_string(),
        status: status.to_string(),
    }
}

fn rows(statuses: &[&str]) -> Vec<String> {
    statuses.iter().map(|s| s.to_string()).collect()
}

#[test]
fn reservation_requests_must_be_complete_and_distinct() {
    assert!(validate_reserve_request(&request(vec![line("a", 1), line("b", 2)])).is_ok());
    assert_eq!(validate_reserve_request(&request(vec![])).unwrap_err().kind, ErrorKind::Validation);
    assert_eq!(validate_reserve_request(&request(vec![line("a", 0)])).unwrap_err().kind, ErrorKind::Validation);
    assert_eq!(
        validate_reserve_request(&request(vec![line("a", 1), line(" a ", 2)])).unwrap_err().kind,
        ErrorKind::Validation
    );
    let mut blank_key = request(vec![line("a", 1)]);
    blank_key.idempotency_key = "  ".to_string();
    assert!(validate_reserve_request(&blank_key).is_err());
}

#[test]
fn reserve_replay_only_reserves_once_and_rejects_changed_payload() {
    let first = request(vec![line("a", 2), line("b", 1)]);
    assert_eq!(plan_inventory_reservation(&first, 0, &Vec::new()).unwrap(), false);
    let rows = vec![stored("b", 1, "reserved"), stored("a", 2, "reserved")];
    assert!(reservation_replay_matches(&rows, &first, 2));
    assert_eq!(plan_inventory_reservation(&first, 2, &rows).unwrap(), true);
    let changed = request(vec![line("a", 3), line("b", 1)]);
    assert_eq!(plan_inventory_reservation(&changed, 2, &rows).unwrap_err().kind, ErrorKind::Conflict);
    let mut other_key = stored("a", 2, "reserved");
    other_key.idempotency_key = "k2".to_string();
    assert!(!reservation_replay_matches(&vec![stored("b", 1, "reserved"), other_key], &first, 2));
    assert!(!reservation_replay_matches(&rows, &first, 3));
    assert!(!reservation_replay_matches(&vec![stored("a", 2, "released"), stored("b", 1, "reserved")], &first, 2));
}

#[test]
fn consuming_twice_replays_and_release_leaves_consumed_rows() {
    let consume = plan_inventory_consume(&rows(&["reserved", "reserved"])).unwrap();
    assert!(!consume.replayed);
    assert_eq!(consume.apply, vec![true, true]);
    let replay = plan_inventory_consume(&rows(&["consumed", "CONSUMED"])).unwrap();
    assert!(replay.replayed);
    assert_eq!(replay.apply, vec![false, false]);
    assert_eq!(plan_inventory_consume(&Vec::new()).unwrap_err().kind, ErrorKind::InvalidState);
    assert_eq!(plan_inventory_consume(&rows(&["released"])).unwrap_err().kind, ErrorKind::InvalidState);
    let release = plan_inventory_release(&rows(&["consumed", "consumed"])).unwrap();
    assert!(release.replayed);
    assert_eq!(release.apply, vec![false, false]);
}

#[test]
fn releasing_twice_replays() {
    let release = plan_inventory_release(&rows(&["reserved", "consumed", "released"])).unwrap();
    assert!(!release.replayed);
    assert_eq!(release.apply, vec![true, false, false]);
    let replay = plan_inventory_release(&rows(&["released", "consumed", "released"])).unwrap();
    assert!(replay.replayed);
    assert!(plan_inventory_release(&Vec::new()).unwrap().replayed);
    assert_eq!(plan_inventory_release(&rows(&["restocked"])).unwrap_err().kind, ErrorKind::InvalidState);
}

#[test]
fn restocking_moves_consumed_rows_once() {
    let restock = plan_inventory_restock(&rows(&["consumed", "released"])).unwrap();
    assert!(!restock.replayed);
    assert_eq!(restock.apply, vec![true, false]);
    let replay = plan_inventory_restock(&rows(&["restocked", "released"])).unwrap();
    assert!(replay.replayed);
    assert_eq!(plan_inventory_restock(&rows(&["reserved"])).unwrap_err().kind, ErrorKind::InvalidState);
}

#[test]
fn sweep_release_requests_are_keyed_by_order() {
    let release = sweep_release_request("t1", "o9");
    assert_eq!(release.tenant_id, "t1");
    assert_eq!(release.order_id, "o9");
    assert_eq!(release.reason_code, "reservation_expired");
    assert_eq!(release.request_no, "sweep-o9");
    assert_eq!(release.idempotency_key, "sweep:o9");
    assert_eq!(reservation_id("o9", "sku-1"), "inventory-reservation-o9-sku-1");
    let outcome = PhysicalInventoryMutationOutcome { accepted: true, replayed: false };
    assert!(outcome.accepted && !outcome.replayed);
}

#[test]
fn replays_compare_stored_skus_with_trimmed_request_skus() {
    let padded = request(vec![line(" a ", 2)]);
    assert!(!reservation_replay_matches(&vec![stored(" a ", 2, "reserved")], &padded, 1));
    assert!(reservation_replay_matches(&vec![stored("a", 2, "consumed")], &padded, 1));
}

#[test]
fn stock_moves_between_counters_and_keeps_the_safety_stock() {
    let stock = StockLevels { available: 10, reserved: 0, sold: 0, safety: 0, version: 1 };
    let reserved = move_stock(stock, StockMove::Reserve, 3).unwrap();
    assert_eq!((reserved.available, reserved.reserved, reserved.sold, reserved.version), (7, 3, 0, 2));
    let released = move_stock(reserved, StockMove::Release, 3).unwrap();
    assert_eq!((released.available, released.reserved, released.sold, released.version), (10, 0, 0, 3));
    let consumed = move_stock(reserved, StockMove::Consume, 3).unwrap();
    assert_eq!((consumed.available, consumed.reserved, consumed.sold), (7, 0, 3));
    let restocked = move_stock(consumed, StockMove::Restock, 3).unwrap();
    assert_eq!((restocked.available, restocked.reserved, restocked.sold), (10, 0, 0));
    assert_eq!(move_stock(consumed, StockMove::Release, 3), None);
    let guarded = StockLevels { available: 10, reserved: 0, sold: 0, safety: 8, version: 1 };
    assert_eq!(move_stock(guarded, StockMove::Reserve, 3), None);
    assert!(move_stock(guarded, StockMove::Reserve, 2).is_some());
    let full = StockLevels { available: 0, reserved: 0, sold: 0, safety: 0, version: i64::MAX };
    assert_eq!(move_stock(full, StockMove::Reserve, 0), None);
}
