use soap_inventory::kinds::{ActionType, ItemKind, LedgerError};
use soap_inventory::ledger::Ledger;
use soap_inventory::materials::{
    add_material, change_material_stock, get_material, list_materials, update_material,
    update_material_inventory,
};
use soap_inventory::model::{
    CreateMaterialRequest, CreateMovementRequest, CreateProductRequest,
    MaterialInventoryChangeRequest, RemoveProductRequest, UpdateMaterialRequest,
    UpdateProductRequest,
};
use soap_inventory::movements::{
    add_inventory, add_material_inventory, add_product_inventory, list_movements, record_movement,
};
use soap_inventory::products::{add_product, get_product, list_products, remove_product, update_product};
use soap_inventory::quantity::Quantity;

fn q(whole: i64, thousandths: u16) -> Quantity {
    Quantity::from_parts(whole, thousandths).unwrap()
}

fn material(unit: &str, stock: Quantity) -> CreateMaterialRequest {
    CreateMaterialRequest {
        name: "olive oil".to_string(),
        category: Some("oil".to_string()),
        unit: unit.to_string(),
        current_stock: stock,
        low_stock_alert: Some(q(1000, 0)),
        note: None,
    }
}

fn product(stock: i64) -> CreateProductRequest {
    CreateProductRequest {
        name: "soap".to_string(),
        category: "bath".to_string(),
        unit: "pc".to_string(),
        current_stock: stock,
        note: Some("100g".to_string()),
    }
}

fn movement(kind: &str, id: i64, action: &str, amount: Quantity) -> CreateMovementRequest {
    CreateMovementRequest {
        item_type: kind.to_string(),
        item_id: id,
        action_type: action.to_string(),
        change_amount: amount,
        note: Some("counted".to_string()),
    }
}

fn is_rfc3339(text: &str) -> bool {
    chrono::DateTime::parse_from_rfc3339(text).is_ok()
}

#[test]
fn added_material_carries_id_and_time() {
    let mut store = Ledger::new();
    let row = add_material(&mut store, material("ml", Quantity::zero())).unwrap();
    assert_eq!(row.id, 1);
    assert_eq!(row.low_stock_alert, Some(q(1000, 0)));
    assert!(is_rfc3339(&row.created_at));
    assert_eq!(get_material(&store, 1), Ok(row));
    assert_eq!(get_material(&store, 2), Err(LedgerError::NotFound));
}

#[test]
fn added_product_carries_id_time_and_first_movement() {
    let mut store = Ledger::new();
    let row = add_product(&mut store, product(50)).unwrap();
    assert_eq!(row.id, 1);
    assert_eq!(row.current_stock, 50);
    assert!(is_rfc3339(&row.created_at));
    let logs = store.logs();
    assert_eq!(logs.len(), 1);
    assert_eq!(logs[0].new_stock, q(50, 0));
    assert_eq!(logs[0].created_at, row.created_at);
    assert_eq!(get_product(&store, 1), Ok(row));
}

#[test]
fn added_product_without_stock_has_no_movement() {
    let mut store = Ledger::new();
    add_product(&mut store, product(0)).unwrap();
    assert!(store.logs().is_empty());
}

#[test]
fn add_inventory_addresses_the_item_by_kind_and_id() {
    let mut store = Ledger::new();
    add_material(&mut store, material("ml", q(100, 0))).unwrap();
    add_product(&mut store, product(10)).unwrap();
    let row = add_inventory(&mut store, movement("material", 1, "in", q(50, 0))).unwrap();
    assert_eq!(row.item_type, ItemKind::Material);
    assert_eq!(row.action_type, ActionType::In);
    assert_eq!(row.old_stock, q(100, 0));
    assert_eq!(row.new_stock, q(150, 0));
    assert_eq!(row.note, Some("counted".to_string()));
    assert!(is_rfc3339(&row.created_at));
    let row = add_inventory(&mut store, movement("product", 1, "out", q(4, 0))).unwrap();
    assert_eq!(row.item_type, ItemKind::Product);
    assert_eq!(row.new_stock, q(6, 0));
    assert_eq!(get_product(&store, 1).unwrap().current_stock, 6);
    assert_eq!(get_material(&store, 1).unwrap().current_stock, q(150, 0));
}

#[test]
fn action_semantics_through_requests() {
    let mut store = Ledger::new();
    add_material(&mut store, material("ml", q(100, 0))).unwrap();
    let row = add_material_inventory(&mut store, movement("material", 1, "in", q(50, 0))).unwrap();
    assert_eq!(row.new_stock, q(150, 0));
    let row = add_material_inventory(&mut store, movement("material", 1, "out", q(30, 0))).unwrap();
    assert_eq!(row.new_stock, q(120, 0));
    let row = add_material_inventory(&mut store, movement("material", 1, "adj", q(10, 0))).unwrap();
    assert_eq!(row.new_stock, q(10, 0));
    assert_eq!(get_material(&store, 1).unwrap().current_stock, q(10, 0));
}

#[test]
fn fractional_amount_on_a_product_is_an_invalid_amount() {
    let mut store = Ledger::new();
    add_product(&mut store, product(10)).unwrap();
    let r = add_product_inventory(&mut store, movement("product", 1, "in", q(2, 500)));
    assert_eq!(r, Err(LedgerError::InvalidAmount));
    assert_eq!(get_product(&store, 1).unwrap().current_stock, 10);
}

#[test]
fn unknown_action_is_refused_and_changes_nothing() {
    let mut store = Ledger::new();
    add_material(&mut store, material("ml", q(100, 0))).unwrap();
    add_product(&mut store, product(10)).unwrap();
    let rows_before = store.logs();
    for kind in ["material", "product"] {
        let r = add_inventory(&mut store, movement(kind, 1, "transfer", q(1, 0)));
        assert_eq!(r, Err(LedgerError::InvalidActionType));
    }
    assert_eq!(store.logs(), rows_before);
    assert_eq!(get_material(&store, 1).unwrap().current_stock, q(100, 0));
    assert_eq!(get_product(&store, 1).unwrap().current_stock, 10);
}

#[test]
fn times_read_from_the_clock_are_of_today() {
    let mut store = Ledger::new();
    let row = add_product(&mut store, product(1)).unwrap();
    let written = chrono::DateTime::parse_from_rfc3339(&row.created_at).unwrap();
    let age = chrono::Utc::now().signed_duration_since(written).num_seconds();
    assert!((0..60).contains(&age));
}

#[test]
fn unknown_kind_addresses_no_item() {
    let mut store = Ledger::new();
    add_product(&mut store, product(10)).unwrap();
    let r = add_inventory(&mut store, movement("tool", 1, "in", q(1, 0)));
    assert_eq!(r, Err(LedgerError::NotFound));
    assert_eq!(store.logs().len(), 1);
}

#[test]
fn missing_item_is_reported_before_an_unknown_action() {
    let mut store = Ledger::new();
    let r = add_inventory(&mut store, movement("product", 1, "transfer", q(1, 0)));
    assert_eq!(r, Err(LedgerError::NotFound));
}

#[test]
fn unknown_action_is_reported_before_a_bad_amount() {
    let mut store = Ledger::new();
    add_product(&mut store, product(10)).unwrap();
    let r = add_inventory(&mut store, movement("product", 1, "transfer", q(0, 500)));
    assert_eq!(r, Err(LedgerError::InvalidActionType));
}

#[test]
fn product_inventory_ignores_the_kind_tag() {
    let mut store = Ledger::new();
    add_product(&mut store, product(10)).unwrap();
    let row = add_product_inventory(&mut store, movement("material", 1, "in", q(1, 0))).unwrap();
    assert_eq!(row.item_type, ItemKind::Product);
    assert_eq!(row.new_stock, q(11, 0));
}

#[test]
fn recorded_movement_carries_the_given_time() {
    let mut store = Ledger::new();
    add_product(&mut store, product(10)).unwrap();
    let req = movement("product", 1, "adj", q(3, 0));
    let row = record_movement(&mut store, ItemKind::Product, &req, "2024-01-01T00:00:00Z".to_string())
        .unwrap();
    assert_eq!(row.created_at, "2024-01-01T00:00:00Z");
    assert_eq!(row.id, 2);
    assert_eq!(row.old_stock, q(10, 0));
    assert_eq!(row.new_stock, q(3, 0));
}

#[test]
fn unit_immutability_through_requests() {
    let mut store = Ledger::new();
    add_material(&mut store, material("ml", Quantity::zero())).unwrap();
    add_material_inventory(&mut store, movement("material", 1, "in", q(1, 0))).unwrap();
    let to_grams = UpdateMaterialRequest {
        name: "olive oil".to_string(),
        category: Some("oil".to_string()),
        unit: "g".to_string(),
        low_stock_alert: None,
        note: None,
    };
    assert_eq!(update_material(&mut store, 1, to_grams), Err(LedgerError::UnitMismatch));
    let same_unit = UpdateMaterialRequest {
        name: "pomace oil".to_string(),
        category: Some("fat".to_string()),
        unit: "ml".to_string(),
        low_stock_alert: None,
        note: Some("refined".to_string()),
    };
    assert_eq!(update_material(&mut store, 1, same_unit), Ok(()));
    let row = get_material(&store, 1).unwrap();
    assert_eq!(row.name, "pomace oil");
    assert_eq!(row.category, "fat");
    assert_eq!(row.note, Some("refined".to_string()));
    assert_eq!(row.unit, "ml");
}

#[test]
fn signed_change_is_recorded_as_receipt_or_issue() {
    let mut store = Ledger::new();
    add_material(&mut store, material("ml", q(10, 0))).unwrap();
    let up = MaterialInventoryChangeRequest {
        material_id: 1,
        change_amount: q(2, 500),
        action_type: "purchase".to_string(),
        reference_id: Some(7),
        note: None,
    };
    let row = update_material_inventory(&mut store, up).unwrap();
    assert_eq!(row.action_type, ActionType::In);
    assert_eq!(row.change_amount, q(2, 500));
    assert_eq!(row.new_stock, q(12, 500));
    assert!(is_rfc3339(&row.created_at));
    let down = MaterialInventoryChangeRequest {
        material_id: 1,
        change_amount: q(2, 500).checked_neg().unwrap(),
        action_type: "production".to_string(),
        reference_id: None,
        note: Some("batch 3".to_string()),
    };
    let row = change_material_stock(&mut store, &down, "2024-01-01T00:00:00Z".to_string()).unwrap();
    assert_eq!(row.action_type, ActionType::Out);
    assert_eq!(row.change_amount, q(2, 500));
    assert_eq!(row.old_stock, q(12, 500));
    assert_eq!(row.new_stock, q(10, 0));
    assert_eq!(row.note, Some("batch 3".to_string()));
    assert_eq!(get_material(&store, 1).unwrap().current_stock, q(10, 0));
}

#[test]
fn signed_change_on_a_missing_material_is_not_found() {
    let mut store = Ledger::new();
    let req = MaterialInventoryChangeRequest {
        material_id: 1,
        change_amount: q(1, 0),
        action_type: "purchase".to_string(),
        reference_id: None,
        note: None,
    };
    assert_eq!(update_material_inventory(&mut store, req), Err(LedgerError::NotFound));
}

#[test]
fn signed_change_without_magnitude_is_an_invalid_amount() {
    let mut store = Ledger::new();
    add_material(&mut store, material("ml", Quantity::zero())).unwrap();
    let req = MaterialInventoryChangeRequest {
        material_id: 1,
        change_amount: Quantity::from_whole(i64::MIN),
        action_type: "loss".to_string(),
        reference_id: None,
        note: None,
    };
    assert_eq!(update_material_inventory(&mut store, req), Err(LedgerError::InvalidAmount));
    assert!(store.logs().is_empty());
}

#[test]
fn removed_product_is_not_listed_and_keeps_its_movements() {
    let mut store = Ledger::new();
    add_product(&mut store, product(5)).unwrap();
    add_product(&mut store, product(6)).unwrap();
    assert_eq!(remove_product(&mut store, RemoveProductRequest { id: 1 }), Ok(()));
    let listed: Vec<i64> = list_products(&store).iter().map(|p| p.id).collect();
    assert_eq!(listed, vec![2]);
    assert_eq!(get_product(&store, 1), Err(LedgerError::NotFound));
    let retired = store.product(1, false).unwrap();
    assert!(is_rfc3339(retired.deleted_at.as_deref().unwrap()));
    assert_eq!(retired.current_stock, 5);
    let movements = list_movements(&store);
    assert_eq!(movements.len(), 2);
    assert_eq!(movements.iter().filter(|m| m.item_id == 1).count(), 1);
}

#[test]
fn removing_a_removed_product_is_a_no_op() {
    let mut store = Ledger::new();
    add_product(&mut store, product(5)).unwrap();
    remove_product(&mut store, RemoveProductRequest { id: 1 }).unwrap();
    let first = store.product(1, false).unwrap();
    assert_eq!(remove_product(&mut store, RemoveProductRequest { id: 1 }), Ok(()));
    assert_eq!(store.product(1, false).unwrap(), first);
}

#[test]
fn removing_a_missing_product_is_not_found() {
    let mut store = Ledger::new();
    assert_eq!(remove_product(&mut store, RemoveProductRequest { id: 1 }), Err(LedgerError::NotFound));
}

#[test]
fn listings_keep_the_order_of_insertion() {
    let mut store = Ledger::new();
    for _ in 0..3 {
        add_material(&mut store, material("ml", Quantity::zero())).unwrap();
        add_product(&mut store, product(0)).unwrap();
    }
    let ids: Vec<i64> = list_materials(&store).iter().map(|m| m.id).collect();
    assert_eq!(ids, vec![1, 2, 3]);
    let ids: Vec<i64> = list_products(&store).iter().map(|p| p.id).collect();
    assert_eq!(ids, vec![1, 2, 3]);
}

#[test]
fn updated_product_keeps_its_stock() {
    let mut store = Ledger::new();
    add_product(&mut store, product(5)).unwrap();
    let change = UpdateProductRequest {
        name: "oat soap".to_string(),
        category: "gift".to_string(),
        note: None,
    };
    assert_eq!(update_product(&mut store, 1, change.clone()), Ok(()));
    let row = get_product(&store, 1).unwrap();
    assert_eq!(row.name, "oat soap");
    assert_eq!(row.note, None);
    assert_eq!(row.current_stock, 5);
    assert_eq!(update_product(&mut store, 9, change), Err(LedgerError::NotFound));
}
