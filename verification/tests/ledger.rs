use soap_inventory::kinds::{ActionType, ItemKind, LedgerError};
use soap_inventory::ledger::Ledger;
use soap_inventory::model::{
    CreateMaterialRequest, CreateProductRequest, UpdateMaterialRequest, UpdateProductRequest,
};
use soap_inventory::quantity::Quantity;

fn q(whole: i64, thousandths: u16) -> Quantity {
    Quantity::from_parts(whole, thousandths).unwrap()
}

fn material(name: &str, unit: &str, stock: Quantity) -> CreateMaterialRequest {
    CreateMaterialRequest {
        name: name.to_string(),
        category: Some("oil".to_string()),
        unit: unit.to_string(),
        current_stock: stock,
        low_stock_alert: None,
        note: None,
    }
}

fn product(name: &str, stock: i64) -> CreateProductRequest {
    CreateProductRequest {
        name: name.to_string(),
        category: "bath".to_string(),
        unit: "pc".to_string(),
        current_stock: stock,
        note: None,
    }
}

fn t(n: u32) -> String {
    format!("2024-05-01T08:00:{:02}+00:00", n)
}

#[test]
fn new_store_holds_nothing() {
    let store = Ledger::new();
    assert!(store.is_empty());
    assert_eq!(store.schema_version(), 0);
    assert!(store.materials(false).is_empty());
    assert!(store.products(false).is_empty());
    assert!(store.logs().is_empty());
    assert!(store.movements().is_empty());
}

#[test]
fn material_without_initial_stock_has_no_movement() {
    let mut store = Ledger::new();
    let row = store.insert_material(material("olive oil", "ml", Quantity::zero()), t(0)).unwrap();
    assert_eq!(row.id, 1);
    assert_eq!(row.name, "olive oil");
    assert_eq!(row.category, "oil");
    assert_eq!(row.unit, "ml");
    assert_eq!(row.current_stock, Quantity::zero());
    assert_eq!(row.created_at, t(0));
    assert_eq!(row.deleted_at, None);
    assert!(store.logs().is_empty());
    assert!(!store.has_movements(ItemKind::Material, 1));
}

#[test]
fn material_without_category_gets_the_empty_category() {
    let mut store = Ledger::new();
    let mut req = material("lye", "g", Quantity::zero());
    req.category = None;
    let row = store.insert_material(req, t(0)).unwrap();
    assert_eq!(row.category, "");
}

#[test]
fn product_with_initial_stock_gets_a_first_movement() {
    let mut store = Ledger::new();
    let row = store.insert_product(product("soap", 50), t(0)).unwrap();
    assert_eq!(row.id, 1);
    assert_eq!(row.current_stock, 50);
    let logs = store.logs();
    assert_eq!(logs.len(), 1);
    assert_eq!(logs[0].id, 1);
    assert_eq!(logs[0].item_id, 1);
    assert_eq!(logs[0].item_type, ItemKind::Product);
    assert_eq!(logs[0].action_type, ActionType::In);
    assert_eq!(logs[0].change_amount, q(50, 0));
    assert_eq!(logs[0].old_stock, q(0, 0));
    assert_eq!(logs[0].new_stock, q(50, 0));
    assert_eq!(logs[0].note, Some("Initial stock".to_string()));
    assert_eq!(logs[0].created_at, t(0));
}

#[test]
fn material_with_initial_stock_gets_a_first_movement() {
    let mut store = Ledger::new();
    let row = store.insert_material(material("olive oil", "ml", q(5000, 500)), t(0)).unwrap();
    assert_eq!(row.current_stock, q(5000, 500));
    let logs = store.logs();
    assert_eq!(logs.len(), 1);
    assert_eq!(logs[0].item_type, ItemKind::Material);
    assert_eq!(logs[0].old_stock, q(0, 0));
    assert_eq!(logs[0].new_stock, q(5000, 500));
}

#[test]
fn negative_initial_stock_is_refused() {
    let mut store = Ledger::new();
    assert_eq!(store.insert_product(product("soap", -1), t(0)), Err(LedgerError::InvalidAmount));
    assert_eq!(
        store.insert_material(material("oil", "ml", Quantity::from_whole(-1)), t(0)),
        Err(LedgerError::InvalidAmount)
    );
    assert!(store.is_empty());
}

#[test]
fn ids_follow_the_order_of_insertion() {
    let mut store = Ledger::new();
    assert_eq!(store.insert_product(product("a", 0), t(0)).unwrap().id, 1);
    assert_eq!(store.insert_product(product("b", 0), t(1)).unwrap().id, 2);
    assert_eq!(store.insert_material(material("c", "g", Quantity::zero()), t(2)).unwrap().id, 1);
    assert_eq!(store.insert_product(product("d", 0), t(3)).unwrap().id, 3);
}

#[test]
fn action_semantics_on_a_material() {
    let mut store = Ledger::new();
    store.insert_material(material("olive oil", "ml", q(100, 0)), t(0)).unwrap();
    let m = store
        .apply_movement(ItemKind::Material, 1, ActionType::In, q(50, 0), None, t(1))
        .unwrap();
    assert_eq!(m.old_stock, q(100, 0));
    assert_eq!(m.new_stock, q(150, 0));
    let m = store
        .apply_movement(ItemKind::Material, 1, ActionType::Out, q(30, 0), None, t(2))
        .unwrap();
    assert_eq!(m.old_stock, q(150, 0));
    assert_eq!(m.new_stock, q(120, 0));
    let m = store
        .apply_movement(ItemKind::Material, 1, ActionType::Adj, q(10, 0), None, t(3))
        .unwrap();
    assert_eq!(m.old_stock, q(120, 0));
    assert_eq!(m.new_stock, q(10, 0));
    assert_eq!(store.current_stock(ItemKind::Material, 1), Some(q(10, 0)));
}

#[test]
fn fractional_amount_on_a_product_is_refused() {
    let mut store = Ledger::new();
    store.insert_product(product("soap", 10), t(0)).unwrap();
    let r = store.apply_movement(ItemKind::Product, 1, ActionType::In, q(2, 500), None, t(1));
    assert_eq!(r, Err(LedgerError::InvalidAmount));
    assert_eq!(store.current_stock(ItemKind::Product, 1), Some(q(10, 0)));
    assert_eq!(store.logs().len(), 1);
}

#[test]
fn counter_equals_new_stock_after_every_movement() {
    let mut store = Ledger::new();
    store.insert_material(material("olive oil", "ml", Quantity::zero()), t(0)).unwrap();
    store.insert_product(product("soap", 0), t(0)).unwrap();
    let steps = [
        (ItemKind::Material, ActionType::In, q(12, 345)),
        (ItemKind::Product, ActionType::In, q(7, 0)),
        (ItemKind::Material, ActionType::Out, q(20, 0)),
        (ItemKind::Product, ActionType::Out, q(9, 0)),
        (ItemKind::Material, ActionType::Adj, q(3, 1)),
        (ItemKind::Product, ActionType::Adj, q(4, 0)),
        (ItemKind::Material, ActionType::In, q(0, 999)),
    ];
    for (n, (kind, action, amount)) in steps.iter().enumerate() {
        let before = store.current_stock(*kind, 1).unwrap();
        let row = store.apply_movement(*kind, 1, *action, *amount, None, t(n as u32 + 1)).unwrap();
        assert_eq!(row.old_stock, before);
        assert_eq!(store.current_stock(*kind, 1), Some(row.new_stock));
        assert_eq!(row.id as usize, store.logs().len());
    }
    assert_eq!(store.current_stock(ItemKind::Material, 1), Some(q(4, 0)));
    assert_eq!(store.current_stock(ItemKind::Product, 1), Some(q(4, 0)));
    assert_eq!(store.product(1, true).unwrap().current_stock, 4);
}

#[test]
fn movement_on_a_missing_item_is_not_found() {
    let mut store = Ledger::new();
    store.insert_product(product("soap", 1), t(0)).unwrap();
    for id in [0, 2, -1, i64::MAX, i64::MIN] {
        let r = store.apply_movement(ItemKind::Product, id, ActionType::In, q(1, 0), None, t(1));
        assert_eq!(r, Err(LedgerError::NotFound));
    }
    let r = store.apply_movement(ItemKind::Material, 1, ActionType::In, q(1, 0), None, t(1));
    assert_eq!(r, Err(LedgerError::NotFound));
    assert_eq!(store.logs().len(), 1);
}

#[test]
fn missing_item_is_reported_before_a_bad_amount() {
    let mut store = Ledger::new();
    let r = store.apply_movement(ItemKind::Product, 1, ActionType::In, q(0, 500), None, t(1));
    assert_eq!(r, Err(LedgerError::NotFound));
}

#[test]
fn receipts_one_after_the_other_are_all_counted() {
    let mut store = Ledger::new();
    store.insert_product(product("soap", 0), t(0)).unwrap();
    let n = 200;
    for i in 0..n {
        store
            .apply_movement(ItemKind::Product, 1, ActionType::In, q(1, 0), None, t(i % 60))
            .unwrap();
    }
    assert_eq!(store.product(1, true).unwrap().current_stock, n as i64);
    let logs = store.logs();
    assert_eq!(logs.len(), n as usize);
    let mut expected = Quantity::zero();
    for row in &logs {
        assert_eq!(row.old_stock, expected);
        expected = expected.checked_add(q(1, 0)).unwrap();
        assert_eq!(row.new_stock, expected);
    }
}

#[test]
fn movements_of_different_items_do_not_mix() {
    let mut store = Ledger::new();
    store.insert_product(product("a", 5), t(0)).unwrap();
    store.insert_product(product("b", 7), t(0)).unwrap();
    store.apply_movement(ItemKind::Product, 1, ActionType::Out, q(2, 0), None, t(1)).unwrap();
    let row = store.apply_movement(ItemKind::Product, 2, ActionType::In, q(1, 0), None, t(2)).unwrap();
    assert_eq!(row.old_stock, q(7, 0));
    assert_eq!(row.new_stock, q(8, 0));
    assert_eq!(store.current_stock(ItemKind::Product, 1), Some(q(3, 0)));
}

#[test]
fn unit_of_a_used_material_cannot_change() {
    let mut store = Ledger::new();
    store.insert_material(material("olive oil", "ml", Quantity::zero()), t(0)).unwrap();
    store.apply_movement(ItemKind::Material, 1, ActionType::In, q(1, 0), None, t(1)).unwrap();
    let change = UpdateMaterialRequest {
        name: "olive oil".to_string(),
        category: Some("oil".to_string()),
        unit: "g".to_string(),
        low_stock_alert: None,
        note: None,
    };
    assert_eq!(store.update_material(1, change), Err(LedgerError::UnitMismatch));
    let kept = store.material(1, false).unwrap();
    assert_eq!(kept.unit, "ml");
    assert_eq!(kept.name, "olive oil");
    let change = UpdateMaterialRequest {
        name: "extra virgin olive oil".to_string(),
        category: Some("fat".to_string()),
        unit: "ml".to_string(),
        low_stock_alert: Some(q(500, 0)),
        note: Some("cold pressed".to_string()),
    };
    assert_eq!(store.update_material(1, change), Ok(()));
    let changed = store.material(1, false).unwrap();
    assert_eq!(changed.name, "extra virgin olive oil");
    assert_eq!(changed.category, "fat");
    assert_eq!(changed.unit, "ml");
    assert_eq!(changed.low_stock_alert, Some(q(500, 0)));
    assert_eq!(changed.note, Some("cold pressed".to_string()));
    assert_eq!(changed.current_stock, q(1, 0));
    assert_eq!(changed.created_at, t(0));
}

#[test]
fn unit_of_an_unused_material_may_change() {
    let mut store = Ledger::new();
    store.insert_material(material("lye", "ml", Quantity::zero()), t(0)).unwrap();
    let change = UpdateMaterialRequest {
        name: "lye".to_string(),
        category: None,
        unit: "g".to_string(),
        low_stock_alert: None,
        note: None,
    };
    assert_eq!(store.update_material(1, change), Ok(()));
    let changed = store.material(1, false).unwrap();
    assert_eq!(changed.unit, "g");
    assert_eq!(changed.category, "");
}

#[test]
fn update_of_a_missing_material_is_not_found() {
    let mut store = Ledger::new();
    let change = UpdateMaterialRequest {
        name: "x".to_string(),
        category: None,
        unit: "g".to_string(),
        low_stock_alert: None,
        note: None,
    };
    assert_eq!(store.update_material(1, change), Err(LedgerError::NotFound));
}

#[test]
fn update_of_a_product_keeps_stock_and_unit() {
    let mut store = Ledger::new();
    store.insert_product(product("soap", 9), t(0)).unwrap();
    let change = UpdateProductRequest {
        name: "lavender soap".to_string(),
        category: "gift".to_string(),
        note: Some("100g".to_string()),
    };
    assert_eq!(store.update_product(1, change.clone()), Ok(()));
    let changed = store.product(1, true).unwrap();
    assert_eq!(changed.name, "lavender soap");
    assert_eq!(changed.category, "gift");
    assert_eq!(changed.note, Some("100g".to_string()));
    assert_eq!(changed.unit, "pc");
    assert_eq!(changed.current_stock, 9);
    assert_eq!(store.update_product(2, change), Err(LedgerError::NotFound));
}

#[test]
fn retiring_twice_changes_nothing() {
    let mut store = Ledger::new();
    store.insert_product(product("soap", 3), t(0)).unwrap();
    assert_eq!(store.soft_delete(ItemKind::Product, 1, t(1)), Ok(()));
    let first = store.product(1, false).unwrap();
    assert_eq!(first.deleted_at, Some(t(1)));
    assert_eq!(store.soft_delete(ItemKind::Product, 1, t(2)), Ok(()));
    let second = store.product(1, false).unwrap();
    assert_eq!(second, first);
}

#[test]
fn retiring_a_missing_item_is_not_found() {
    let mut store = Ledger::new();
    assert_eq!(store.soft_delete(ItemKind::Product, 1, t(0)), Err(LedgerError::NotFound));
    assert_eq!(store.soft_delete(ItemKind::Material, 0, t(0)), Err(LedgerError::NotFound));
}

#[test]
fn retired_item_leaves_the_listing_and_keeps_its_movements() {
    let mut store = Ledger::new();
    store.insert_product(product("a", 5), t(0)).unwrap();
    store.insert_product(product("b", 6), t(1)).unwrap();
    store.insert_material(material("c", "g", q(1, 500)), t(2)).unwrap();
    store.apply_movement(ItemKind::Product, 1, ActionType::Out, q(2, 0), None, t(3)).unwrap();
    let movements_before = store.movements();
    store.soft_delete(ItemKind::Product, 1, t(4)).unwrap();
    store.soft_delete(ItemKind::Material, 1, t(4)).unwrap();
    let active: Vec<i64> = store.products(true).iter().map(|p| p.id).collect();
    assert_eq!(active, vec![2]);
    let all: Vec<i64> = store.products(false).iter().map(|p| p.id).collect();
    assert_eq!(all, vec![1, 2]);
    assert!(store.materials(true).is_empty());
    assert_eq!(store.materials(false).len(), 1);
    assert_eq!(store.product(1, true), Err(LedgerError::NotFound));
    assert_eq!(store.product(1, false).unwrap().current_stock, 3);
    assert_eq!(store.material(1, true), Err(LedgerError::NotFound));
    assert_eq!(store.material(1, false).unwrap().current_stock, q(1, 500));
    assert_eq!(store.movements(), movements_before);
    assert_eq!(store.movements().iter().filter(|m| m.item_id == 1).count(), 3);
}

#[test]
fn retired_item_still_takes_movements() {
    let mut store = Ledger::new();
    store.insert_product(product("a", 5), t(0)).unwrap();
    store.soft_delete(ItemKind::Product, 1, t(1)).unwrap();
    let row = store.apply_movement(ItemKind::Product, 1, ActionType::In, q(1, 0), None, t(2)).unwrap();
    assert_eq!(row.new_stock, q(6, 0));
}

#[test]
fn movements_are_listed_latest_first() {
    let mut store = Ledger::new();
    store.insert_material(material("oil", "ml", Quantity::zero()), t(0)).unwrap();
    store.insert_product(product("soap", 0), t(0)).unwrap();
    store.apply_movement(ItemKind::Material, 1, ActionType::In, q(1, 0), None, t(5)).unwrap();
    store.apply_movement(ItemKind::Product, 1, ActionType::In, q(2, 0), None, t(9)).unwrap();
    store.apply_movement(ItemKind::Material, 1, ActionType::In, q(3, 0), None, t(5)).unwrap();
    store.apply_movement(ItemKind::Product, 1, ActionType::In, q(4, 0), None, t(1)).unwrap();
    store.apply_movement(ItemKind::Material, 1, ActionType::In, q(5, 0), None, t(9)).unwrap();
    let listed = store.movements();
    let ids: Vec<i64> = listed.iter().map(|m| m.id).collect();
    assert_eq!(ids, vec![5, 2, 3, 1, 4]);
    assert_eq!(listed[0].item_name, "oil");
    assert_eq!(listed[0].item_unit, "ml");
    assert_eq!(listed[0].item_type, "material");
    assert_eq!(listed[0].action_type, "in");
    assert_eq!(listed[1].item_type, "product");
    assert_eq!(listed[1].item_name, "soap");
    assert_eq!(listed[1].item_unit, "pc");
    assert_eq!(listed[1].change_amount, q(2, 0));
    assert_eq!(listed[4].created_at, t(1));
}

#[test]
fn listed_movement_shows_the_name_of_today() {
    let mut store = Ledger::new();
    store.insert_product(product("soap", 1), t(0)).unwrap();
    let change = UpdateProductRequest {
        name: "lavender soap".to_string(),
        category: "bath".to_string(),
        note: None,
    };
    store.update_product(1, change).unwrap();
    assert_eq!(store.movements()[0].item_name, "lavender soap");
}

#[test]
fn schema_version_is_kept() {
    let mut store = Ledger::new();
    store.insert_product(product("soap", 1), t(0)).unwrap();
    store.set_schema_version(3);
    assert_eq!(store.schema_version(), 3);
    assert_eq!(store.products(false).len(), 1);
    assert!(!store.is_empty());
}
