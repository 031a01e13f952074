use soap_inventory::export::{
    date_cell, export_database_excel, export_materials_excel, export_movements_excel,
    export_products_excel, material_row, movement_row, note_cell, optional_time_cell, product_row,
    time_cell, Cell, ColumnWidth,
};
use soap_inventory::kinds::ItemKind;
use soap_inventory::ledger::Ledger;
use soap_inventory::model::{CreateMaterialRequest, CreateProductRequest, Material, Movement, Product};
use soap_inventory::quantity::Quantity;

fn q(whole: i64, thousandths: u16) -> Quantity {
    Quantity::from_parts(whole, thousandths).unwrap()
}

fn widths(pairs: &[(u16, u16)]) -> Vec<ColumnWidth> {
    pairs.iter().map(|(column, width)| ColumnWidth { column: *column, width: *width }).collect()
}

fn texts(items: &[&str]) -> Vec<String> {
    items.iter().map(|s| s.to_string()).collect()
}

#[test]
fn date_cell_for_each_outcome() {
    assert_eq!(date_cell("soon", None, false), Cell::Text("soon".to_string()));
    assert_eq!(date_cell("soon", None, true), Cell::Text("soon".to_string()));
    assert_eq!(date_cell("x", Some(10), true), Cell::DateTime(10));
    assert_eq!(date_cell("x", Some(10), false), Cell::Text("x".to_string()));
    assert_eq!(
        date_cell("1800-01-01T00:00:00Z", Some(-5_364_662_400), false),
        Cell::Text("1800-01-01T00:00:00Z".to_string())
    );
}

#[test]
fn time_that_is_a_date_becomes_a_date_cell() {
    assert_eq!(time_cell("1970-01-01T00:00:10Z"), Cell::DateTime(10));
    assert_eq!(time_cell("2024-05-01T08:30:00+00:00"), Cell::DateTime(1_714_552_200));
    assert_eq!(time_cell("2024-05-01T10:30:00+02:00"), Cell::DateTime(1_714_552_200));
    assert_eq!(time_cell("2024-05-01T08:30:00.123456789+00:00"), Cell::DateTime(1_714_552_200));
}

#[test]
fn time_that_is_no_date_stays_a_text() {
    assert_eq!(time_cell("2024-05-01 08:30:00"), Cell::Text("2024-05-01 08:30:00".to_string()));
    assert_eq!(time_cell(""), Cell::Text(String::new()));
    assert_eq!(time_cell("yesterday"), Cell::Text("yesterday".to_string()));
}

#[test]
fn date_outside_the_range_of_the_writer_stays_a_text() {
    assert_eq!(time_cell("1800-01-01T00:00:00Z"), Cell::Text("1800-01-01T00:00:00Z".to_string()));
    assert_eq!(time_cell("1899-12-30T23:59:59Z"), Cell::Text("1899-12-30T23:59:59Z".to_string()));
}

#[test]
fn first_and_last_second_of_the_writer_are_date_cells() {
    assert_eq!(time_cell("1899-12-31T00:00:00Z"), Cell::DateTime(-2_209_075_200));
    assert_eq!(time_cell("1900-01-01T00:00:00Z"), Cell::DateTime(-2_208_988_800));
    assert_eq!(time_cell("9999-12-31T23:59:59Z"), Cell::DateTime(253_402_300_799));
}

#[test]
fn absent_time_leaves_the_cell_empty() {
    assert_eq!(optional_time_cell(&None), Cell::Empty);
    assert_eq!(optional_time_cell(&Some("1970-01-01T00:00:10Z".to_string())), Cell::DateTime(10));
    assert_eq!(optional_time_cell(&Some("never".to_string())), Cell::Text("never".to_string()));
}

#[test]
fn absent_note_is_the_empty_text() {
    assert_eq!(note_cell(&None), Cell::Text(String::new()));
    assert_eq!(note_cell(&Some("n".to_string())), Cell::Text("n".to_string()));
}

fn sample_material() -> Material {
    Material {
        id: 3,
        name: "olive oil".to_string(),
        category: "oil".to_string(),
        unit: "ml".to_string(),
        current_stock: q(5000, 250),
        low_stock_alert: Some(q(1000, 0)),
        note: None,
        created_at: "1970-01-01T00:01:00Z".to_string(),
        deleted_at: Some("not yet".to_string()),
    }
}

fn sample_product() -> Product {
    Product {
        id: 4,
        name: "soap".to_string(),
        category: "bath".to_string(),
        unit: "pc".to_string(),
        current_stock: -2,
        note: Some("100g".to_string()),
        created_at: "created".to_string(),
        deleted_at: None,
    }
}

fn sample_movement() -> Movement {
    Movement {
        id: 9,
        item_id: 4,
        item_name: "soap".to_string(),
        item_type: "product".to_string(),
        item_unit: "pc".to_string(),
        change_amount: q(2, 0),
        old_stock: q(0, 0),
        new_stock: Quantity::from_whole(-2),
        action_type: "out".to_string(),
        note: None,
        created_at: "1970-01-01T00:00:01Z".to_string(),
    }
}

#[test]
fn cells_of_a_material() {
    assert_eq!(
        material_row(&sample_material()),
        vec![
            Cell::Number(3),
            Cell::Text("olive oil".to_string()),
            Cell::Text("oil".to_string()),
            Cell::Text("ml".to_string()),
            Cell::Amount(q(5000, 250)),
            Cell::Amount(q(1000, 0)),
            Cell::Text(String::new()),
            Cell::DateTime(60),
            Cell::Text("not yet".to_string()),
        ]
    );
    let mut bare = sample_material();
    bare.low_stock_alert = None;
    bare.deleted_at = None;
    let cells = material_row(&bare);
    assert_eq!(cells[5], Cell::Empty);
    assert_eq!(cells[8], Cell::Empty);
}

#[test]
fn cells_of_a_product() {
    assert_eq!(
        product_row(&sample_product()),
        vec![
            Cell::Number(4),
            Cell::Text("soap".to_string()),
            Cell::Text("bath".to_string()),
            Cell::Text("pc".to_string()),
            Cell::Number(-2),
            Cell::Text("100g".to_string()),
            Cell::Text("created".to_string()),
            Cell::Empty,
        ]
    );
}

#[test]
fn cells_of_a_movement() {
    assert_eq!(
        movement_row(&sample_movement()),
        vec![
            Cell::Number(9),
            Cell::Number(4),
            Cell::Text("product".to_string()),
            Cell::Text("soap".to_string()),
            Cell::Text("pc".to_string()),
            Cell::Amount(q(2, 0)),
            Cell::Amount(q(0, 0)),
            Cell::Amount(Quantity::from_whole(-2)),
            Cell::Text("out".to_string()),
            Cell::Text(String::new()),
            Cell::DateTime(1),
        ]
    );
}

#[test]
fn material_sheet_has_its_headers_rows_and_widths() {
    let rows = vec![sample_material(), sample_material()];
    let sheet = export_materials_excel(&rows);
    assert_eq!(sheet.name, "Material");
    assert_eq!(
        sheet.headers,
        texts(&["ID", "名稱", "分類", "單位", "目前庫存", "低庫存警告", "備註", "建立時間", "刪除時間"])
    );
    assert_eq!(sheet.rows, vec![material_row(&rows[0]), material_row(&rows[1])]);
    assert_eq!(sheet.widths, widths(&[(1, 20), (2, 10), (5, 10), (7, 20), (8, 20)]));
}

#[test]
fn product_sheet_has_its_headers_rows_and_widths() {
    let rows = vec![sample_product()];
    let sheet = export_products_excel(&rows);
    assert_eq!(sheet.name, "Products");
    assert_eq!(
        sheet.headers,
        texts(&["ID", "名稱", "分類", "單位", "目前庫存", "備註", "建立時間", "刪除時間"])
    );
    assert_eq!(sheet.rows, vec![product_row(&rows[0])]);
    assert_eq!(sheet.widths, widths(&[(1, 20), (2, 10), (6, 20), (7, 20)]));
}

#[test]
fn movement_with_tags_of_another_writer_is_written_as_it_is() {
    let mut row = sample_movement();
    row.item_type = "tool".to_string();
    row.action_type = "transfer".to_string();
    let cells = movement_row(&row);
    assert_eq!(cells[2], Cell::Text("tool".to_string()));
    assert_eq!(cells[8], Cell::Text("transfer".to_string()));
}

#[test]
fn movement_sheet_has_its_headers_rows_and_widths() {
    let rows = vec![sample_movement()];
    let sheet = export_movements_excel(&rows);
    assert_eq!(sheet.name, "Movements");
    assert_eq!(
        sheet.headers,
        texts(&[
            "ID", "項目ID", "項目類型", "項目名稱", "項目單位", "變更數量", "舊庫存", "新庫存",
            "操作類型", "備註", "建立時間",
        ])
    );
    assert_eq!(sheet.rows, vec![movement_row(&rows[0])]);
    assert_eq!(sheet.widths, widths(&[(3, 20), (9, 20), (10, 20)]));
}

#[test]
fn creation_cell_is_never_empty() {
    let times = ["2024-01-02T03:04:05+00:00", "1800-01-01T00:00:00Z", "last week", ""];
    let rows: Vec<Material> = times
        .iter()
        .map(|t| {
            let mut row = sample_material();
            row.created_at = t.to_string();
            row
        })
        .collect();
    let sheet = export_materials_excel(&rows);
    assert_eq!(sheet.rows[0][7], Cell::DateTime(1_704_164_645));
    assert_eq!(sheet.rows[1][7], Cell::Text("1800-01-01T00:00:00Z".to_string()));
    assert_eq!(sheet.rows[2][7], Cell::Text("last week".to_string()));
    assert_eq!(sheet.rows[3][7], Cell::Text(String::new()));
}

#[test]
fn sheet_of_nothing_has_headers_only() {
    let sheet = export_materials_excel(&Vec::new());
    assert_eq!(sheet.headers.len(), 9);
    assert!(sheet.rows.is_empty());
}

#[test]
fn export_of_a_store_includes_retired_items() {
    let mut store = Ledger::new();
    let material = CreateMaterialRequest {
        name: "lye".to_string(),
        category: None,
        unit: "g".to_string(),
        current_stock: q(2, 0),
        low_stock_alert: None,
        note: None,
    };
    store.insert_material(material, "1970-01-01T00:00:01Z".to_string()).unwrap();
    for (n, name) in ["a", "b"].iter().enumerate() {
        let product = CreateProductRequest {
            name: name.to_string(),
            category: "bath".to_string(),
            unit: "pc".to_string(),
            current_stock: 1,
            note: None,
        };
        store.insert_product(product, format!("1970-01-01T00:00:0{}Z", n + 2)).unwrap();
    }
    store.soft_delete(ItemKind::Product, 1, "1970-01-01T00:00:09Z".to_string()).unwrap();
    let sheets = export_database_excel(&store);
    assert_eq!(sheets.len(), 3);
    assert_eq!(sheets[0], export_materials_excel(&store.materials(false)));
    assert_eq!(sheets[1], export_products_excel(&store.products(false)));
    assert_eq!(sheets[2], export_movements_excel(&store.movements()));
    assert_eq!(sheets[1].rows.len(), 2);
    assert_eq!(sheets[1].rows[0][7], Cell::DateTime(9));
    assert_eq!(sheets[1].rows[1][7], Cell::Empty);
    assert_eq!(sheets[2].rows.len(), 3);
    assert_eq!(sheets[2].rows[0][0], Cell::Number(3));
    assert_eq!(sheets[2].rows[2][0], Cell::Number(1));
}
