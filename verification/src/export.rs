//! The tabular export: one sheet per table, as a grid of typed cells.

use vstd::prelude::*;
use crate::laws::lemma_movement_listing_is_unique;
use crate::ledger::Ledger;
use crate::model::{text_of, Material, MaterialView, Movement, MovementView, Product, ProductView};
use crate::quantity::Quantity;
use crate::state::views_of;

verus! {

/// One cell of a sheet.
#[derive(Debug, Clone, PartialEq, Eq)]
pub enum Cell {
    /// Nothing is written.
    Empty,
    /// A whole number.
    Number(i64),
    /// A quantity.
    Amount(Quantity),
    /// A text.
    Text(String),
    /// A date and time, in seconds since 1970-01-01 00:00:00 UTC.
    DateTime(i64),
}

/// What a cell holds; an amount is in thousandths.
pub enum CellView {
    Empty,
    Number(int),
    Amount(int),
    Text(Seq<char>),
    DateTime(int),
}

impl View for Cell {
    type V = CellView;

    open spec fn view(&self) -> CellView {
        match self {
            Cell::Empty => CellView::Empty,
            Cell::Number(n) => CellView::Number(*n as int),
            Cell::Amount(q) => CellView::Amount(q@),
            Cell::Text(t) => CellView::Text(t@),
            Cell::DateTime(s) => CellView::DateTime(*s as int),
        }
    }
}

/// The width that a column of a sheet is set to.
#[derive(Debug, Clone, Copy, PartialEq, Eq)]
pub struct ColumnWidth {
    pub column: u16,
    pub width: u16,
}

/// A sheet: its name, its header row, its data rows and the widths of
/// the columns that are wider than the default.
#[derive(Debug, Clone, PartialEq, Eq)]
pub struct Sheet {
    pub name: String,
    pub headers: Vec<String>,
    pub rows: Vec<Vec<Cell>>,
    pub widths: Vec<ColumnWidth>,
}

/// What a sheet holds.
pub struct SheetView {
    pub name: Seq<char>,
    pub headers: Seq<Seq<char>>,
    pub rows: Seq<Seq<CellView>>,
    pub widths: Seq<ColumnWidth>,
}

impl View for Sheet {
    type V = SheetView;

    open spec fn view(&self) -> SheetView {
        SheetView {
            name: self.name@,
            headers: views_of(self.headers@),
            rows: Seq::new(self.rows@.len(), |i: int| views_of(self.rows@[i]@)),
            widths: self.widths@,
        }
    }
}

/// The seconds since 1970-01-01 00:00:00 UTC of the instant that a text
/// denotes in RFC 3339, and `None` for a text that is no RFC 3339 date and
/// time. It is what `chrono` reads from the text.
pub uninterp spec fn rfc3339_seconds(text: Seq<char>) -> Option<i64>;

/// Whether the spreadsheet writer takes an instant, given in seconds since
/// 1970-01-01 00:00:00 UTC, as a date and time of a sheet.
pub uninterp spec fn excel_accepts(seconds: i64) -> bool;

/// Reads an RFC 3339 date and time.
///
/// Calls `chrono::DateTime::parse_from_rfc3339` and, where it succeeds,
/// `chrono::DateTime::timestamp` on what it returns. Both depend on the
/// text alone; the contract gives the result its name and claims nothing
/// else of it.
#[verifier::external_body]
fn parse_rfc3339(text: &str) -> (r: Option<i64>)
    ensures
        r == rfc3339_seconds(text@),
{
    match chrono::DateTime::parse_from_rfc3339(text) {
        Ok(instant) => Some(instant.timestamp()),
        Err(_) => None,
    }
}

/// Asks the spreadsheet writer whether it takes an instant.
///
/// Calls `rust_xlsxwriter::ExcelDateTime::from_timestamp` and reports
/// whether it succeeded. It refuses every instant before 1899-12-31
/// 00:00:00 UTC and every instant from 10000-01-01 00:00:00 UTC on, which
/// is all that the contract claims beside the result's name.
#[verifier::external_body]
fn excel_takes(seconds: i64) -> (r: bool)
    ensures
        r == excel_accepts(seconds),
        r ==> -2_209_075_200 <= seconds < 253_402_300_800,
{
    rust_xlsxwriter::ExcelDateTime::from_timestamp(seconds).is_ok()
}

/// The cell for a time, given what was read from its text and whether the
/// writer takes it: a date that the writer takes is a date cell, and every
/// other time stays the text that it is held as, be it no date or a date
/// that the writer refuses. The cell of a time is never empty.
pub open spec fn date_cell_of(text: Seq<char>, seconds: Option<i64>, accepted: bool) -> CellView {
    match seconds {
        Some(s) if accepted => CellView::DateTime(s as int),
        _ => CellView::Text(text),
    }
}

/// The cell for a time that is held as a text.
pub open spec fn time_cell_of(text: Seq<char>) -> CellView {
    match rfc3339_seconds(text) {
        None => date_cell_of(text, None, false),
        Some(s) => date_cell_of(text, Some(s), excel_accepts(s)),
    }
}

/// The cell for a time that may be absent.
pub open spec fn optional_time_cell_of(text: Option<Seq<char>>) -> CellView {
    match text {
        None => CellView::Empty,
        Some(t) => time_cell_of(t),
    }
}

/// The cell for an optional text: an absent one is the empty text.
pub open spec fn note_cell_of(note: Option<Seq<char>>) -> CellView {
    match note {
        None => CellView::Text(Seq::empty()),
        Some(t) => CellView::Text(t),
    }
}

/// The cell for an optional amount: an absent one leaves the cell empty.
pub open spec fn alert_cell_of(alert: Option<int>) -> CellView {
    match alert {
        None => CellView::Empty,
        Some(a) => CellView::Amount(a),
    }
}

/// Builds the cell for a time from what was read from its text and from
/// whether the writer takes it.
pub fn date_cell(text: &str, seconds: Option<i64>, accepted: bool) -> (c: Cell)
    ensures
        c@ == date_cell_of(text@, seconds, accepted),
        c@ != CellView::Empty,
{
    match seconds {
        Some(s) if accepted => Cell::DateTime(s),
        _ => Cell::Text(text.to_owned()),
    }
}

/// Builds the cell for a time that is held as a text.
pub fn time_cell(text: &str) -> (c: Cell)
    ensures
        c@ == time_cell_of(text@),
        c@ != CellView::Empty,
        c@ matches CellView::DateTime(s) ==> -2_209_075_200 <= s < 253_402_300_800,
{
    match parse_rfc3339(text) {
        None => date_cell(text, None, false),
        Some(s) => {
            let accepted = excel_takes(s);
            date_cell(text, Some(s), accepted)
        },
    }
}

/// Builds the cell for a time that may be absent.
pub fn optional_time_cell(text: &Option<String>) -> (c: Cell)
    ensures
        c@ == optional_time_cell_of(text_of(*text)),
{
    match text {
        None => Cell::Empty,
        Some(t) => time_cell(t.as_str()),
    }
}

/// Builds the cell for an optional text.
pub fn note_cell(note: &Option<String>) -> (c: Cell)
    ensures
        c@ == note_cell_of(text_of(*note)),
{
    match note {
        None => Cell::Text(String::new()),
        Some(t) => Cell::Text(t.clone()),
    }
}

/// The headers of the material sheet.
pub open spec fn material_headers() -> Seq<Seq<char>> {
    seq![
        "ID"@,
        "名稱"@,
        "分類"@,
        "單位"@,
        "目前庫存"@,
        "低庫存警告"@,
        "備註"@,
        "建立時間"@,
        "刪除時間"@,
    ]
}

/// The headers of the product sheet.
pub open spec fn product_headers() -> Seq<Seq<char>> {
    seq!["ID"@, "名稱"@, "分類"@, "單位"@, "目前庫存"@, "備註"@, "建立時間"@, "刪除時間"@]
}

/// The headers of the movement sheet.
pub open spec fn movement_headers() -> Seq<Seq<char>> {
    seq![
        "ID"@,
        "項目ID"@,
        "項目類型"@,
        "項目名稱"@,
        "項目單位"@,
        "變更數量"@,
        "舊庫存"@,
        "新庫存"@,
        "操作類型"@,
        "備註"@,
        "建立時間"@,
    ]
}

/// The cells of a material, one per header.
pub open spec fn material_cells(m: MaterialView) -> Seq<CellView> {
    seq![
        CellView::Number(m.id),
        CellView::Text(m.name),
        CellView::Text(m.category),
        CellView::Text(m.unit),
        CellView::Amount(m.current_stock),
        alert_cell_of(m.low_stock_alert),
        note_cell_of(m.note),
        time_cell_of(m.created_at),
        optional_time_cell_of(m.deleted_at),
    ]
}

/// The cells of a product, one per header.
pub open spec fn product_cells(p: ProductView) -> Seq<CellView> {
    seq![
        CellView::Number(p.id),
        CellView::Text(p.name),
        CellView::Text(p.category),
        CellView::Text(p.unit),
        CellView::Number(p.current_stock),
        note_cell_of(p.note),
        time_cell_of(p.created_at),
        optional_time_cell_of(p.deleted_at),
    ]
}

/// The cells of a movement, one per header.
pub open spec fn movement_cells(m: MovementView) -> Seq<CellView> {
    seq![
        CellView::Number(m.id),
        CellView::Number(m.item_id),
        CellView::Text(m.item_type),
        CellView::Text(m.item_name),
        CellView::Text(m.item_unit),
        CellView::Amount(m.change_amount),
        CellView::Amount(m.old_stock),
        CellView::Amount(m.new_stock),
        CellView::Text(m.action_type),
        note_cell_of(m.note),
        time_cell_of(m.created_at),
    ]
}

/// The material sheet: one row per material, in the order given.
pub open spec fn material_sheet(rows: Seq<MaterialView>) -> SheetView {
    SheetView {
        name: "Material"@,
        headers: material_headers(),
        rows: Seq::new(rows.len(), |i: int| material_cells(rows[i])),
        widths: seq![
            ColumnWidth { column: 1, width: 20 },
            ColumnWidth { column: 2, width: 10 },
            ColumnWidth { column: 5, width: 10 },
            ColumnWidth { column: 7, width: 20 },
            ColumnWidth { column: 8, width: 20 },
        ],
    }
}

/// The product sheet: one row per product, in the order given.
pub open spec fn product_sheet(rows: Seq<ProductView>) -> SheetView {
    SheetView {
        name: "Products"@,
        headers: product_headers(),
        rows: Seq::new(rows.len(), |i: int| product_cells(rows[i])),
        widths: seq![
            ColumnWidth { column: 1, width: 20 },
            ColumnWidth { column: 2, width: 10 },
            ColumnWidth { column: 6, width: 20 },
            ColumnWidth { column: 7, width: 20 },
        ],
    }
}

/// The movement sheet: one row per movement, in the order given.
pub open spec fn movement_sheet(rows: Seq<MovementView>) -> SheetView {
    SheetView {
        name: "Movements"@,
        headers: movement_headers(),
        rows: Seq::new(rows.len(), |i: int| movement_cells(rows[i])),
        widths: seq![
            ColumnWidth { column: 3, width: 20 },
            ColumnWidth { column: 9, width: 20 },
            ColumnWidth { column: 10, width: 20 },
        ],
    }
}

/// Builds the cells of a material.
pub fn material_row(m: &Material) -> (cells: Vec<Cell>)
    ensures
        views_of(cells@) == material_cells(m@),
{
    let mut cells: Vec<Cell> = Vec::new();
    cells.push(Cell::Number(m.id));
    cells.push(Cell::Text(m.name.clone()));
    cells.push(Cell::Text(m.category.clone()));
    cells.push(Cell::Text(m.unit.clone()));
    cells.push(Cell::Amount(m.current_stock));
    cells.push(
        match m.low_stock_alert {
            Some(alert) => Cell::Amount(alert),
            None => Cell::Empty,
        },
    );
    cells.push(note_cell(&m.note));
    cells.push(time_cell(m.created_at.as_str()));
    cells.push(optional_time_cell(&m.deleted_at));
    assert(views_of(cells@) =~= material_cells(m@));
    cells
}

/// Builds the cells of a product.
pub fn product_row(p: &Product) -> (cells: Vec<Cell>)
    ensures
        views_of(cells@) == product_cells(p@),
{
    let mut cells: Vec<Cell> = Vec::new();
    cells.push(Cell::Number(p.id));
    cells.push(Cell::Text(p.name.clone()));
    cells.push(Cell::Text(p.category.clone()));
    cells.push(Cell::Text(p.unit.clone()));
    cells.push(Cell::Number(p.current_stock));
    cells.push(note_cell(&p.note));
    cells.push(time_cell(p.created_at.as_str()));
    cells.push(optional_time_cell(&p.deleted_at));
    assert(views_of(cells@) =~= product_cells(p@));
    cells
}

/// Builds the cells of a movement.
pub fn movement_row(m: &Movement) -> (cells: Vec<Cell>)
    ensures
        views_of(cells@) == movement_cells(m@),
{
    let mut cells: Vec<Cell> = Vec::new();
    cells.push(Cell::Number(m.id));
    cells.push(Cell::Number(m.item_id));
    cells.push(Cell::Text(m.item_type.clone()));
    cells.push(Cell::Text(m.item_name.clone()));
    cells.push(Cell::Text(m.item_unit.clone()));
    cells.push(Cell::Amount(m.change_amount));
    cells.push(Cell::Amount(m.old_stock));
    cells.push(Cell::Amount(m.new_stock));
    cells.push(Cell::Text(m.action_type.clone()));
    cells.push(note_cell(&m.note));
    cells.push(time_cell(m.created_at.as_str()));
    assert(views_of(cells@) =~= movement_cells(m@));
    cells
}

/// Builds the material sheet from the materials, retired ones included.
pub fn export_materials_excel(materials: &Vec<Material>) -> (sheet: Sheet)
    ensures
        sheet@ == material_sheet(views_of(materials@)),
{
    let mut headers: Vec<String> = Vec::new();
    headers.push("ID".to_owned());
    headers.push("名稱".to_owned());
    headers.push("分類".to_owned());
    headers.push("單位".to_owned());
    headers.push("目前庫存".to_owned());
    headers.push("低庫存警告".to_owned());
    headers.push("備註".to_owned());
    headers.push("建立時間".to_owned());
    headers.push("刪除時間".to_owned());
    assert(views_of(headers@) =~= material_headers());
    let mut rows: Vec<Vec<Cell>> = Vec::new();
    let mut i: usize = 0;
    while i < materials.len()
        invariant
            i <= materials.len(),
            rows.len() == i,
            forall|j: int| 0 <= j < i ==> views_of((#[trigger] rows[j])@) == material_cells(materials[j]@),
        decreases materials.len() - i,
    {
        rows.push(material_row(&materials[i]));
        i += 1;
    }
    let mut widths: Vec<ColumnWidth> = Vec::new();
    widths.push(ColumnWidth { column: 1, width: 20 });
    widths.push(ColumnWidth { column: 2, width: 10 });
    widths.push(ColumnWidth { column: 5, width: 10 });
    widths.push(ColumnWidth { column: 7, width: 20 });
    widths.push(ColumnWidth { column: 8, width: 20 });
    let sheet = Sheet { name: "Material".to_owned(), headers, rows, widths };
    assert(sheet@.rows =~= material_sheet(views_of(materials@)).rows);
    assert(sheet@.widths =~= material_sheet(views_of(materials@)).widths);
    sheet
}

/// Builds the product sheet from the products, retired ones included.
pub fn export_products_excel(products: &Vec<Product>) -> (sheet: Sheet)
    ensures
        sheet@ == product_sheet(views_of(products@)),
{
    let mut headers: Vec<String> = Vec::new();
    headers.push("ID".to_owned());
    headers.push("名稱".to_owned());
    headers.push("分類".to_owned());
    headers.push("單位".to_owned());
    headers.push("目前庫存".to_owned());
    headers.push("備註".to_owned());
    headers.push("建立時間".to_owned());
    headers.push("刪除時間".to_owned());
    assert(views_of(headers@) =~= product_headers());
    let mut rows: Vec<Vec<Cell>> = Vec::new();
    let mut i: usize = 0;
    while i < products.len()
        invariant
            i <= products.len(),
            rows.len() == i,
            forall|j: int| 0 <= j < i ==> views_of((#[trigger] rows[j])@) == product_cells(products[j]@),
        decreases products.len() - i,
    {
        rows.push(product_row(&products[i]));
        i += 1;
    }
    let mut widths: Vec<ColumnWidth> = Vec::new();
    widths.push(ColumnWidth { column: 1, width: 20 });
    widths.push(ColumnWidth { column: 2, width: 10 });
    widths.push(ColumnWidth { column: 6, width: 20 });
    widths.push(ColumnWidth { column: 7, width: 20 });
    let sheet = Sheet { name: "Products".to_owned(), headers, rows, widths };
    assert(sheet@.rows =~= product_sheet(views_of(products@)).rows);
    assert(sheet@.widths =~= product_sheet(views_of(products@)).widths);
    sheet
}

/// Builds the movement sheet from the movements.
pub fn export_movements_excel(movements: &Vec<Movement>) -> (sheet: Sheet)
    ensures
        sheet@ == movement_sheet(views_of(movements@)),
{
    let mut headers: Vec<String> = Vec::new();
    headers.push("ID".to_owned());
    headers.push("項目ID".to_owned());
    headers.push("項目類型".to_owned());
    headers.push("項目名稱".to_owned());
    headers.push("項目單位".to_owned());
    headers.push("變更數量".to_owned());
    headers.push("舊庫存".to_owned());
    headers.push("新庫存".to_owned());
    headers.push("操作類型".to_owned());
    headers.push("備註".to_owned());
    headers.push("建立時間".to_owned());
    assert(views_of(headers@) =~= movement_headers());
    let mut rows: Vec<Vec<Cell>> = Vec::new();
    let mut i: usize = 0;
    while i < movements.len()
        invariant
            i <= movements.len(),
            rows.len() == i,
            forall|j: int| 0 <= j < i ==> views_of((#[trigger] rows[j])@) == movement_cells(movements[j]@),
        decreases movements.len() - i,
    {
        rows.push(movement_row(&movements[i]));
        i += 1;
    }
    let mut widths: Vec<ColumnWidth> = Vec::new();
    widths.push(ColumnWidth { column: 3, width: 20 });
    widths.push(ColumnWidth { column: 9, width: 20 });
    widths.push(ColumnWidth { column: 10, width: 20 });
    let sheet = Sheet { name: "Movements".to_owned(), headers, rows, widths };
    assert(sheet@.rows =~= movement_sheet(views_of(movements@)).rows);
    assert(sheet@.widths =~= movement_sheet(views_of(movements@)).widths);
    sheet
}

/// Builds the sheets of the whole store: the materials and the products,
/// retired ones included, in the order of insertion, and the movements,
/// latest first.
pub fn export_database_excel(store: &Ledger) -> (sheets: Vec<Sheet>)
    requires
        store.wf(),
    ensures
        sheets.len() == 3,
        sheets[0]@ == material_sheet(store@.listed_materials(false)),
        sheets[1]@ == product_sheet(store@.listed_products(false)),
        sheets[2]@ == movement_sheet(store@.movement_listing()),
{
    let materials = store.materials(false);
    let products = store.products(false);
    let movements = store.movements();
    proof {
        lemma_movement_listing_is_unique(store@, views_of(movements@), store@.movement_listing());
    }
    let mut sheets: Vec<Sheet> = Vec::new();
    sheets.push(export_materials_excel(&materials));
    sheets.push(export_products_excel(&products));
    sheets.push(export_movements_excel(&movements));
    sheets
}

} // verus!
