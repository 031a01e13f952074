//! The rows of the store and the requests that change them.

use vstd::prelude::*;
use crate::kinds::{ActionType, ItemKind};
use crate::quantity::Quantity;

verus! {

/// The characters of an optional text.
pub open spec fn text_of(text: Option<String>) -> Option<Seq<char>> {
    match text {
        Some(s) => Some(s@),
        None => None,
    }
}

/// The thousandths of an optional quantity.
pub open spec fn amount_of(amount: Option<Quantity>) -> Option<int> {
    match amount {
        Some(q) => Some(q@),
        None => None,
    }
}

/// The text of an optional category: an absent one is stored as the empty text.
pub open spec fn category_of(category: Option<String>) -> Seq<char> {
    match category {
        Some(c) => c@,
        None => Seq::empty(),
    }
}

/// A copy of an optional text.
pub fn clone_text(text: &Option<String>) -> (r: Option<String>)
    ensures
        text_of(r) == text_of(*text),
{
    match text {
        Some(s) => Some(s.clone()),
        None => None,
    }
}

/// A raw material and its stock.
#[derive(Debug, PartialEq, Eq)]
pub struct Material {
    pub id: i64,
    pub name: String,
    pub category: String,
    pub unit: String,
    pub current_stock: Quantity,
    pub low_stock_alert: Option<Quantity>,
    pub note: Option<String>,
    pub created_at: String,
    pub deleted_at: Option<String>,
}

/// What a material row holds.
pub struct MaterialView {
    pub id: int,
    pub name: Seq<char>,
    pub category: Seq<char>,
    pub unit: Seq<char>,
    /// Stock in thousandths of the unit.
    pub current_stock: int,
    pub low_stock_alert: Option<int>,
    pub note: Option<Seq<char>>,
    pub created_at: Seq<char>,
    pub deleted_at: Option<Seq<char>>,
}

impl View for Material {
    type V = MaterialView;

    open spec fn view(&self) -> MaterialView {
        MaterialView {
            id: self.id as int,
            name: self.name@,
            category: self.category@,
            unit: self.unit@,
            current_stock: self.current_stock@,
            low_stock_alert: amount_of(self.low_stock_alert),
            note: text_of(self.note),
            created_at: self.created_at@,
            deleted_at: text_of(self.deleted_at),
        }
    }
}

impl Clone for Material {
    fn clone(&self) -> (r: Material)
        ensures
            r@ == self@,
    {
        Material {
            id: self.id,
            name: self.name.clone(),
            category: self.category.clone(),
            unit: self.unit.clone(),
            current_stock: self.current_stock,
            low_stock_alert: self.low_stock_alert,
            note: clone_text(&self.note),
            created_at: self.created_at.clone(),
            deleted_at: clone_text(&self.deleted_at),
        }
    }
}

/// A finished product and its stock, counted in whole units.
#[derive(Debug, PartialEq, Eq)]
pub struct Product {
    pub id: i64,
    pub name: String,
    pub category: String,
    pub unit: String,
    pub current_stock: i64,
    pub note: Option<String>,
    pub created_at: String,
    pub deleted_at: Option<String>,
}

/// What a product row holds.
pub struct ProductView {
    pub id: int,
    pub name: Seq<char>,
    pub category: Seq<char>,
    pub unit: Seq<char>,
    /// Stock in whole units.
    pub current_stock: int,
    pub note: Option<Seq<char>>,
    pub created_at: Seq<char>,
    pub deleted_at: Option<Seq<char>>,
}

impl View for Product {
    type V = ProductView;

    open spec fn view(&self) -> ProductView {
        ProductView {
            id: self.id as int,
            name: self.name@,
            category: self.category@,
            unit: self.unit@,
            current_stock: self.current_stock as int,
            note: text_of(self.note),
            created_at: self.created_at@,
            deleted_at: text_of(self.deleted_at),
        }
    }
}

impl Clone for Product {
    fn clone(&self) -> (r: Product)
        ensures
            r@ == self@,
    {
        Product {
            id: self.id,
            name: self.name.clone(),
            category: self.category.clone(),
            unit: self.unit.clone(),
            current_stock: self.current_stock,
            note: clone_text(&self.note),
            created_at: self.created_at.clone(),
            deleted_at: clone_text(&self.deleted_at),
        }
    }
}

/// One row of the movement log: a stock change as it was recorded.
#[derive(Debug, PartialEq, Eq)]
pub struct InventoryLog {
    pub id: i64,
    pub item_id: i64,
    pub item_type: ItemKind,
    pub change_amount: Quantity,
    pub old_stock: Quantity,
    pub new_stock: Quantity,
    pub action_type: ActionType,
    pub note: Option<String>,
    pub created_at: String,
}

/// What a row of the movement log holds; amounts are in thousandths.
pub struct LogView {
    pub id: int,
    pub item_id: int,
    pub item_type: ItemKind,
    pub change_amount: int,
    pub old_stock: int,
    pub new_stock: int,
    pub action_type: ActionType,
    pub note: Option<Seq<char>>,
    pub created_at: Seq<char>,
}

impl View for InventoryLog {
    type V = LogView;

    open spec fn view(&self) -> LogView {
        LogView {
            id: self.id as int,
            item_id: self.item_id as int,
            item_type: self.item_type,
            change_amount: self.change_amount@,
            old_stock: self.old_stock@,
            new_stock: self.new_stock@,
            action_type: self.action_type,
            note: text_of(self.note),
            created_at: self.created_at@,
        }
    }
}

impl Clone for InventoryLog {
    fn clone(&self) -> (r: InventoryLog)
        ensures
            r@ == self@,
    {
        InventoryLog {
            id: self.id,
            item_id: self.item_id,
            item_type: self.item_type,
            change_amount: self.change_amount,
            old_stock: self.old_stock,
            new_stock: self.new_stock,
            action_type: self.action_type,
            note: clone_text(&self.note),
            created_at: self.created_at.clone(),
        }
    }
}

/// A movement as it is listed: a row of the movement log together with
/// the name and the unit of its item. Kind and action are held by their tags.
#[derive(Debug, PartialEq, Eq)]
pub struct Movement {
    pub id: i64,
    pub item_id: i64,
    pub item_name: String,
    pub item_type: String,
    pub item_unit: String,
    pub change_amount: Quantity,
    pub old_stock: Quantity,
    pub new_stock: Quantity,
    pub action_type: String,
    pub note: Option<String>,
    pub created_at: String,
}

/// What a listed movement holds; amounts are in thousandths.
pub struct MovementView {
    pub id: int,
    pub item_id: int,
    pub item_name: Seq<char>,
    pub item_type: Seq<char>,
    pub item_unit: Seq<char>,
    pub change_amount: int,
    pub old_stock: int,
    pub new_stock: int,
    pub action_type: Seq<char>,
    pub note: Option<Seq<char>>,
    pub created_at: Seq<char>,
}

impl View for Movement {
    type V = MovementView;

    open spec fn view(&self) -> MovementView {
        MovementView {
            id: self.id as int,
            item_id: self.item_id as int,
            item_name: self.item_name@,
            item_type: self.item_type@,
            item_unit: self.item_unit@,
            change_amount: self.change_amount@,
            old_stock: self.old_stock@,
            new_stock: self.new_stock@,
            action_type: self.action_type@,
            note: text_of(self.note),
            created_at: self.created_at@,
        }
    }
}

/// A request to record a stock change on an item.
#[derive(Debug, Clone, PartialEq, Eq)]
pub struct CreateMovementRequest {
    pub item_type: String,
    pub item_id: i64,
    pub action_type: String,
    pub change_amount: Quantity,
    pub note: Option<String>,
}

/// A request to change a material's stock by a signed amount.
#[derive(Debug, Clone, PartialEq, Eq)]
pub struct MaterialInventoryChangeRequest {
    pub material_id: i64,
    pub change_amount: Quantity,
    pub action_type: String,
    pub reference_id: Option<i64>,
    pub note: Option<String>,
}

/// A request to create a material.
#[derive(Debug, Clone, PartialEq, Eq)]
pub struct CreateMaterialRequest {
    pub name: String,
    pub category: Option<String>,
    pub unit: String,
    pub current_stock: Quantity,
    pub low_stock_alert: Option<Quantity>,
    pub note: Option<String>,
}

/// What a request to create a material asks for; amounts are in thousandths.
pub struct MaterialFields {
    pub name: Seq<char>,
    pub category: Seq<char>,
    pub unit: Seq<char>,
    pub current_stock: int,
    pub low_stock_alert: Option<int>,
    pub note: Option<Seq<char>>,
}

impl View for CreateMaterialRequest {
    type V = MaterialFields;

    open spec fn view(&self) -> MaterialFields {
        MaterialFields {
            name: self.name@,
            category: category_of(self.category),
            unit: self.unit@,
            current_stock: self.current_stock@,
            low_stock_alert: amount_of(self.low_stock_alert),
            note: text_of(self.note),
        }
    }
}

/// A request to change the descriptive fields of a material.
#[derive(Debug, Clone, PartialEq, Eq)]
pub struct UpdateMaterialRequest {
    pub name: String,
    pub category: Option<String>,
    pub unit: String,
    pub low_stock_alert: Option<Quantity>,
    pub note: Option<String>,
}

/// What a request to change a material asks for.
pub struct MaterialDetails {
    pub name: Seq<char>,
    pub category: Seq<char>,
    pub unit: Seq<char>,
    pub low_stock_alert: Option<int>,
    pub note: Option<Seq<char>>,
}

impl View for UpdateMaterialRequest {
    type V = MaterialDetails;

    open spec fn view(&self) -> MaterialDetails {
        MaterialDetails {
            name: self.name@,
            category: category_of(self.category),
            unit: self.unit@,
            low_stock_alert: amount_of(self.low_stock_alert),
            note: text_of(self.note),
        }
    }
}

/// A request to create a product.
#[derive(Debug, Clone, PartialEq, Eq)]
pub struct CreateProductRequest {
    pub name: String,
    pub category: String,
    pub unit: String,
    pub current_stock: i64,
    pub note: Option<String>,
}

/// What a request to create a product asks for; the stock is in whole units.
pub struct ProductFields {
    pub name: Seq<char>,
    pub category: Seq<char>,
    pub unit: Seq<char>,
    pub current_stock: int,
    pub note: Option<Seq<char>>,
}

impl View for CreateProductRequest {
    type V = ProductFields;

    open spec fn view(&self) -> ProductFields {
        ProductFields {
            name: self.name@,
            category: self.category@,
            unit: self.unit@,
            current_stock: self.current_stock as int,
            note: text_of(self.note),
        }
    }
}

/// A request to change the descriptive fields of a product.
#[derive(Debug, Clone, PartialEq, Eq)]
pub struct UpdateProductRequest {
    pub name: String,
    pub category: String,
    pub note: Option<String>,
}

/// What a request to change a product asks for.
pub struct ProductDetails {
    pub name: Seq<char>,
    pub category: Seq<char>,
    pub note: Option<Seq<char>>,
}

impl View for UpdateProductRequest {
    type V = ProductDetails;

    open spec fn view(&self) -> ProductDetails {
        ProductDetails { name: self.name@, category: self.category@, note: text_of(self.note) }
    }
}

/// A request to retire a product.
#[derive(Debug, Clone, PartialEq, Eq)]
pub struct RemoveProductRequest {
    pub id: i64,
}

} // verus!
