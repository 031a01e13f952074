//! The ledger as a mathematical value, and what it means for it to be
//! consistent.

use vstd::prelude::*;
use crate::engine::{lemma_whole_stays_whole, movement_accepted, stock_after};
use crate::kinds::{ActionType, ItemKind, LedgerError};
use crate::model::{
    LogView, MaterialDetails, MaterialFields, MaterialView, MovementView, ProductDetails,
    ProductFields, ProductView,
};
use crate::order::stands_before;
use crate::quantity::representable;

verus! {

/// The views of a sequence of rows, in the same order.
pub open spec fn views_of<T: View>(rows: Seq<T>) -> Seq<T::V> {
    Seq::new(rows.len(), |i: int| rows[i]@)
}

/// The note of the movement that records the stock an item is created with.
pub open spec fn initial_note() -> Seq<char> {
    "Initial stock"@
}

/// The stock that a log records for an item: the new stock of its latest
/// movement, and zero while it has none. Amounts are in thousandths.
pub open spec fn recorded_stock(logs: Seq<LogView>, kind: ItemKind, id: int) -> int
    decreases logs.len(),
{
    if logs.len() == 0 {
        0
    } else if logs.last().item_type == kind && logs.last().item_id == id {
        logs.last().new_stock
    } else {
        recorded_stock(logs.drop_last(), kind, id)
    }
}

/// Whether a log holds a movement of an item.
pub open spec fn has_movement(logs: Seq<LogView>, kind: ItemKind, id: int) -> bool {
    exists|k: int| 0 <= k < logs.len() && #[trigger] logs[k].item_type == kind && logs[k].item_id == id
}

/// Which materials a listing shows.
pub open spec fn material_shown(active_only: bool) -> spec_fn(MaterialView) -> bool {
    |m: MaterialView| !active_only || m.deleted_at is None
}

/// Which products a listing shows.
pub open spec fn product_shown(active_only: bool) -> spec_fn(ProductView) -> bool {
    |p: ProductView| !active_only || p.deleted_at is None
}

/// Why the creation of an item is refused, if it is: the initial stock must
/// not be below zero, and the item's table, and the log where a first
/// movement is due, must have room.
pub open spec fn creation_refusal(s: LedgerView, kind: ItemKind, initial: int) -> Option<
    LedgerError,
> {
    let rows = match kind {
        ItemKind::Material => s.materials.len(),
        ItemKind::Product => s.products.len(),
    };
    if initial < 0 {
        Some(LedgerError::InvalidAmount)
    } else if rows >= i64::MAX {
        Some(LedgerError::StorageError)
    } else if initial > 0 && s.logs.len() >= i64::MAX {
        Some(LedgerError::StorageError)
    } else {
        None
    }
}

/// Why a movement is refused, if it is: the item is looked up first, then
/// the amount is held against the stock, then the log must have room.
pub open spec fn movement_refusal(
    s: LedgerView,
    kind: ItemKind,
    id: int,
    action: ActionType,
    amount: int,
) -> Option<LedgerError> {
    if !s.has_item(kind, id) {
        Some(LedgerError::NotFound)
    } else if !movement_accepted(kind, action, s.stock_of(kind, id), amount) {
        Some(LedgerError::InvalidAmount)
    } else if s.logs.len() >= i64::MAX {
        Some(LedgerError::StorageError)
    } else {
        None
    }
}

/// Why a change of a material's descriptive fields is refused, if it is: the
/// material must exist, and its unit stays once it has a movement.
pub open spec fn material_update_refusal(s: LedgerView, id: int, unit: Seq<char>) -> Option<
    LedgerError,
> {
    if !s.has_item(ItemKind::Material, id) {
        Some(LedgerError::NotFound)
    } else if s.materials[id - 1].unit != unit && has_movement(s.logs, ItemKind::Material, id) {
        Some(LedgerError::UnitMismatch)
    } else {
        None
    }
}

/// What the store holds: its materials, products and movement log, each in
/// the order of insertion.
pub struct LedgerView {
    /// The version of the schema that the store was brought to; zero
    /// before its first start.
    pub schema_version: int,
    pub materials: Seq<MaterialView>,
    pub products: Seq<ProductView>,
    pub logs: Seq<LogView>,
}

impl LedgerView {
    /// The store that holds nothing.
    pub open spec fn empty() -> LedgerView {
        LedgerView {
            schema_version: 0,
            materials: Seq::empty(),
            products: Seq::empty(),
            logs: Seq::empty(),
        }
    }

    /// Whether the store holds no row at all.
    pub open spec fn is_empty(self) -> bool {
        self.materials.len() == 0 && self.products.len() == 0 && self.logs.len() == 0
    }

    /// The store with the version of its schema replaced.
    pub open spec fn with_schema_version(self, version: int) -> LedgerView {
        LedgerView { schema_version: version, ..self }
    }

    /// Whether an item of the given kind has the given id.
    pub open spec fn has_item(self, kind: ItemKind, id: int) -> bool {
        match kind {
            ItemKind::Material => 1 <= id <= self.materials.len(),
            ItemKind::Product => 1 <= id <= self.products.len(),
        }
    }

    /// The current stock of an item, in thousandths.
    pub open spec fn stock_of(self, kind: ItemKind, id: int) -> int
        recommends
            self.has_item(kind, id),
    {
        match kind {
            ItemKind::Material => self.materials[id - 1].current_stock,
            ItemKind::Product => self.products[id - 1].current_stock * 1000,
        }
    }

    /// Ids are assigned in the order of insertion, starting at one.
    pub open spec fn ids_in_order(self) -> bool {
        &&& forall|i: int| 0 <= i < self.materials.len() ==> (#[trigger] self.materials[i]).id == i + 1
        &&& forall|i: int| 0 <= i < self.products.len() ==> (#[trigger] self.products[i]).id == i + 1
        &&& forall|i: int| 0 <= i < self.logs.len() ==> (#[trigger] self.logs[i]).id == i + 1
    }

    /// Every movement addresses an item of the store, found the stock that
    /// the movements before it had left, was accepted on that stock, and
    /// left the stock that its action prescribes.
    pub open spec fn log_chained(self) -> bool {
        forall|k: int|
            0 <= k < self.logs.len() ==> {
                let row = #[trigger] self.logs[k];
                &&& self.has_item(row.item_type, row.item_id)
                &&& row.old_stock == recorded_stock(self.logs.take(k), row.item_type, row.item_id)
                &&& movement_accepted(row.item_type, row.action_type, row.old_stock, row.change_amount)
                &&& row.new_stock == stock_after(row.action_type, row.old_stock, row.change_amount)
            }
    }

    /// Every stock counter equals the stock that the log records for its item.
    pub open spec fn counters_match_log(self) -> bool {
        forall|kind: ItemKind, id: int|
            self.has_item(kind, id) ==> #[trigger] self.stock_of(kind, id) == recorded_stock(
                self.logs,
                kind,
                id,
            )
    }

    /// The invariant of the ledger.
    pub open spec fn consistent(self) -> bool {
        &&& self.ids_in_order()
        &&& self.log_chained()
        &&& self.counters_match_log()
    }

    /// Whether every id of the store fits a signed 64-bit integer.
    pub open spec fn within_limits(self) -> bool {
        &&& self.materials.len() <= i64::MAX
        &&& self.products.len() <= i64::MAX
        &&& self.logs.len() <= i64::MAX
    }

    /// The store with the stock counter of one item replaced.
    pub open spec fn with_stock(self, kind: ItemKind, id: int, stock: int) -> LedgerView
        recommends
            self.has_item(kind, id),
            kind == ItemKind::Product ==> stock % 1000 == 0,
    {
        match kind {
            ItemKind::Material => LedgerView {
                materials: self.materials.update(
                    id - 1,
                    MaterialView { current_stock: stock, ..self.materials[id - 1] },
                ),
                ..self
            },
            ItemKind::Product => LedgerView {
                products: self.products.update(
                    id - 1,
                    ProductView { current_stock: stock / 1000, ..self.products[id - 1] },
                ),
                ..self
            },
        }
    }

    /// The row that a movement adds to the log.
    pub open spec fn movement_row(
        self,
        kind: ItemKind,
        id: int,
        action: ActionType,
        amount: int,
        note: Option<Seq<char>>,
        now: Seq<char>,
    ) -> LogView
        recommends
            self.has_item(kind, id),
    {
        LogView {
            id: self.logs.len() as int + 1,
            item_id: id,
            item_type: kind,
            change_amount: amount,
            old_stock: self.stock_of(kind, id),
            new_stock: stock_after(action, self.stock_of(kind, id), amount),
            action_type: action,
            note: note,
            created_at: now,
        }
    }

    /// The store after a movement: one more row at the end of the log, and
    /// the counter of the item set to the row's new stock.
    pub open spec fn with_movement(
        self,
        kind: ItemKind,
        id: int,
        action: ActionType,
        amount: int,
        note: Option<Seq<char>>,
        now: Seq<char>,
    ) -> LedgerView
        recommends
            self.has_item(kind, id),
    {
        let row = self.movement_row(kind, id, action, amount, note, now);
        LedgerView { logs: self.logs.push(row), ..self }.with_stock(kind, id, row.new_stock)
    }

    /// The store after an item was created with an initial stock: the item's
    /// row stands at the end of its table with the counter zero, and a stock
    /// above zero is then received by a first movement.
    pub open spec fn with_initial_stock(
        self,
        kind: ItemKind,
        id: int,
        initial: int,
        now: Seq<char>,
    ) -> LedgerView {
        if initial > 0 {
            self.with_movement(kind, id, ActionType::In, initial, Some(initial_note()), now)
        } else {
            self
        }
    }

    /// The store with one more row at the end of the material table.
    pub open spec fn with_material_row(self, row: MaterialView) -> LedgerView {
        LedgerView { materials: self.materials.push(row), ..self }
    }

    /// The store with one more row at the end of the product table.
    pub open spec fn with_product_row(self, row: ProductView) -> LedgerView {
        LedgerView { products: self.products.push(row), ..self }
    }

    /// The row that a request to create a material adds.
    pub open spec fn material_row(self, req: MaterialFields, now: Seq<char>) -> MaterialView {
        MaterialView {
            id: self.materials.len() as int + 1,
            name: req.name,
            category: req.category,
            unit: req.unit,
            current_stock: 0,
            low_stock_alert: req.low_stock_alert,
            note: req.note,
            created_at: now,
            deleted_at: None,
        }
    }

    /// The store after a material was created.
    pub open spec fn with_material(self, req: MaterialFields, now: Seq<char>) -> LedgerView {
        self.with_material_row(self.material_row(req, now)).with_initial_stock(
            ItemKind::Material,
            self.materials.len() as int + 1,
            req.current_stock,
            now,
        )
    }

    /// The row that a request to create a product adds.
    pub open spec fn product_row(self, req: ProductFields, now: Seq<char>) -> ProductView {
        ProductView {
            id: self.products.len() as int + 1,
            name: req.name,
            category: req.category,
            unit: req.unit,
            current_stock: 0,
            note: req.note,
            created_at: now,
            deleted_at: None,
        }
    }

    /// The store after a product was created.
    pub open spec fn with_product(self, req: ProductFields, now: Seq<char>) -> LedgerView {
        self.with_product_row(self.product_row(req, now)).with_initial_stock(
            ItemKind::Product,
            self.products.len() as int + 1,
            req.current_stock * 1000,
            now,
        )
    }

    /// The store after the descriptive fields of a material were replaced.
    pub open spec fn with_material_details(self, id: int, req: MaterialDetails) -> LedgerView
        recommends
            self.has_item(ItemKind::Material, id),
    {
        LedgerView {
            materials: self.materials.update(
                id - 1,
                MaterialView {
                    name: req.name,
                    category: req.category,
                    unit: req.unit,
                    low_stock_alert: req.low_stock_alert,
                    note: req.note,
                    ..self.materials[id - 1]
                },
            ),
            ..self
        }
    }

    /// The store after the descriptive fields of a product were replaced.
    pub open spec fn with_product_details(self, id: int, req: ProductDetails) -> LedgerView
        recommends
            self.has_item(ItemKind::Product, id),
    {
        LedgerView {
            products: self.products.update(
                id - 1,
                ProductView {
                    name: req.name,
                    category: req.category,
                    note: req.note,
                    ..self.products[id - 1]
                },
            ),
            ..self
        }
    }

    /// When an item was retired, if it was.
    pub open spec fn deleted_at(self, kind: ItemKind, id: int) -> Option<Seq<char>>
        recommends
            self.has_item(kind, id),
    {
        match kind {
            ItemKind::Material => self.materials[id - 1].deleted_at,
            ItemKind::Product => self.products[id - 1].deleted_at,
        }
    }

    /// The store after an item was retired: an item that is retired already
    /// keeps the time of its first retirement.
    pub open spec fn with_deleted(self, kind: ItemKind, id: int, now: Seq<char>) -> LedgerView
        recommends
            self.has_item(kind, id),
    {
        if self.deleted_at(kind, id) is Some {
            self
        } else {
            match kind {
                ItemKind::Material => LedgerView {
                    materials: self.materials.update(
                        id - 1,
                        MaterialView { deleted_at: Some(now), ..self.materials[id - 1] },
                    ),
                    ..self
                },
                ItemKind::Product => LedgerView {
                    products: self.products.update(
                        id - 1,
                        ProductView { deleted_at: Some(now), ..self.products[id - 1] },
                    ),
                    ..self
                },
            }
        }
    }

    /// The materials that a listing shows: all of them, or those not retired.
    pub open spec fn listed_materials(self, active_only: bool) -> Seq<MaterialView> {
        self.materials.filter(material_shown(active_only))
    }

    /// The products that a listing shows: all of them, or those not retired.
    pub open spec fn listed_products(self, active_only: bool) -> Seq<ProductView> {
        self.products.filter(product_shown(active_only))
    }

    /// The name of an item.
    pub open spec fn item_name(self, kind: ItemKind, id: int) -> Seq<char>
        recommends
            self.has_item(kind, id),
    {
        match kind {
            ItemKind::Material => self.materials[id - 1].name,
            ItemKind::Product => self.products[id - 1].name,
        }
    }

    /// The unit of an item.
    pub open spec fn item_unit(self, kind: ItemKind, id: int) -> Seq<char>
        recommends
            self.has_item(kind, id),
    {
        match kind {
            ItemKind::Material => self.materials[id - 1].unit,
            ItemKind::Product => self.products[id - 1].unit,
        }
    }

    /// A row of the log as it is listed: with the name and the unit of its
    /// item, and with kind and action by their tags.
    pub open spec fn joined(self, row: LogView) -> MovementView {
        MovementView {
            id: row.id,
            item_id: row.item_id,
            item_name: self.item_name(row.item_type, row.item_id),
            item_type: row.item_type.tag(),
            item_unit: self.item_unit(row.item_type, row.item_id),
            change_amount: row.change_amount,
            old_stock: row.old_stock,
            new_stock: row.new_stock,
            action_type: row.action_type.tag(),
            note: row.note,
            created_at: row.created_at,
        }
    }

    /// Whether a listing holds the row at position `k` of the log.
    pub open spec fn lists_row(self, rows: Seq<MovementView>, k: int) -> bool {
        exists|i: int| 0 <= i < rows.len() && (#[trigger] rows[i]) == self.joined(self.logs[k])
    }

    /// Whether `rows` is the listing of the movements: every row of the log
    /// once, joined with its item, latest first.
    pub open spec fn is_movement_listing(self, rows: Seq<MovementView>) -> bool {
        &&& rows.len() == self.logs.len()
        &&& forall|i: int|
            0 <= i < rows.len() ==> {
                let id = (#[trigger] rows[i]).id;
                &&& 1 <= id <= self.logs.len()
                &&& rows[i] == self.joined(self.logs[id - 1])
            }
        &&& forall|i: int, j: int|
            0 <= i < j < rows.len() ==> stands_before(
                (#[trigger] rows[i]).created_at,
                rows[i].id,
                (#[trigger] rows[j]).created_at,
                rows[j].id,
            )
        &&& forall|k: int| 0 <= k < self.logs.len() ==> #[trigger] self.lists_row(rows, k)
    }

    /// The listing of the movements.
    pub open spec fn movement_listing(self) -> Seq<MovementView> {
        choose|rows: Seq<MovementView>| self.is_movement_listing(rows)
    }

    /// Whether two stores hold the same log and, row by row, items with the
    /// same ids and stock counters.
    pub open spec fn same_ledger(self, other: LedgerView) -> bool {
        &&& self.logs == other.logs
        &&& self.materials.len() == other.materials.len()
        &&& self.products.len() == other.products.len()
        &&& forall|i: int|
            0 <= i < self.materials.len() ==> (#[trigger] self.materials[i]).id == other.materials[i].id
                && self.materials[i].current_stock == other.materials[i].current_stock
        &&& forall|i: int|
            0 <= i < self.products.len() ==> (#[trigger] self.products[i]).id == other.products[i].id
                && self.products[i].current_stock == other.products[i].current_stock
    }
}

/// A row at the end of the log decides the recorded stock of its own item
/// and leaves that of every other item as it was.
pub proof fn lemma_recorded_stock_push(logs: Seq<LogView>, row: LogView, kind: ItemKind, id: int)
    ensures
        recorded_stock(logs.push(row), kind, id) == if row.item_type == kind && row.item_id == id {
            row.new_stock
        } else {
            recorded_stock(logs, kind, id)
        },
{
    assert(logs.push(row).drop_last() =~= logs);
    assert(logs.push(row).last() == row);
}

/// Every row that a filter lets through is a row of the sequence that was
/// filtered.
pub proof fn lemma_filtered_row_is_a_row<A>(rows: Seq<A>, shown: spec_fn(A) -> bool, i: int)
    requires
        0 <= i < rows.filter(shown).len(),
    ensures
        rows.contains(rows.filter(shown)[i]),
        shown(rows.filter(shown)[i]),
    decreases rows.len(),
{
    reveal(Seq::filter);
    if rows.len() > 0 {
        let rest = rows.drop_last().filter(shown);
        if i < rest.len() {
            lemma_filtered_row_is_a_row(rows.drop_last(), shown, i);
            let j = choose|j: int| 0 <= j < rows.drop_last().len() && rows.drop_last()[j] == rest[i];
            assert(rows[j] == rest[i]);
        } else {
            assert(rows[rows.len() - 1] == rows.last());
        }
    }
}

/// The stock that a chained log records for an item can be represented.
pub proof fn lemma_recorded_stock_representable(s: LedgerView, kind: ItemKind, id: int, upto: int)
    requires
        s.log_chained(),
        0 <= upto <= s.logs.len(),
    ensures
        representable(recorded_stock(s.logs.take(upto), kind, id)),
    decreases upto,
{
    let logs = s.logs.take(upto);
    if upto > 0 {
        assert(logs.last() == s.logs[upto - 1]);
        assert(logs.drop_last() =~= s.logs.take(upto - 1));
        lemma_recorded_stock_representable(s, kind, id, upto - 1);
    }
}

/// An item without movements has the recorded stock zero.
pub proof fn lemma_recorded_stock_without_movement(logs: Seq<LogView>, kind: ItemKind, id: int)
    requires
        !has_movement(logs, kind, id),
    ensures
        recorded_stock(logs, kind, id) == 0,
    decreases logs.len(),
{
    if logs.len() > 0 {
        let last = logs.len() - 1;
        assert(!(logs[last].item_type == kind && logs[last].item_id == id));
        assert forall|k: int| 0 <= k < logs.drop_last().len() implies !(
        #[trigger] logs.drop_last()[k].item_type == kind && logs.drop_last()[k].item_id == id) by {
            assert(logs.drop_last()[k] == logs[k]);
            assert(!(logs[k].item_type == kind && logs[k].item_id == id));
        }
        lemma_recorded_stock_without_movement(logs.drop_last(), kind, id);
    }
}

/// Consistency speaks of ids, counters and the log only: a store that agrees
/// with a consistent one in these is consistent.
pub proof fn lemma_same_ledger_consistent(s: LedgerView, t: LedgerView)
    requires
        s.consistent(),
        s.same_ledger(t),
    ensures
        t.consistent(),
{
    assert forall|i: int| 0 <= i < t.materials.len() implies (#[trigger] t.materials[i]).id == i + 1 by {
        assert(s.materials[i].id == i + 1);
    }
    assert forall|i: int| 0 <= i < t.products.len() implies (#[trigger] t.products[i]).id == i + 1 by {
        assert(s.products[i].id == i + 1);
    }
    lemma_same_log_stays_chained(s, t);
    assert forall|kind: ItemKind, id: int| t.has_item(kind, id) implies #[trigger] t.stock_of(kind, id)
        == recorded_stock(t.logs, kind, id) by {
        assert(s.has_item(kind, id));
        assert(s.stock_of(kind, id) == recorded_stock(s.logs, kind, id));
        match kind {
            ItemKind::Material => {
                assert(s.materials[id - 1].current_stock == t.materials[id - 1].current_stock);
            },
            ItemKind::Product => {
                assert(s.products[id - 1].current_stock == t.products[id - 1].current_stock);
            },
        }
    }
}

/// In a consistent store no movement addresses an id that is not assigned yet.
pub proof fn lemma_unassigned_id_has_no_movement(s: LedgerView, kind: ItemKind, id: int)
    requires
        s.consistent(),
        !s.has_item(kind, id),
    ensures
        !has_movement(s.logs, kind, id),
        recorded_stock(s.logs, kind, id) == 0,
{
    assert forall|k: int| 0 <= k < s.logs.len() implies !(#[trigger] s.logs[k].item_type == kind
        && s.logs[k].item_id == id) by {
        assert(s.has_item(s.logs[k].item_type, s.logs[k].item_id));
    }
    lemma_recorded_stock_without_movement(s.logs, kind, id);
}

/// A new row with the counter zero at the end of the material table leaves
/// a consistent store consistent.
pub proof fn lemma_material_row_keeps_consistent(s: LedgerView, row: MaterialView)
    requires
        s.consistent(),
        row.id == s.materials.len() + 1,
        row.current_stock == 0,
    ensures
        s.with_material_row(row).consistent(),
{
    lemma_new_item_keeps_consistent(s, s.with_material_row(row), ItemKind::Material);
}

/// A new row with the counter zero at the end of the product table leaves
/// a consistent store consistent.
pub proof fn lemma_product_row_keeps_consistent(s: LedgerView, row: ProductView)
    requires
        s.consistent(),
        row.id == s.products.len() + 1,
        row.current_stock == 0,
    ensures
        s.with_product_row(row).consistent(),
{
    lemma_new_item_keeps_consistent(s, s.with_product_row(row), ItemKind::Product);
}

/// A log stays chained where it is kept and no table loses a row.
proof fn lemma_same_log_stays_chained(s: LedgerView, t: LedgerView)
    requires
        s.log_chained(),
        t.logs == s.logs,
        t.materials.len() >= s.materials.len(),
        t.products.len() >= s.products.len(),
    ensures
        t.log_chained(),
{
    assert forall|k: int| 0 <= k < t.logs.len() implies {
        let r = #[trigger] t.logs[k];
        &&& t.has_item(r.item_type, r.item_id)
        &&& r.old_stock == recorded_stock(t.logs.take(k), r.item_type, r.item_id)
        &&& movement_accepted(r.item_type, r.action_type, r.old_stock, r.change_amount)
        &&& r.new_stock == stock_after(r.action_type, r.old_stock, r.change_amount)
    } by {
        assert(s.has_item(s.logs[k].item_type, s.logs[k].item_id));
    }
}

/// A store stays consistent where one item with the counter zero and the
/// next id is added to the table of a kind and nothing else is changed.
proof fn lemma_new_item_keeps_consistent(s: LedgerView, t: LedgerView, kind: ItemKind)
    requires
        s.consistent(),
        t.logs == s.logs,
        t.ids_in_order(),
        kind == ItemKind::Material ==> t.materials.len() == s.materials.len() + 1 && t.products.len()
            == s.products.len(),
        kind == ItemKind::Product ==> t.products.len() == s.products.len() + 1 && t.materials.len()
            == s.materials.len(),
        forall|other: ItemKind, id: int|
            s.has_item(other, id) ==> #[trigger] t.stock_of(other, id) == s.stock_of(other, id),
        forall|id: int| t.has_item(kind, id) && !s.has_item(kind, id) ==> #[trigger] t.stock_of(kind, id) == 0,
    ensures
        t.consistent(),
{
    lemma_same_log_stays_chained(s, t);
    assert forall|other: ItemKind, id: int| t.has_item(other, id) implies #[trigger] t.stock_of(other, id)
        == recorded_stock(t.logs, other, id) by {
        if s.has_item(other, id) {
            assert(s.stock_of(other, id) == recorded_stock(s.logs, other, id));
        } else {
            lemma_unassigned_id_has_no_movement(s, other, id);
        }
    }
}

/// An accepted movement on an item of a consistent store leaves the store
/// consistent.
pub proof fn lemma_movement_keeps_consistent(
    s: LedgerView,
    kind: ItemKind,
    id: int,
    action: ActionType,
    amount: int,
    note: Option<Seq<char>>,
    now: Seq<char>,
)
    requires
        s.consistent(),
        s.has_item(kind, id),
        movement_accepted(kind, action, s.stock_of(kind, id), amount),
    ensures
        s.with_movement(kind, id, action, amount, note, now).consistent(),
{
    let row = s.movement_row(kind, id, action, amount, note, now);
    let t = s.with_movement(kind, id, action, amount, note, now);
    assert(t.logs =~= s.logs.push(row));
    assert(s.stock_of(kind, id) == recorded_stock(s.logs, kind, id));
    if kind == ItemKind::Product {
        lemma_whole_stays_whole(action, s.stock_of(kind, id), amount);
    }
    assert(t.stock_of(kind, id) == row.new_stock);
    assert forall|i: int| 0 <= i < t.materials.len() implies (#[trigger] t.materials[i]).id == i + 1 by {
        assert(s.materials[i].id == i + 1);
    }
    assert forall|i: int| 0 <= i < t.products.len() implies (#[trigger] t.products[i]).id == i + 1 by {
        assert(s.products[i].id == i + 1);
    }
    assert forall|i: int| 0 <= i < t.logs.len() implies (#[trigger] t.logs[i]).id == i + 1 by {
        if i < s.logs.len() {
            assert(s.logs[i].id == i + 1);
        }
    }
    assert forall|other: ItemKind, i: int| s.has_item(other, i) && !(other == kind && i == id) implies
        #[trigger] t.stock_of(other, i) == s.stock_of(other, i) by {}
    lemma_row_keeps_chained(s, t, row);
    lemma_row_keeps_counters(s, t, row);
}

/// The row of a created material is the last of its table, and its time of
/// creation is the time it was written at.
pub proof fn lemma_created_material_is_last(s: LedgerView, req: MaterialFields, now: Seq<char>)
    ensures
        s.with_material(req, now).materials.len() == s.materials.len() + 1,
        s.with_material(req, now).logs.len() <= s.logs.len() + 1,
        s.with_material(req, now).schema_version == s.schema_version,
        s.with_material(req, now).materials.last().created_at == now,
        s.with_material(req, now).materials.last().id == s.materials.len() + 1,
        s.with_material(req, now).products == s.products,
{
}

/// The row of a created product is the last of its table, and its time of
/// creation is the time it was written at.
pub proof fn lemma_created_product_is_last(s: LedgerView, req: ProductFields, now: Seq<char>)
    ensures
        s.with_product(req, now).products.len() == s.products.len() + 1,
        s.with_product(req, now).logs.len() <= s.logs.len() + 1,
        s.with_product(req, now).schema_version == s.schema_version,
        s.with_product(req, now).products.last().created_at == now,
        s.with_product(req, now).products.last().id == s.products.len() + 1,
        s.with_product(req, now).materials == s.materials,
{
}

/// After an accepted movement the counter of the item equals the new stock
/// of the row that was written, and every other counter is as before.
pub proof fn lemma_movement_sets_counter(
    s: LedgerView,
    kind: ItemKind,
    id: int,
    action: ActionType,
    amount: int,
    note: Option<Seq<char>>,
    now: Seq<char>,
)
    requires
        s.consistent(),
        s.has_item(kind, id),
        movement_accepted(kind, action, s.stock_of(kind, id), amount),
    ensures
        s.with_movement(kind, id, action, amount, note, now).stock_of(kind, id) == s.movement_row(
            kind,
            id,
            action,
            amount,
            note,
            now,
        ).new_stock,
        s.with_movement(kind, id, action, amount, note, now).logs.last() == s.movement_row(
            kind,
            id,
            action,
            amount,
            note,
            now,
        ),
        forall|other: ItemKind, i: int|
            s.has_item(other, i) && !(other == kind && i == id) ==> #[trigger] s.with_movement(
                kind,
                id,
                action,
                amount,
                note,
                now,
            ).stock_of(other, i) == s.stock_of(other, i),
{
    assert(s.stock_of(kind, id) == recorded_stock(s.logs, kind, id));
    if kind == ItemKind::Product {
        lemma_whole_stays_whole(action, s.stock_of(kind, id), amount);
    }
}

/// A row that continues the chain of a log leaves the log chained.
proof fn lemma_row_keeps_chained(s: LedgerView, t: LedgerView, row: LogView)
    requires
        s.log_chained(),
        t.logs == s.logs.push(row),
        t.materials.len() == s.materials.len(),
        t.products.len() == s.products.len(),
        s.has_item(row.item_type, row.item_id),
        row.old_stock == recorded_stock(s.logs, row.item_type, row.item_id),
        movement_accepted(row.item_type, row.action_type, row.old_stock, row.change_amount),
        row.new_stock == stock_after(row.action_type, row.old_stock, row.change_amount),
    ensures
        t.log_chained(),
{
    let n = s.logs.len() as int;
    assert forall|k: int| 0 <= k < t.logs.len() implies {
        let r = #[trigger] t.logs[k];
        &&& t.has_item(r.item_type, r.item_id)
        &&& r.old_stock == recorded_stock(t.logs.take(k), r.item_type, r.item_id)
        &&& movement_accepted(r.item_type, r.action_type, r.old_stock, r.change_amount)
        &&& r.new_stock == stock_after(r.action_type, r.old_stock, r.change_amount)
    } by {
        if k < n {
            assert(t.logs[k] == s.logs[k]);
            assert(t.logs.take(k) =~= s.logs.take(k));
            assert(s.has_item(s.logs[k].item_type, s.logs[k].item_id));
        } else {
            assert(t.logs[k] == row);
            assert(t.logs.take(k) =~= s.logs);
        }
    }
}

/// When a row is added for an item and that item's counter is set to the
/// row's new stock, the counters still match the log.
proof fn lemma_row_keeps_counters(s: LedgerView, t: LedgerView, row: LogView)
    requires
        s.counters_match_log(),
        t.logs == s.logs.push(row),
        t.materials.len() == s.materials.len(),
        t.products.len() == s.products.len(),
        s.has_item(row.item_type, row.item_id),
        t.stock_of(row.item_type, row.item_id) == row.new_stock,
        forall|kind: ItemKind, i: int|
            s.has_item(kind, i) && !(kind == row.item_type && i == row.item_id) ==> #[trigger] t.stock_of(
                kind,
                i,
            ) == s.stock_of(kind, i),
    ensures
        t.counters_match_log(),
{
    assert forall|kind: ItemKind, i: int| t.has_item(kind, i) implies #[trigger] t.stock_of(kind, i)
        == recorded_stock(t.logs, kind, i) by {
        lemma_recorded_stock_push(s.logs, row, kind, i);
        assert(s.has_item(kind, i));
        assert(s.stock_of(kind, i) == recorded_stock(s.logs, kind, i));
    }
}

} // verus!
