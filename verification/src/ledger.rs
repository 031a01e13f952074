//! The store: materials, products and the movement log, kept consistent.

use vstd::prelude::*;
use crate::engine::new_stock;
use crate::kinds::{ActionType, ItemKind, LedgerError};
use crate::engine::{first_receipt, unit_change_allowed};
use crate::model::{
    clone_text, text_of, CreateMaterialRequest, CreateProductRequest, InventoryLog, Material,
    Movement, Product, UpdateMaterialRequest, UpdateProductRequest,
};
use crate::order::{listed_before, listing_order, lists_index, stands_before};
use crate::quantity::Quantity;
use crate::state::{
    creation_refusal, has_movement, lemma_material_row_keeps_consistent,
    lemma_movement_keeps_consistent, lemma_movement_sets_counter,
    lemma_product_row_keeps_consistent,
    lemma_same_ledger_consistent, material_shown, material_update_refusal, movement_refusal,
    product_shown, views_of, LedgerView,
};

verus! {

/// The store. Rows are never removed, so the row with id `n` is the `n`-th
/// of its table.
pub struct Ledger {
    schema_version: i64,
    materials: Vec<Material>,
    products: Vec<Product>,
    logs: Vec<InventoryLog>,
}

impl View for Ledger {
    type V = LedgerView;

    closed spec fn view(&self) -> LedgerView {
        LedgerView {
            schema_version: self.schema_version as int,
            materials: Seq::new(self.materials.len() as nat, |i: int| self.materials[i]@),
            products: Seq::new(self.products.len() as nat, |i: int| self.products[i]@),
            logs: Seq::new(self.logs.len() as nat, |i: int| self.logs[i]@),
        }
    }
}

impl Ledger {
    /// The invariant of the store: it is consistent, and its ids fit.
    pub open spec fn wf(&self) -> bool {
        self@.consistent() && self@.within_limits()
    }

    /// A store that holds nothing.
    pub fn new() -> (s: Ledger)
        ensures
            s@ == LedgerView::empty(),
            s.wf(),
    {
        let s = Ledger {
            schema_version: 0,
            materials: Vec::new(),
            products: Vec::new(),
            logs: Vec::new(),
        };
        assert(s@.materials =~= Seq::empty());
        assert(s@.products =~= Seq::empty());
        assert(s@.logs =~= Seq::empty());
        s
    }

    /// The version of the schema that the store was brought to.
    pub fn schema_version(&self) -> (version: i64)
        ensures
            version == self@.schema_version,
    {
        self.schema_version
    }

    /// Sets the version of the schema. No row is touched.
    pub fn set_schema_version(&mut self, version: i64)
        requires
            old(self).wf(),
        ensures
            final(self).wf(),
            final(self)@ == old(self)@.with_schema_version(version as int),
    {
        self.schema_version = version;
        proof {
            let s = old(self)@;
            let t = s.with_schema_version(version as int);
            assert(self@.materials =~= t.materials);
            assert(self@.products =~= t.products);
            assert(self@.logs =~= t.logs);
            lemma_same_ledger_consistent(s, t);
        }
    }

    /// Whether the store holds no row at all.
    pub fn is_empty(&self) -> (b: bool)
        ensures
            b == self@.is_empty(),
    {
        self.materials.len() == 0 && self.products.len() == 0 && self.logs.len() == 0
    }

    /// The current stock of an item, if the store holds it.
    pub fn current_stock(&self, kind: ItemKind, item_id: i64) -> (r: Option<Quantity>)
        ensures
            r.is_some() <==> self@.has_item(kind, item_id as int),
            r matches Some(q) ==> q@ == self@.stock_of(kind, item_id as int),
    {
        match kind {
            ItemKind::Material => {
                if item_id < 1 || item_id as u64 > self.materials.len() as u64 {
                    None
                } else {
                    Some(self.materials[(item_id - 1) as usize].current_stock)
                }
            },
            ItemKind::Product => {
                if item_id < 1 || item_id as u64 > self.products.len() as u64 {
                    None
                } else {
                    Some(Quantity::from_whole(self.products[(item_id - 1) as usize].current_stock))
                }
            },
        }
    }

    /// Records a movement: reads the stock of the item, computes the stock
    /// that the action leaves, appends the row to the log and sets the
    /// item's counter. A refused movement changes nothing.
    pub fn apply_movement(
        &mut self,
        kind: ItemKind,
        item_id: i64,
        action: ActionType,
        amount: Quantity,
        note: Option<String>,
        now: String,
    ) -> (r: Result<InventoryLog, LedgerError>)
        requires
            old(self).wf(),
        ensures
            final(self).wf(),
            match r {
                Ok(row) => {
                    &&& movement_refusal(old(self)@, kind, item_id as int, action, amount@) is None
                    &&& row@ == old(self)@.movement_row(
                        kind,
                        item_id as int,
                        action,
                        amount@,
                        text_of(note),
                        now@,
                    )
                    &&& final(self)@ == old(self)@.with_movement(
                        kind,
                        item_id as int,
                        action,
                        amount@,
                        text_of(note),
                        now@,
                    )
                    &&& final(self)@.stock_of(kind, item_id as int) == row@.new_stock
                    &&& final(self)@.logs.last() == row@
                },
                Err(e) => {
                    &&& movement_refusal(old(self)@, kind, item_id as int, action, amount@) == Some(e)
                    &&& final(self)@ == old(self)@
                },
            },
    {
        let found = match self.current_stock(kind, item_id) {
            Some(q) => q,
            None => {
                return Err(LedgerError::NotFound);
            },
        };
        let computed = match new_stock(kind, action, found, amount) {
            Ok(q) => q,
            Err(e) => {
                return Err(e);
            },
        };
        if self.logs.len() as u64 >= i64::MAX as u64 {
            return Err(LedgerError::StorageError);
        }
        let row = InventoryLog {
            id: self.logs.len() as i64 + 1,
            item_id,
            item_type: kind,
            change_amount: amount,
            old_stock: found,
            new_stock: computed,
            action_type: action,
            note: clone_text(&note),
            created_at: now.clone(),
        };
        let kept = row.clone();
        self.logs.push(row);
        let index = (item_id - 1) as usize;
        match kind {
            ItemKind::Material => {
                self.materials[index].current_stock = computed;
            },
            ItemKind::Product => {
                self.products[index].current_stock = computed.whole_part();
            },
        }
        proof {
            let s = old(self)@;
            let t = s.with_movement(kind, item_id as int, action, amount@, text_of(note), now@);
            lemma_movement_keeps_consistent(s, kind, item_id as int, action, amount@, text_of(note), now@);
            lemma_movement_sets_counter(s, kind, item_id as int, action, amount@, text_of(note), now@);
            assert(self@.logs =~= t.logs);
            assert(self@.materials =~= t.materials);
            assert(self@.products =~= t.products);
        }
        Ok(kept)
    }

    /// Whether the log holds a movement of an item.
    pub fn has_movements(&self, kind: ItemKind, item_id: i64) -> (b: bool)
        ensures
            b == has_movement(self@.logs, kind, item_id as int),
    {
        let mut k: usize = 0;
        while k < self.logs.len()
            invariant
                k <= self.logs.len(),
                forall|j: int|
                    0 <= j < k ==> !(#[trigger] self@.logs[j].item_type == kind && self@.logs[j].item_id
                        == item_id),
            decreases self.logs.len() - k,
        {
            if self.logs[k].item_type == kind && self.logs[k].item_id == item_id {
                assert(self@.logs[k as int].item_type == kind && self@.logs[k as int].item_id == item_id);
                return true;
            }
            k += 1;
        }
        false
    }

    /// Creates a material. Its counter starts at zero; an initial stock above
    /// zero is received by a first movement, so that the counter is backed
    /// by the log from the start.
    pub fn insert_material(&mut self, req: CreateMaterialRequest, now: String) -> (r: Result<
        Material,
        LedgerError,
    >)
        requires
            old(self).wf(),
        ensures
            final(self).wf(),
            match r {
                Ok(row) => {
                    &&& creation_refusal(old(self)@, ItemKind::Material, req.current_stock@) is None
                    &&& final(self)@ == old(self)@.with_material(req@, now@)
                    &&& row@ == final(self)@.materials.last()
                },
                Err(e) => {
                    &&& creation_refusal(old(self)@, ItemKind::Material, req.current_stock@) == Some(e)
                    &&& final(self)@ == old(self)@
                },
            },
    {
        let first = match first_receipt(req.current_stock) {
            Ok(first) => first,
            Err(e) => {
                return Err(e);
            },
        };
        if self.materials.len() as u64 >= i64::MAX as u64 {
            return Err(LedgerError::StorageError);
        }
        if first.is_some() && self.logs.len() as u64 >= i64::MAX as u64 {
            return Err(LedgerError::StorageError);
        }
        let id: i64 = self.materials.len() as i64 + 1;
        let category = match &req.category {
            Some(c) => c.clone(),
            None => String::new(),
        };
        let row = Material {
            id,
            name: req.name.clone(),
            category,
            unit: req.unit.clone(),
            current_stock: Quantity::zero(),
            low_stock_alert: req.low_stock_alert,
            note: clone_text(&req.note),
            created_at: now.clone(),
            deleted_at: None,
        };
        self.materials.push(row);
        proof {
            let s = old(self)@;
            lemma_material_row_keeps_consistent(s, s.material_row(req@, now@));
            assert(self@.materials =~= s.materials.push(s.material_row(req@, now@)));
            assert(self@.products =~= s.products);
            assert(self@.logs =~= s.logs);
            assert(self@ == s.with_material_row(s.material_row(req@, now@)));
        }
        if let Some(amount) = first {
            proof {
                use_type_invariant(&amount);
                amount.lemma_representable();
            }
            let written = self.apply_movement(
                ItemKind::Material,
                id,
                ActionType::In,
                amount,
                Some("Initial stock".to_owned()),
                now,
            );
            if let Err(e) = written {
                return Err(e);
            }
        }
        Ok(self.materials[(id - 1) as usize].clone())
    }

    /// Creates a product. Its counter starts at zero; an initial stock above
    /// zero is received by a first movement, so that the counter is backed
    /// by the log from the start.
    pub fn insert_product(&mut self, req: CreateProductRequest, now: String) -> (r: Result<
        Product,
        LedgerError,
    >)
        requires
            old(self).wf(),
        ensures
            final(self).wf(),
            match r {
                Ok(row) => {
                    &&& creation_refusal(old(self)@, ItemKind::Product, req.current_stock * 1000) is None
                    &&& final(self)@ == old(self)@.with_product(req@, now@)
                    &&& row@ == final(self)@.products.last()
                },
                Err(e) => {
                    &&& creation_refusal(old(self)@, ItemKind::Product, req.current_stock * 1000)
                        == Some(e)
                    &&& final(self)@ == old(self)@
                },
            },
    {
        let first = match first_receipt(Quantity::from_whole(req.current_stock)) {
            Ok(first) => first,
            Err(e) => {
                return Err(e);
            },
        };
        if self.products.len() as u64 >= i64::MAX as u64 {
            return Err(LedgerError::StorageError);
        }
        if first.is_some() && self.logs.len() as u64 >= i64::MAX as u64 {
            return Err(LedgerError::StorageError);
        }
        let id: i64 = self.products.len() as i64 + 1;
        let row = Product {
            id,
            name: req.name.clone(),
            category: req.category.clone(),
            unit: req.unit.clone(),
            current_stock: 0,
            note: clone_text(&req.note),
            created_at: now.clone(),
            deleted_at: None,
        };
        self.products.push(row);
        proof {
            let s = old(self)@;
            lemma_product_row_keeps_consistent(s, s.product_row(req@, now@));
            assert(self@.products =~= s.products.push(s.product_row(req@, now@)));
            assert(self@.materials =~= s.materials);
            assert(self@.logs =~= s.logs);
            assert(self@ == s.with_product_row(s.product_row(req@, now@)));
        }
        if let Some(amount) = first {
            proof {
                use_type_invariant(&amount);
                amount.lemma_representable();
            }
            let written = self.apply_movement(
                ItemKind::Product,
                id,
                ActionType::In,
                amount,
                Some("Initial stock".to_owned()),
                now,
            );
            if let Err(e) = written {
                return Err(e);
            }
        }
        Ok(self.products[(id - 1) as usize].clone())
    }

    /// Replaces the descriptive fields of a material. Stock, id and the
    /// times of creation and retirement stay. A unit that differs from the
    /// stored one is refused once the material has a movement, and then
    /// nothing is changed.
    pub fn update_material(&mut self, id: i64, req: UpdateMaterialRequest) -> (r: Result<
        (),
        LedgerError,
    >)
        requires
            old(self).wf(),
        ensures
            final(self).wf(),
            match r {
                Ok(_) => {
                    &&& material_update_refusal(old(self)@, id as int, req.unit@) is None
                    &&& final(self)@ == old(self)@.with_material_details(id as int, req@)
                },
                Err(e) => {
                    &&& material_update_refusal(old(self)@, id as int, req.unit@) == Some(e)
                    &&& final(self)@ == old(self)@
                },
            },
    {
        if id < 1 || id as u64 > self.materials.len() as u64 {
            return Err(LedgerError::NotFound);
        }
        let index = (id - 1) as usize;
        let in_use = self.has_movements(ItemKind::Material, id);
        if let Err(e) = unit_change_allowed(self.materials[index].unit.as_str(), req.unit.as_str(), in_use) {
            return Err(e);
        }
        let category = match &req.category {
            Some(c) => c.clone(),
            None => String::new(),
        };
        self.materials[index].name = req.name.clone();
        self.materials[index].category = category;
        self.materials[index].unit = req.unit.clone();
        self.materials[index].low_stock_alert = req.low_stock_alert;
        self.materials[index].note = clone_text(&req.note);
        proof {
            let s = old(self)@;
            let t = s.with_material_details(id as int, req@);
            assert(self@.materials =~= t.materials);
            assert(self@.products =~= t.products);
            assert(self@.logs =~= t.logs);
            lemma_same_ledger_consistent(s, t);
        }
        Ok(())
    }

    /// Replaces the descriptive fields of a product. Stock, unit, id and
    /// the times of creation and retirement stay.
    pub fn update_product(&mut self, id: i64, req: UpdateProductRequest) -> (r: Result<
        (),
        LedgerError,
    >)
        requires
            old(self).wf(),
        ensures
            final(self).wf(),
            match r {
                Ok(_) => {
                    &&& old(self)@.has_item(ItemKind::Product, id as int)
                    &&& final(self)@ == old(self)@.with_product_details(id as int, req@)
                },
                Err(e) => {
                    &&& !old(self)@.has_item(ItemKind::Product, id as int)
                    &&& e == LedgerError::NotFound
                    &&& final(self)@ == old(self)@
                },
            },
    {
        if id < 1 || id as u64 > self.products.len() as u64 {
            return Err(LedgerError::NotFound);
        }
        let index = (id - 1) as usize;
        self.products[index].name = req.name.clone();
        self.products[index].category = req.category.clone();
        self.products[index].note = clone_text(&req.note);
        proof {
            let s = old(self)@;
            let t = s.with_product_details(id as int, req@);
            assert(self@.materials =~= t.materials);
            assert(self@.products =~= t.products);
            assert(self@.logs =~= t.logs);
            lemma_same_ledger_consistent(s, t);
        }
        Ok(())
    }

    /// Retires an item: it leaves the default listings, and its stock and
    /// its movements stay. Retiring a retired item changes nothing.
    pub fn soft_delete(&mut self, kind: ItemKind, id: i64, now: String) -> (r: Result<(), LedgerError>)
        requires
            old(self).wf(),
        ensures
            final(self).wf(),
            match r {
                Ok(_) => {
                    &&& old(self)@.has_item(kind, id as int)
                    &&& final(self)@ == old(self)@.with_deleted(kind, id as int, now@)
                },
                Err(e) => {
                    &&& !old(self)@.has_item(kind, id as int)
                    &&& e == LedgerError::NotFound
                    &&& final(self)@ == old(self)@
                },
            },
    {
        match kind {
            ItemKind::Material => {
                if id < 1 || id as u64 > self.materials.len() as u64 {
                    return Err(LedgerError::NotFound);
                }
                let index = (id - 1) as usize;
                if self.materials[index].deleted_at.is_none() {
                    self.materials[index].deleted_at = Some(now);
                }
            },
            ItemKind::Product => {
                if id < 1 || id as u64 > self.products.len() as u64 {
                    return Err(LedgerError::NotFound);
                }
                let index = (id - 1) as usize;
                if self.products[index].deleted_at.is_none() {
                    self.products[index].deleted_at = Some(now);
                }
            },
        }
        proof {
            let s = old(self)@;
            let t = s.with_deleted(kind, id as int, now@);
            assert(self@.materials =~= t.materials);
            assert(self@.products =~= t.products);
            assert(self@.logs =~= t.logs);
            lemma_same_ledger_consistent(s, t);
        }
        Ok(())
    }

    /// The materials in the order of insertion: all of them, or those not
    /// retired.
    pub fn materials(&self, active_only: bool) -> (rows: Vec<Material>)
        ensures
            views_of(rows@) == self@.listed_materials(active_only),
    {
        let mut rows: Vec<Material> = Vec::new();
        let mut i: usize = 0;
        proof {
            reveal(Seq::filter);
            assert(self@.materials.take(0) =~= Seq::empty());
            assert(views_of(rows@) =~= Seq::empty());
        }
        while i < self.materials.len()
            invariant
                i <= self.materials.len(),
                views_of(rows@) == self@.materials.take(i as int).filter(material_shown(active_only)),
            decreases self.materials.len() - i,
        {
            let ghost before = views_of(rows@);
            if !active_only || self.materials[i].deleted_at.is_none() {
                rows.push(self.materials[i].clone());
            }
            proof {
                reveal(Seq::filter);
                let next = self@.materials.take(i as int + 1);
                assert(next.drop_last() =~= self@.materials.take(i as int));
                assert(next.last() == self@.materials[i as int]);
                if material_shown(active_only)(next.last()) {
                    assert(views_of(rows@) =~= before.push(next.last()));
                }
            }
            i += 1;
        }
        assert(self@.materials.take(i as int) =~= self@.materials);
        rows
    }

    /// The products in the order of insertion: all of them, or those not
    /// retired.
    pub fn products(&self, active_only: bool) -> (rows: Vec<Product>)
        ensures
            views_of(rows@) == self@.listed_products(active_only),
    {
        let mut rows: Vec<Product> = Vec::new();
        let mut i: usize = 0;
        proof {
            reveal(Seq::filter);
            assert(self@.products.take(0) =~= Seq::empty());
            assert(views_of(rows@) =~= Seq::empty());
        }
        while i < self.products.len()
            invariant
                i <= self.products.len(),
                views_of(rows@) == self@.products.take(i as int).filter(product_shown(active_only)),
            decreases self.products.len() - i,
        {
            let ghost before = views_of(rows@);
            if !active_only || self.products[i].deleted_at.is_none() {
                rows.push(self.products[i].clone());
            }
            proof {
                reveal(Seq::filter);
                let next = self@.products.take(i as int + 1);
                assert(next.drop_last() =~= self@.products.take(i as int));
                assert(next.last() == self@.products[i as int]);
                if product_shown(active_only)(next.last()) {
                    assert(views_of(rows@) =~= before.push(next.last()));
                }
            }
            i += 1;
        }
        assert(self@.products.take(i as int) =~= self@.products);
        rows
    }

    /// The material with the given id. With `active_only`, a retired
    /// material is not found.
    pub fn material(&self, id: i64, active_only: bool) -> (r: Result<Material, LedgerError>)
        ensures
            match r {
                Ok(row) => {
                    &&& self@.has_item(ItemKind::Material, id as int)
                    &&& material_shown(active_only)(self@.materials[id - 1])
                    &&& row@ == self@.materials[id - 1]
                },
                Err(e) => {
                    &&& e == LedgerError::NotFound
                    &&& !(self@.has_item(ItemKind::Material, id as int) && material_shown(active_only)(
                        self@.materials[id - 1],
                    ))
                },
            },
    {
        if id < 1 || id as u64 > self.materials.len() as u64 {
            return Err(LedgerError::NotFound);
        }
        let index = (id - 1) as usize;
        if active_only && self.materials[index].deleted_at.is_some() {
            return Err(LedgerError::NotFound);
        }
        Ok(self.materials[index].clone())
    }

    /// The product with the given id. With `active_only`, a retired
    /// product is not found.
    pub fn product(&self, id: i64, active_only: bool) -> (r: Result<Product, LedgerError>)
        ensures
            match r {
                Ok(row) => {
                    &&& self@.has_item(ItemKind::Product, id as int)
                    &&& product_shown(active_only)(self@.products[id - 1])
                    &&& row@ == self@.products[id - 1]
                },
                Err(e) => {
                    &&& e == LedgerError::NotFound
                    &&& !(self@.has_item(ItemKind::Product, id as int) && product_shown(active_only)(
                        self@.products[id - 1],
                    ))
                },
            },
    {
        if id < 1 || id as u64 > self.products.len() as u64 {
            return Err(LedgerError::NotFound);
        }
        let index = (id - 1) as usize;
        if active_only && self.products[index].deleted_at.is_some() {
            return Err(LedgerError::NotFound);
        }
        Ok(self.products[index].clone())
    }

    /// The rows of the movement log in the order in which they were written.
    pub fn logs(&self) -> (rows: Vec<InventoryLog>)
        ensures
            views_of(rows@) == self@.logs,
    {
        let mut rows: Vec<InventoryLog> = Vec::new();
        let mut i: usize = 0;
        while i < self.logs.len()
            invariant
                i <= self.logs.len(),
                rows.len() == i,
                forall|j: int| 0 <= j < i ==> (#[trigger] rows[j])@ == self@.logs[j],
            decreases self.logs.len() - i,
        {
            rows.push(self.logs[i].clone());
            i += 1;
        }
        assert(views_of(rows@) =~= self@.logs);
        rows
    }

    /// The movements, latest first, each with the name and the unit of its
    /// item. Retired items keep their movements.
    pub fn movements(&self) -> (rows: Vec<Movement>)
        requires
            self.wf(),
        ensures
            self@.is_movement_listing(views_of(rows@)),
    {
        assert(views_of(self.logs@) =~= self@.logs);
        assert forall|i: int, j: int| 0 <= i < j < self.logs.len() implies self.logs[i].id
            != self.logs[j].id by {
            assert(self@.logs[i].id == i + 1);
            assert(self@.logs[j].id == j + 1);
        }
        let order = listing_order(&self.logs);
        let mut rows: Vec<Movement> = Vec::new();
        let mut i: usize = 0;
        while i < order.len()
            invariant
                self.wf(),
                i <= order.len(),
                rows.len() == i,
                order.len() == self.logs.len(),
                forall|j: int| 0 <= j < order.len() ==> (#[trigger] order[j]) < self.logs.len(),
                forall|j: int| 0 <= j < i ==> (#[trigger] rows[j])@ == self@.joined(self@.logs[order[j] as int]),
            decreases order.len() - i,
        {
            let log = &self.logs[order[i]];
            assert(log@ == self@.logs[order[i as int] as int]);
            assert(self@.has_item(log@.item_type, log@.item_id));
            let index = (log.item_id - 1) as usize;
            let (item_name, item_unit) = match log.item_type {
                ItemKind::Material => (
                    self.materials[index].name.clone(),
                    self.materials[index].unit.clone(),
                ),
                ItemKind::Product => (self.products[index].name.clone(), self.products[index].unit.clone()),
            };
            rows.push(
                Movement {
                    id: log.id,
                    item_id: log.item_id,
                    item_name,
                    item_type: log.item_type.as_str().to_owned(),
                    item_unit,
                    change_amount: log.change_amount,
                    old_stock: log.old_stock,
                    new_stock: log.new_stock,
                    action_type: log.action_type.as_str().to_owned(),
                    note: clone_text(&log.note),
                    created_at: log.created_at.clone(),
                },
            );
            i += 1;
        }
        proof {
            let listed = views_of(rows@);
            assert forall|j: int| 0 <= j < listed.len() implies {
                let id = (#[trigger] listed[j]).id;
                &&& 1 <= id <= self@.logs.len()
                &&& listed[j] == self@.joined(self@.logs[id - 1])
            } by {
                assert(rows[j]@ == self@.joined(self@.logs[order[j] as int]));
                assert(self@.logs[order[j] as int].id == order[j] + 1);
            }
            assert forall|a: int, b: int| 0 <= a < b < listed.len() implies stands_before(
                (#[trigger] listed[a]).created_at,
                listed[a].id,
                (#[trigger] listed[b]).created_at,
                listed[b].id,
            ) by {
                assert(rows[a]@ == self@.joined(self@.logs[order[a] as int]));
                assert(rows[b]@ == self@.joined(self@.logs[order[b] as int]));
                assert(listed_before(self@.logs[order[a] as int], self@.logs[order[b] as int]));
            }
            assert forall|k: int| 0 <= k < self@.logs.len() implies #[trigger] self@.lists_row(listed, k) by {
                assert(lists_index(order@, k));
                let j = choose|j: int| 0 <= j < order.len() && #[trigger] order[j] == k;
                assert(rows[j]@ == self@.joined(self@.logs[order[j] as int]));
                assert(listed[j] == self@.joined(self@.logs[k]));
            }
        }
        rows
    }
}

} // verus!
