//! Recording and listing movements.

use vstd::prelude::*;
use crate::clock::current_time;
use crate::engine::plan_movement;
use crate::kinds::{ActionType, ItemKind, LedgerError};
use crate::ledger::Ledger;
use crate::model::{clone_text, text_of, CreateMovementRequest, InventoryLog, Movement};
use crate::state::{movement_refusal, views_of, LedgerView};

verus! {

/// Why a requested movement on an item of the given kind is refused, if it
/// is: the item is looked up first, then the action tag is read, then the
/// amount is held against the stock.
pub open spec fn request_refusal(s: LedgerView, kind: ItemKind, req: CreateMovementRequest) -> Option<
    LedgerError,
> {
    if !s.has_item(kind, req.item_id as int) {
        Some(LedgerError::NotFound)
    } else {
        match ActionType::from_tag(req.action_type@) {
            None => Some(LedgerError::InvalidActionType),
            Some(action) => movement_refusal(s, kind, req.item_id as int, action, req.change_amount@),
        }
    }
}

/// What a requested movement on an item of the given kind, written at the
/// given time, makes of the store and returns.
pub open spec fn request_outcome(
    before: LedgerView,
    kind: ItemKind,
    req: CreateMovementRequest,
    now: Seq<char>,
    after: LedgerView,
    r: Result<InventoryLog, LedgerError>,
) -> bool {
    match r {
        Ok(row) => {
            &&& request_refusal(before, kind, req) is None
            &&& row@ == before.movement_row(
                kind,
                req.item_id as int,
                ActionType::from_tag(req.action_type@)->0,
                req.change_amount@,
                text_of(req.note),
                now,
            )
            &&& after == before.with_movement(
                kind,
                req.item_id as int,
                ActionType::from_tag(req.action_type@)->0,
                req.change_amount@,
                text_of(req.note),
                now,
            )
            &&& after.stock_of(kind, req.item_id as int) == row@.new_stock
        },
        Err(e) => {
            &&& request_refusal(before, kind, req) == Some(e)
            &&& after == before
        },
    }
}

/// Records a requested movement on an item of the given kind, as written
/// at the time `now`. A refused request changes nothing.
pub fn record_movement(store: &mut Ledger, kind: ItemKind, req: &CreateMovementRequest, now: String) -> (r:
    Result<InventoryLog, LedgerError>)
    requires
        old(store).wf(),
    ensures
        final(store).wf(),
        request_outcome(old(store)@, kind, *req, now@, final(store)@, r),
{
    let found = store.current_stock(kind, req.item_id);
    let action = match plan_movement(kind, found, req.action_type.as_str(), Some(req.change_amount)) {
        Ok(planned) => planned.0,
        Err(e) => {
            return Err(e);
        },
    };
    store.apply_movement(kind, req.item_id, action, req.change_amount, clone_text(&req.note), now)
}

/// Records a movement on a product, written now. The row that is returned
/// carries the time.
pub fn add_product_inventory(store: &mut Ledger, req: CreateMovementRequest) -> (r: Result<
    InventoryLog,
    LedgerError,
>)
    requires
        old(store).wf(),
    ensures
        final(store).wf(),
        r matches Ok(row) ==> request_outcome(
            old(store)@,
            ItemKind::Product,
            req,
            row@.created_at,
            final(store)@,
            r,
        ),
        r is Err ==> request_outcome(old(store)@, ItemKind::Product, req, Seq::empty(), final(store)@, r),
{
    let now = current_time();
    record_movement(store, ItemKind::Product, &req, now)
}

/// Records a movement on a material, written now. The row that is
/// returned carries the time.
pub fn add_material_inventory(store: &mut Ledger, req: CreateMovementRequest) -> (r: Result<
    InventoryLog,
    LedgerError,
>)
    requires
        old(store).wf(),
    ensures
        final(store).wf(),
        r matches Ok(row) ==> request_outcome(
            old(store)@,
            ItemKind::Material,
            req,
            row@.created_at,
            final(store)@,
            r,
        ),
        r is Err ==> request_outcome(old(store)@, ItemKind::Material, req, Seq::empty(), final(store)@, r),
{
    let now = current_time();
    record_movement(store, ItemKind::Material, &req, now)
}

/// Records a movement on the item that the request addresses by kind and
/// id, written now. A kind tag that names no kind addresses no item.
pub fn add_inventory(store: &mut Ledger, req: CreateMovementRequest) -> (r: Result<
    InventoryLog,
    LedgerError,
>)
    requires
        old(store).wf(),
    ensures
        final(store).wf(),
        match ItemKind::from_tag(req.item_type@) {
            None => r == Err::<InventoryLog, LedgerError>(LedgerError::NotFound) && final(store)@ == old(
                store,
            )@,
            Some(kind) => {
                &&& r matches Ok(row) ==> request_outcome(
                    old(store)@,
                    kind,
                    req,
                    row@.created_at,
                    final(store)@,
                    r,
                )
                &&& r is Err ==> request_outcome(old(store)@, kind, req, Seq::empty(), final(store)@, r)
            },
        },
{
    match ItemKind::parse(req.item_type.as_str()) {
        None => Err(LedgerError::NotFound),
        Some(ItemKind::Material) => add_material_inventory(store, req),
        Some(ItemKind::Product) => add_product_inventory(store, req),
    }
}

/// Lists the movements, latest first, each with the name and the unit of
/// its item. Movements of retired items are listed like the others.
pub fn list_movements(store: &Ledger) -> (rows: Vec<Movement>)
    requires
        store.wf(),
    ensures
        store@.is_movement_listing(views_of(rows@)),
{
    store.movements()
}

} // verus!
