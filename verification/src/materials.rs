//! The repository of materials.

use vstd::prelude::*;
use crate::clock::current_time;
use crate::engine::{change_action, change_magnitude, plan_change};
use crate::kinds::{ItemKind, LedgerError};
use crate::ledger::Ledger;
use crate::model::{
    clone_text, text_of, CreateMaterialRequest, InventoryLog, Material,
    MaterialInventoryChangeRequest, UpdateMaterialRequest,
};
use crate::quantity::representable;
use crate::state::{
    creation_refusal, material_update_refusal, movement_refusal, views_of,
    LedgerView,
};

verus! {

/// Lists the materials that are not retired, in the order of insertion.
pub fn list_materials(store: &Ledger) -> (rows: Vec<Material>)
    ensures
        views_of(rows@) == store@.listed_materials(true),
{
    store.materials(true)
}

/// The material with the given id, retired or not.
pub fn get_material(store: &Ledger, id: i64) -> (r: Result<Material, LedgerError>)
    ensures
        match r {
            Ok(row) => store@.has_item(ItemKind::Material, id as int) && row@ == store@.materials[id - 1],
            Err(e) => e == LedgerError::NotFound && !store@.has_item(ItemKind::Material, id as int),
        },
{
    store.material(id, false)
}

/// Creates a material, written now. The row that is returned carries the
/// id and the time. An initial stock below zero is refused; one above zero
/// is received by a first movement.
pub fn add_material(store: &mut Ledger, material: CreateMaterialRequest) -> (r: Result<
    Material,
    LedgerError,
>)
    requires
        old(store).wf(),
    ensures
        final(store).wf(),
        match r {
            Ok(row) => {
                &&& creation_refusal(old(store)@, ItemKind::Material, material.current_stock@) is None
                &&& final(store)@ == old(store)@.with_material(material@, row@.created_at)
                &&& row@ == final(store)@.materials.last()
            },
            Err(e) => {
                &&& creation_refusal(old(store)@, ItemKind::Material, material.current_stock@) == Some(e)
                &&& final(store)@ == old(store)@
            },
        },
{
    let now = current_time();
    let ghost stamp = now@;
    let r = store.insert_material(material, now);
    proof {
        if r is Ok {
            crate::state::lemma_created_material_is_last(old(store)@, material@, stamp);
        }
    }
    r
}

/// Replaces the descriptive fields of a material. A unit that differs
/// from the stored one is refused once the material has a movement, and
/// then nothing is changed.
pub fn update_material(store: &mut Ledger, id: i64, req: UpdateMaterialRequest) -> (r: Result<
    (),
    LedgerError,
>)
    requires
        old(store).wf(),
    ensures
        final(store).wf(),
        match r {
            Ok(_) => {
                &&& material_update_refusal(old(store)@, id as int, req.unit@) is None
                &&& final(store)@ == old(store)@.with_material_details(id as int, req@)
            },
            Err(e) => {
                &&& material_update_refusal(old(store)@, id as int, req.unit@) == Some(e)
                &&& final(store)@ == old(store)@
            },
        },
{
    store.update_material(id, req)
}

/// Why a signed change of a material's stock is refused, if it is.
pub open spec fn change_refusal(s: LedgerView, id: int, change: int) -> Option<LedgerError> {
    if !s.has_item(ItemKind::Material, id) {
        Some(LedgerError::NotFound)
    } else if !representable(change_magnitude(change)) {
        Some(LedgerError::InvalidAmount)
    } else {
        movement_refusal(s, ItemKind::Material, id, change_action(change), change_magnitude(change))
    }
}

/// Changes the stock of a material by a signed amount, as written at the
/// time `now`: the change is recorded as a receipt of the amount, or as an
/// issue of its magnitude where it is below zero. The reason and the
/// reference of the request are not part of a movement and are not kept.
pub fn change_material_stock(store: &mut Ledger, req: &MaterialInventoryChangeRequest, now: String) -> (r:
    Result<InventoryLog, LedgerError>)
    requires
        old(store).wf(),
    ensures
        final(store).wf(),
        match r {
            Ok(row) => {
                &&& change_refusal(old(store)@, req.material_id as int, req.change_amount@) is None
                &&& row@ == old(store)@.movement_row(
                    ItemKind::Material,
                    req.material_id as int,
                    change_action(req.change_amount@),
                    change_magnitude(req.change_amount@),
                    text_of(req.note),
                    now@,
                )
                &&& final(store)@ == old(store)@.with_movement(
                    ItemKind::Material,
                    req.material_id as int,
                    change_action(req.change_amount@),
                    change_magnitude(req.change_amount@),
                    text_of(req.note),
                    now@,
                )
                &&& row@.new_stock == row@.old_stock + req.change_amount@
            },
            Err(e) => {
                &&& change_refusal(old(store)@, req.material_id as int, req.change_amount@) == Some(e)
                &&& final(store)@ == old(store)@
            },
        },
{
    let found = store.current_stock(ItemKind::Material, req.material_id);
    let (action, amount) = match plan_change(found, Some(req.change_amount)) {
        Ok(planned) => (planned.0, planned.1),
        Err(e) => {
            return Err(e);
        },
    };
    store.apply_movement(ItemKind::Material, req.material_id, action, amount, clone_text(&req.note), now)
}

/// Changes the stock of a material by a signed amount, written now. The
/// row that is returned carries the time.
pub fn update_material_inventory(store: &mut Ledger, req: MaterialInventoryChangeRequest) -> (r: Result<
    InventoryLog,
    LedgerError,
>)
    requires
        old(store).wf(),
    ensures
        final(store).wf(),
        match r {
            Ok(row) => {
                &&& change_refusal(old(store)@, req.material_id as int, req.change_amount@) is None
                &&& final(store)@ == old(store)@.with_movement(
                    ItemKind::Material,
                    req.material_id as int,
                    change_action(req.change_amount@),
                    change_magnitude(req.change_amount@),
                    text_of(req.note),
                    row@.created_at,
                )
                &&& row@ == final(store)@.logs.last()
                &&& row@.new_stock == row@.old_stock + req.change_amount@
            },
            Err(e) => {
                &&& change_refusal(old(store)@, req.material_id as int, req.change_amount@) == Some(e)
                &&& final(store)@ == old(store)@
            },
        },
{
    let now = current_time();
    change_material_stock(store, &req, now)
}

} // verus!
