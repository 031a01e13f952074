//! What holds of every consistent store, whatever was done to it.

use vstd::prelude::*;
use crate::engine::{movement_accepted, stock_after};
use crate::kinds::{ActionType, ItemKind};
use crate::model::{LogView, MovementView};
use crate::order::{lemma_listed_before_asymmetric, stands_before};
use crate::quantity::representable;
use crate::state::{
    has_movement, lemma_filtered_row_is_a_row, lemma_movement_keeps_consistent,
    lemma_movement_sets_counter, lemma_recorded_stock_representable,
    lemma_recorded_stock_without_movement, material_shown, movement_refusal, product_shown,
    recorded_stock, LedgerView,
};

verus! {

/// Whether the row at position `k` of a log is the latest movement of an item.
pub open spec fn is_latest_movement(logs: Seq<LogView>, kind: ItemKind, id: int, k: int) -> bool {
    &&& 0 <= k < logs.len()
    &&& logs[k].item_type == kind
    &&& logs[k].item_id == id
    &&& forall|j: int| k < j < logs.len() ==> !(#[trigger] logs[j].item_type == kind && logs[j].item_id == id)
}

/// The stock that a log records for an item is the new stock of the item's
/// latest movement.
pub proof fn lemma_recorded_stock_is_latest(logs: Seq<LogView>, kind: ItemKind, id: int, k: int)
    requires
        is_latest_movement(logs, kind, id, k),
    ensures
        recorded_stock(logs, kind, id) == logs[k].new_stock,
    decreases logs.len(),
{
    let last = logs.len() - 1;
    if k < last {
        assert(!(logs[last].item_type == kind && logs[last].item_id == id));
        assert forall|j: int| k < j < logs.drop_last().len() implies !(
        #[trigger] logs.drop_last()[j].item_type == kind && logs.drop_last()[j].item_id == id) by {
            assert(logs.drop_last()[j] == logs[j]);
            assert(!(logs[j].item_type == kind && logs[j].item_id == id));
        }
        assert(logs.drop_last()[k] == logs[k]);
        lemma_recorded_stock_is_latest(logs.drop_last(), kind, id, k);
    }
}

/// Ledger consistency: in a consistent store the counter of every item
/// equals the new stock of the item's latest movement.
pub proof fn lemma_counter_equals_latest_new_stock(s: LedgerView, kind: ItemKind, id: int, k: int)
    requires
        s.consistent(),
        s.has_item(kind, id),
        is_latest_movement(s.logs, kind, id, k),
    ensures
        s.stock_of(kind, id) == s.logs[k].new_stock,
{
    lemma_recorded_stock_is_latest(s.logs, kind, id, k);
    assert(s.stock_of(kind, id) == recorded_stock(s.logs, kind, id));
}

/// Ledger consistency: in a consistent store the counter of an item
/// without movements is zero, the stock that every item is created with.
pub proof fn lemma_counter_without_movement_is_zero(s: LedgerView, kind: ItemKind, id: int)
    requires
        s.consistent(),
        s.has_item(kind, id),
        !has_movement(s.logs, kind, id),
    ensures
        s.stock_of(kind, id) == 0,
{
    lemma_recorded_stock_without_movement(s.logs, kind, id);
    assert(s.stock_of(kind, id) == recorded_stock(s.logs, kind, id));
}

/// The audit chain: in a consistent store every movement found the stock
/// that the item's movement before it had left, and zero where it is the
/// item's first.
pub proof fn lemma_old_stock_continues_chain(s: LedgerView, k: int, before: int)
    requires
        s.consistent(),
        0 <= k < s.logs.len(),
        is_latest_movement(s.logs.take(k), s.logs[k].item_type, s.logs[k].item_id, before),
    ensures
        s.logs[k].old_stock == s.logs[before].new_stock,
        s.logs[k].new_stock == stock_after(s.logs[k].action_type, s.logs[k].old_stock, s.logs[k].change_amount),
{
    let row = s.logs[k];
    lemma_recorded_stock_is_latest(s.logs.take(k), row.item_type, row.item_id, before);
    assert(s.logs.take(k)[before] == s.logs[before]);
}

/// One movement that is submitted for an item: its action, its amount in
/// thousandths, its note and the time it is written at.
pub struct Step {
    pub action: ActionType,
    pub amount: int,
    pub note: Option<Seq<char>>,
    pub now: Seq<char>,
}

/// The store after one submitted movement: a refused one changes nothing.
pub open spec fn after_step(s: LedgerView, kind: ItemKind, id: int, step: Step) -> LedgerView {
    if movement_refusal(s, kind, id, step.action, step.amount) is None {
        s.with_movement(kind, id, step.action, step.amount, step.note, step.now)
    } else {
        s
    }
}

/// The store after a sequence of movements was submitted for one item, one
/// after the other.
pub open spec fn after_steps(s: LedgerView, kind: ItemKind, id: int, steps: Seq<Step>) -> LedgerView
    decreases steps.len(),
{
    if steps.len() == 0 {
        s
    } else {
        after_step(after_steps(s, kind, id, steps.drop_last()), kind, id, steps.last())
    }
}

/// Round trip: whatever sequence of movements is submitted for an item of
/// a consistent store, the store stays consistent, and where the last of
/// them was accepted, the counter of the item equals the new stock of the
/// row that was written last.
pub proof fn lemma_counter_round_trip(s: LedgerView, kind: ItemKind, id: int, steps: Seq<Step>)
    requires
        s.consistent(),
        s.has_item(kind, id),
        steps.len() > 0,
    ensures
        after_steps(s, kind, id, steps).consistent(),
        after_steps(s, kind, id, steps).has_item(kind, id),
        movement_refusal(
            after_steps(s, kind, id, steps.drop_last()),
            kind,
            id,
            steps.last().action,
            steps.last().amount,
        ) is None ==> after_steps(s, kind, id, steps).stock_of(kind, id) == after_steps(
            s,
            kind,
            id,
            steps,
        ).logs.last().new_stock,
    decreases steps.len(),
{
    let before = after_steps(s, kind, id, steps.drop_last());
    if steps.len() > 1 {
        lemma_counter_round_trip(s, kind, id, steps.drop_last());
    }
    let step = steps.last();
    if movement_refusal(before, kind, id, step.action, step.amount) is None {
        lemma_movement_keeps_consistent(before, kind, id, step.action, step.amount, step.note, step.now);
        lemma_movement_sets_counter(before, kind, id, step.action, step.amount, step.note, step.now);
    }
}

/// A refused movement leaves the store as it was: the counters and the
/// number of rows of the log among the rest.
pub proof fn lemma_refused_step_changes_nothing(s: LedgerView, kind: ItemKind, id: int, step: Step)
    requires
        movement_refusal(s, kind, id, step.action, step.amount) is Some,
    ensures
        after_step(s, kind, id, step) == s,
{
}

/// `count` receipts of the same amount, one after the other.
pub open spec fn receipts(count: nat, amount: int, now: Seq<char>) -> Seq<Step> {
    Seq::new(count, |i: int| Step { action: ActionType::In, amount: amount, note: None, now: now })
}

/// No receipt is lost: after `count` receipts of an allowed amount, one
/// after the other, the counter of the item has grown by `count` times the
/// amount, the log holds `count` more rows, and the store is consistent,
/// provided that the log has room and the stock stays representable.
pub proof fn lemma_no_receipt_is_lost(
    s: LedgerView,
    kind: ItemKind,
    id: int,
    count: nat,
    amount: int,
    now: Seq<char>,
)
    requires
        s.consistent(),
        s.has_item(kind, id),
        amount >= 0,
        kind == ItemKind::Product ==> amount % 1000 == 0,
        s.logs.len() + count <= i64::MAX,
        representable(s.stock_of(kind, id) + count * amount),
    ensures
        after_steps(s, kind, id, receipts(count, amount, now)).consistent(),
        after_steps(s, kind, id, receipts(count, amount, now)).stock_of(kind, id) == s.stock_of(kind, id)
            + count * amount,
        after_steps(s, kind, id, receipts(count, amount, now)).logs.len() == s.logs.len() + count,
        after_steps(s, kind, id, receipts(count, amount, now)).has_item(kind, id),
    decreases count,
{
    let steps = receipts(count, amount, now);
    assert(representable(s.stock_of(kind, id))) by {
        lemma_recorded_stock_representable(s, kind, id, s.logs.len() as int);
        assert(s.logs.take(s.logs.len() as int) =~= s.logs);
        assert(s.stock_of(kind, id) == recorded_stock(s.logs, kind, id));
    }
    if count > 0 {
        let fewer = (count - 1) as nat;
        assert(steps.drop_last() =~= receipts(fewer, amount, now));
        assert(fewer * amount <= count * amount) by (nonlinear_arith)
            requires
                fewer <= count,
                amount >= 0,
        ;
        assert(count * amount == fewer * amount + amount) by (nonlinear_arith)
            requires
                fewer == count - 1,
        ;
        lemma_no_receipt_is_lost(s, kind, id, fewer, amount, now);
        let before = after_steps(s, kind, id, receipts(fewer, amount, now));
        let step = steps.last();
        assert(movement_accepted(kind, step.action, before.stock_of(kind, id), step.amount));
        assert(movement_refusal(before, kind, id, step.action, step.amount) is None);
        lemma_movement_keeps_consistent(before, kind, id, step.action, step.amount, step.note, step.now);
        lemma_movement_sets_counter(before, kind, id, step.action, step.amount, step.note, step.now);
        let after = before.with_movement(kind, id, step.action, step.amount, step.note, step.now);
        assert(after_steps(s, kind, id, steps) == after);
        assert(after.logs.len() == before.logs.len() + 1);
    } else {
        assert(count * amount == 0) by (nonlinear_arith)
            requires
                count == 0,
        ;
    }
}

/// Retiring is idempotent: retiring a retired item changes nothing, so the
/// time of the first retirement stays.
pub proof fn lemma_retire_twice_is_retire_once(
    s: LedgerView,
    kind: ItemKind,
    id: int,
    first: Seq<char>,
    second: Seq<char>,
)
    requires
        s.has_item(kind, id),
    ensures
        s.with_deleted(kind, id, first).with_deleted(kind, id, second) == s.with_deleted(kind, id, first),
{
}

/// Retiring an item touches neither its counter nor any movement.
pub proof fn lemma_retire_keeps_stock_and_log(s: LedgerView, kind: ItemKind, id: int, now: Seq<char>)
    requires
        s.has_item(kind, id),
    ensures
        s.with_deleted(kind, id, now).logs == s.logs,
        s.with_deleted(kind, id, now).stock_of(kind, id) == s.stock_of(kind, id),
        s.with_deleted(kind, id, now).deleted_at(kind, id) is Some,
{
}

/// A retired product is in no listing of the products that are not
/// retired, and every other product is listed as it was before.
pub proof fn lemma_retired_product_is_not_listed(s: LedgerView, id: int, now: Seq<char>)
    requires
        s.consistent(),
        s.has_item(ItemKind::Product, id),
    ensures
        forall|i: int|
            0 <= i < s.with_deleted(ItemKind::Product, id, now).listed_products(true).len() ==> (
            #[trigger] s.with_deleted(ItemKind::Product, id, now).listed_products(true)[i]).id != id,
        forall|j: int|
            0 <= j < s.products.len() && j != id - 1 && s.products[j].deleted_at is None ==> s.with_deleted(
                ItemKind::Product,
                id,
                now,
            ).listed_products(true).contains(#[trigger] s.products[j]),
{
    let t = s.with_deleted(ItemKind::Product, id, now);
    let shown = product_shown(true);
    let listed = t.products.filter(shown);
    broadcast use vstd::seq_lib::group_filter_ensures;
    assert forall|i: int| 0 <= i < listed.len() implies (#[trigger] listed[i]).id != id by {
        lemma_filtered_row_is_a_row(t.products, shown, i);
        let j = choose|j: int| 0 <= j < t.products.len() && t.products[j] == listed[i];
        if j == id - 1 {
            assert(t.products[j].deleted_at is Some);
        } else {
            assert(t.products[j] == s.products[j]);
            assert(s.products[j].id == j + 1);
        }
    }
    assert forall|j: int|
        0 <= j < s.products.len() && j != id - 1 && s.products[j].deleted_at is None implies listed.contains(
        #[trigger] s.products[j],
    ) by {
        assert(t.products[j] == s.products[j]);
        assert(shown(t.products[j]));
    }
}

/// A retired material is in no listing of the materials that are not
/// retired, and every other material is listed as it was before.
pub proof fn lemma_retired_material_is_not_listed(s: LedgerView, id: int, now: Seq<char>)
    requires
        s.consistent(),
        s.has_item(ItemKind::Material, id),
    ensures
        forall|i: int|
            0 <= i < s.with_deleted(ItemKind::Material, id, now).listed_materials(true).len() ==> (
            #[trigger] s.with_deleted(ItemKind::Material, id, now).listed_materials(true)[i]).id != id,
        forall|j: int|
            0 <= j < s.materials.len() && j != id - 1 && s.materials[j].deleted_at is None
                ==> s.with_deleted(ItemKind::Material, id, now).listed_materials(true).contains(
                #[trigger] s.materials[j],
            ),
{
    let t = s.with_deleted(ItemKind::Material, id, now);
    let shown = material_shown(true);
    let listed = t.materials.filter(shown);
    broadcast use vstd::seq_lib::group_filter_ensures;
    assert forall|i: int| 0 <= i < listed.len() implies (#[trigger] listed[i]).id != id by {
        lemma_filtered_row_is_a_row(t.materials, shown, i);
        let j = choose|j: int| 0 <= j < t.materials.len() && t.materials[j] == listed[i];
        if j == id - 1 {
            assert(t.materials[j].deleted_at is Some);
        } else {
            assert(t.materials[j] == s.materials[j]);
            assert(s.materials[j].id == j + 1);
        }
    }
    assert forall|j: int|
        0 <= j < s.materials.len() && j != id - 1 && s.materials[j].deleted_at is None implies listed.contains(
        #[trigger] s.materials[j],
    ) by {
        assert(t.materials[j] == s.materials[j]);
        assert(shown(t.materials[j]));
    }
}

/// The movements of a retired item stay in the listing of the movements:
/// what lists the movements before an item is retired lists them after.
pub proof fn lemma_retire_keeps_movement_listing(
    s: LedgerView,
    kind: ItemKind,
    id: int,
    now: Seq<char>,
    rows: Seq<MovementView>,
)
    requires
        s.consistent(),
        s.has_item(kind, id),
        s.is_movement_listing(rows),
    ensures
        s.with_deleted(kind, id, now).is_movement_listing(rows),
{
    let t = s.with_deleted(kind, id, now);
    assert(t.logs == s.logs);
    assert forall|k: int| 0 <= k < s.logs.len() implies t.joined(#[trigger] s.logs[k]) == s.joined(
        s.logs[k],
    ) by {
        assert(s.has_item(s.logs[k].item_type, s.logs[k].item_id));
    }
    assert forall|k: int| 0 <= k < t.logs.len() implies #[trigger] t.lists_row(rows, k) by {
        assert(s.lists_row(rows, k));
    }
}

/// Two listings of the movements of a store agree in their first `upto` rows.
proof fn lemma_listings_agree(s: LedgerView, a: Seq<MovementView>, b: Seq<MovementView>, upto: int)
    requires
        s.is_movement_listing(a),
        s.is_movement_listing(b),
        0 <= upto <= s.logs.len(),
    ensures
        forall|i: int| 0 <= i < upto ==> a[i] == b[i],
    decreases upto,
{
    if upto > 0 {
        lemma_listings_agree(s, a, b, upto - 1);
        let i = upto - 1;
        let ka = a[i].id - 1;
        let kb = b[i].id - 1;
        assert(a[i] == s.joined(s.logs[ka]));
        assert(b[i] == s.joined(s.logs[kb]));
        assert(s.lists_row(b, ka));
        let p = choose|p: int| 0 <= p < b.len() && (#[trigger] b[p]) == s.joined(s.logs[ka]);
        assert(s.lists_row(a, kb));
        let q = choose|q: int| 0 <= q < a.len() && (#[trigger] a[q]) == s.joined(s.logs[kb]);
        if p < i {
            assert(a[p] == b[p]);
            assert(stands_before(a[p].created_at, a[p].id, a[i].created_at, a[i].id));
            lemma_listed_before_asymmetric(s.logs[ka], s.logs[ka]);
        } else if q < i {
            assert(a[q] == b[q]);
            assert(stands_before(b[q].created_at, b[q].id, b[i].created_at, b[i].id));
            lemma_listed_before_asymmetric(s.logs[kb], s.logs[kb]);
        } else if p > i && q > i {
            assert(stands_before(b[i].created_at, b[i].id, b[p].created_at, b[p].id));
            assert(stands_before(a[i].created_at, a[i].id, a[q].created_at, a[q].id));
            lemma_listed_before_asymmetric(s.logs[kb], s.logs[ka]);
        }
    }
}

/// The listing of the movements is determined: two sequences that both
/// list the movements of a store are the same sequence.
pub proof fn lemma_movement_listing_is_unique(s: LedgerView, a: Seq<MovementView>, b: Seq<MovementView>)
    requires
        s.is_movement_listing(a),
        s.is_movement_listing(b),
    ensures
        a == b,
{
    lemma_listings_agree(s, a, b, s.logs.len() as int);
    assert(a =~= b);
}

} // verus!
