//! Bringing a store to its first start: the schema version, and the rows
//! that a store which holds nothing is seeded with.

use vstd::prelude::*;
use crate::clock::current_time;
use crate::ledger::Ledger;
use crate::model::{CreateMaterialRequest, CreateProductRequest, MaterialFields, ProductFields};
use crate::quantity::Quantity;
use crate::state::{
    lemma_created_material_is_last, lemma_created_product_is_last, LedgerView,
};

verus! {

/// The version of the schema that a started store has.
pub const SCHEMA_VERSION: i64 = 1;

/// The version that a start leaves: a store that was never started is
/// brought to the current version, any other keeps its own.
pub open spec fn started_version(version: int) -> int {
    if version == 0 {
        SCHEMA_VERSION as int
    } else {
        version
    }
}

/// A material of the demonstration rows: stock and alert in whole units.
pub open spec fn demo_material(
    name: Seq<char>,
    category: Seq<char>,
    unit: Seq<char>,
    stock: int,
    alert: int,
) -> MaterialFields {
    MaterialFields {
        name: name,
        category: category,
        unit: unit,
        current_stock: stock * 1000,
        low_stock_alert: Some(alert * 1000),
        note: None,
    }
}

/// A product of the demonstration rows.
pub open spec fn demo_product(name: Seq<char>, stock: int) -> ProductFields {
    ProductFields {
        name: name,
        category: "沐浴"@,
        unit: "個"@,
        current_stock: stock,
        note: Some("100g 手工皂"@),
    }
}

/// The store after the demonstration rows were created at the time `now`:
/// four materials, then four products, each with its first movement.
pub open spec fn seeded(s: LedgerView, now: Seq<char>) -> LedgerView {
    s.with_material(demo_material("橄欖油"@, "油脂"@, "ml"@, 5000, 1000), now).with_material(
        demo_material("椰子油"@, "油脂"@, "ml"@, 3000, 500),
        now,
    ).with_material(demo_material("氫氧化鈉"@, "鹼"@, "g"@, 2000, 200), now).with_material(
        demo_material("薰衣草精油"@, "精油"@, "ml"@, 200, 50),
        now,
    ).with_product(demo_product("薰衣草手工皂"@, 50), now).with_product(
        demo_product("橄欖油手工皂"@, 30),
        now,
    ).with_product(demo_product("蜜糖燕麥皂"@, 45), now).with_product(
        demo_product("活性炭皂"@, 25),
        now,
    )
}

/// What seeding at the time `now` makes of a store: a store that holds a
/// row is left as it is.
pub open spec fn seeded_if_empty(s: LedgerView, now: Seq<char>) -> LedgerView {
    if s.is_empty() {
        seeded(s, now)
    } else {
        s
    }
}

/// Whether a store of the given row counts may be seeded: only one that
/// holds no material, no product and no movement.
pub fn may_seed(materials: u64, products: u64, movements: u64) -> (b: bool)
    ensures
        b == (materials == 0 && products == 0 && movements == 0),
{
    materials == 0 && products == 0 && movements == 0
}

/// Whether a store of the given schema version has its schema yet to be
/// created.
pub fn needs_schema(version: i64) -> (b: bool)
    ensures
        b == (version == 0),
        b == (started_version(version as int) != version),
{
    version == 0
}

fn material_request(name: &str, category: &str, unit: &str, stock: i64, alert: i64) -> (r:
    CreateMaterialRequest)
    ensures
        r@ == demo_material(name@, category@, unit@, stock as int, alert as int),
{
    CreateMaterialRequest {
        name: name.to_owned(),
        category: Some(category.to_owned()),
        unit: unit.to_owned(),
        current_stock: Quantity::from_whole(stock),
        low_stock_alert: Some(Quantity::from_whole(alert)),
        note: None,
    }
}

fn product_request(name: &str, stock: i64) -> (r: CreateProductRequest)
    ensures
        r@ == demo_product(name@, stock as int),
{
    CreateProductRequest {
        name: name.to_owned(),
        category: "沐浴".to_owned(),
        unit: "個".to_owned(),
        current_stock: stock,
        note: Some("100g 手工皂".to_owned()),
    }
}

fn seed_material(store: &mut Ledger, req: CreateMaterialRequest, now: &String)
    requires
        old(store).wf(),
        req@.current_stock >= 0,
        old(store)@.materials.len() < 8,
        old(store)@.logs.len() < 8,
    ensures
        final(store).wf(),
        final(store)@ == old(store)@.with_material(req@, now@),
        final(store)@.materials.len() == old(store)@.materials.len() + 1,
        final(store)@.products.len() == old(store)@.products.len(),
        final(store)@.logs.len() <= old(store)@.logs.len() + 1,
{
    proof {
        lemma_created_material_is_last(old(store)@, req@, now@);
    }
    let _ = store.insert_material(req, now.clone());
}

fn seed_product(store: &mut Ledger, req: CreateProductRequest, now: &String)
    requires
        old(store).wf(),
        req@.current_stock >= 0,
        old(store)@.products.len() < 8,
        old(store)@.logs.len() < 8,
    ensures
        final(store).wf(),
        final(store)@ == old(store)@.with_product(req@, now@),
        final(store)@.products.len() == old(store)@.products.len() + 1,
        final(store)@.materials.len() == old(store)@.materials.len(),
        final(store)@.logs.len() <= old(store)@.logs.len() + 1,
{
    proof {
        lemma_created_product_is_last(old(store)@, req@, now@);
    }
    let _ = store.insert_product(req, now.clone());
}

/// Seeds a store that holds nothing with the demonstration rows, as
/// written at the time `now`. A store that holds a row is never touched.
pub fn seed_at(store: &mut Ledger, now: String)
    requires
        old(store).wf(),
    ensures
        final(store).wf(),
        final(store)@ == seeded_if_empty(old(store)@, now@),
{
    if !store.is_empty() {
        return;
    }
    seed_material(store, material_request("橄欖油", "油脂", "ml", 5000, 1000), &now);
    seed_material(store, material_request("椰子油", "油脂", "ml", 3000, 500), &now);
    seed_material(store, material_request("氫氧化鈉", "鹼", "g", 2000, 200), &now);
    seed_material(store, material_request("薰衣草精油", "精油", "ml", 200, 50), &now);
    seed_product(store, product_request("薰衣草手工皂", 50), &now);
    seed_product(store, product_request("橄欖油手工皂", 30), &now);
    seed_product(store, product_request("蜜糖燕麥皂", 45), &now);
    seed_product(store, product_request("活性炭皂", 25), &now);
}

/// Seeds a store that holds nothing with the demonstration rows, written
/// now. A store that holds a row is never touched.
pub fn seed_test_data(store: &mut Ledger)
    requires
        old(store).wf(),
    ensures
        final(store).wf(),
        !old(store)@.is_empty() ==> final(store)@ == old(store)@,
        old(store)@.is_empty() ==> final(store)@.materials.len() > 0 && final(store)@ == seeded(
            old(store)@,
            final(store)@.materials[0].created_at,
        ),
{
    let now = current_time();
    proof {
        lemma_created_material_is_last(
            old(store)@,
            demo_material("橄欖油"@, "油脂"@, "ml"@, 5000, 1000),
            now@,
        );
    }
    let ghost stamp = now@;
    seed_at(store, now);
    proof {
        if old(store)@.is_empty() {
            lemma_seeded_rows(old(store)@, stamp);
        }
    }
}

/// Starts a store, as of the time `now`: a store that was never started
/// is brought to the current schema version, and a store that holds
/// nothing is seeded.
pub fn migrate_at(store: &mut Ledger, now: String)
    requires
        old(store).wf(),
    ensures
        final(store).wf(),
        final(store)@ == seeded_if_empty(
            old(store)@.with_schema_version(started_version(old(store)@.schema_version)),
            now@,
        ),
{
    if needs_schema(store.schema_version()) {
        store.set_schema_version(SCHEMA_VERSION);
    }
    assert(store@ == old(store)@.with_schema_version(started_version(old(store)@.schema_version)));
    seed_at(store, now);
}

/// Starts a store, as of now.
pub fn migrate(store: &mut Ledger)
    requires
        old(store).wf(),
    ensures
        final(store).wf(),
        final(store)@.schema_version == started_version(old(store)@.schema_version),
        !old(store)@.is_empty() ==> final(store)@ == old(store)@.with_schema_version(
            started_version(old(store)@.schema_version),
        ),
        old(store)@.is_empty() ==> final(store)@.materials.len() > 0 && final(store)@ == seeded(
            old(store)@.with_schema_version(started_version(old(store)@.schema_version)),
            final(store)@.materials[0].created_at,
        ),
{
    let now = current_time();
    let ghost stamp = now@;
    migrate_at(store, now);
    proof {
        let started = old(store)@.with_schema_version(started_version(old(store)@.schema_version));
        if old(store)@.is_empty() {
            lemma_seeded_rows(started, stamp);
        }
    }
}

/// A seeded store holds four materials, four products and their eight
/// first movements, all written at the time of seeding, and keeps its
/// schema version.
pub proof fn lemma_seeded_rows(s: LedgerView, now: Seq<char>)
    requires
        s.is_empty(),
    ensures
        seeded(s, now).materials.len() == 4,
        seeded(s, now).products.len() == 4,
        seeded(s, now).logs.len() == 8,
        seeded(s, now).materials[0].created_at == now,
        seeded(s, now).schema_version == s.schema_version,
        !seeded(s, now).is_empty(),
{
    let oil = s.with_material(demo_material("橄欖油"@, "油脂"@, "ml"@, 5000, 1000), now);
    let coconut = oil.with_material(demo_material("椰子油"@, "油脂"@, "ml"@, 3000, 500), now);
    let lye = coconut.with_material(demo_material("氫氧化鈉"@, "鹼"@, "g"@, 2000, 200), now);
    let lavender = lye.with_material(demo_material("薰衣草精油"@, "精油"@, "ml"@, 200, 50), now);
    let first = lavender.with_product(demo_product("薰衣草手工皂"@, 50), now);
    let second = first.with_product(demo_product("橄欖油手工皂"@, 30), now);
    let third = second.with_product(demo_product("蜜糖燕麥皂"@, 45), now);
    let fourth = third.with_product(demo_product("活性炭皂"@, 25), now);
    assert(oil.materials.len() == 1 && oil.logs.len() == 1 && oil.products.len() == 0);
    assert(oil.materials[0].created_at == now);
    assert(coconut.materials.len() == 2 && coconut.logs.len() == 2 && coconut.products.len() == 0);
    assert(coconut.materials[0] == oil.materials[0]);
    assert(lye.materials.len() == 3 && lye.logs.len() == 3 && lye.products.len() == 0);
    assert(lye.materials[0] == coconut.materials[0]);
    assert(lavender.materials.len() == 4 && lavender.logs.len() == 4 && lavender.products.len() == 0);
    assert(lavender.materials[0] == lye.materials[0]);
    assert(first.materials == lavender.materials && first.logs.len() == 5 && first.products.len() == 1);
    assert(second.materials == lavender.materials && second.logs.len() == 6 && second.products.len() == 2);
    assert(third.materials == lavender.materials && third.logs.len() == 7 && third.products.len() == 3);
    assert(fourth.materials == lavender.materials && fourth.logs.len() == 8 && fourth.products.len() == 4);
}

/// Starting is idempotent: a second start, whenever it happens, leaves a
/// started store as the first start left it.
pub proof fn lemma_second_start_changes_nothing(s: LedgerView, first: Seq<char>, second: Seq<char>)
    ensures
        ({
            let once = seeded_if_empty(s.with_schema_version(started_version(s.schema_version)), first);
            seeded_if_empty(once.with_schema_version(started_version(once.schema_version)), second) == once
        }),
{
    let started = s.with_schema_version(started_version(s.schema_version));
    if started.is_empty() {
        lemma_seeded_rows(started, first);
    }
}

} // verus!
