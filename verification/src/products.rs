//! The repository of products.

use vstd::prelude::*;
use crate::clock::current_time;
use crate::kinds::{ItemKind, LedgerError};
use crate::ledger::Ledger;
use crate::model::{CreateProductRequest, Product, RemoveProductRequest, UpdateProductRequest};
use crate::state::{creation_refusal, views_of};

verus! {

/// Lists the products that are not retired, in the order of insertion.
pub fn list_products(store: &Ledger) -> (rows: Vec<Product>)
    ensures
        views_of(rows@) == store@.listed_products(true),
{
    store.products(true)
}

/// The product with the given id, unless it is retired.
pub fn get_product(store: &Ledger, id: i64) -> (r: Result<Product, LedgerError>)
    ensures
        match r {
            Ok(row) => {
                &&& store@.has_item(ItemKind::Product, id as int)
                &&& store@.products[id - 1].deleted_at is None
                &&& row@ == store@.products[id - 1]
            },
            Err(e) => {
                &&& e == LedgerError::NotFound
                &&& !(store@.has_item(ItemKind::Product, id as int) && store@.products[id
                    - 1].deleted_at is None)
            },
        },
{
    store.product(id, true)
}

/// Creates a product, written now. The row that is returned carries the
/// id and the time. An initial stock below zero is refused; one above zero
/// is received by a first movement.
pub fn add_product(store: &mut Ledger, product: CreateProductRequest) -> (r: Result<
    Product,
    LedgerError,
>)
    requires
        old(store).wf(),
    ensures
        final(store).wf(),
        match r {
            Ok(row) => {
                &&& creation_refusal(old(store)@, ItemKind::Product, product.current_stock * 1000) is None
                &&& final(store)@ == old(store)@.with_product(product@, row@.created_at)
                &&& row@ == final(store)@.products.last()
            },
            Err(e) => {
                &&& creation_refusal(old(store)@, ItemKind::Product, product.current_stock * 1000)
                    == Some(e)
                &&& final(store)@ == old(store)@
            },
        },
{
    let now = current_time();
    let ghost stamp = now@;
    let r = store.insert_product(product, now);
    proof {
        if r is Ok {
            crate::state::lemma_created_product_is_last(old(store)@, product@, stamp);
        }
    }
    r
}

/// Replaces the name, the category and the note of a product.
pub fn update_product(store: &mut Ledger, id: i64, req: UpdateProductRequest) -> (r: Result<
    (),
    LedgerError,
>)
    requires
        old(store).wf(),
    ensures
        final(store).wf(),
        match r {
            Ok(_) => {
                &&& old(store)@.has_item(ItemKind::Product, id as int)
                &&& final(store)@ == old(store)@.with_product_details(id as int, req@)
            },
            Err(e) => {
                &&& !old(store)@.has_item(ItemKind::Product, id as int)
                &&& e == LedgerError::NotFound
                &&& final(store)@ == old(store)@
            },
        },
{
    store.update_product(id, req)
}

/// Retires a product, as of now: it leaves the listing, and its stock and
/// its movements stay. Retiring a retired product changes nothing.
pub fn remove_product(store: &mut Ledger, product: RemoveProductRequest) -> (r: Result<(), LedgerError>)
    requires
        old(store).wf(),
    ensures
        final(store).wf(),
        match r {
            Ok(_) => {
                &&& old(store)@.has_item(ItemKind::Product, product.id as int)
                &&& final(store)@.deleted_at(ItemKind::Product, product.id as int) is Some
                &&& final(store)@ == old(store)@.with_deleted(
                    ItemKind::Product,
                    product.id as int,
                    final(store)@.deleted_at(ItemKind::Product, product.id as int)->0,
                )
            },
            Err(e) => {
                &&& !old(store)@.has_item(ItemKind::Product, product.id as int)
                &&& e == LedgerError::NotFound
                &&& final(store)@ == old(store)@
            },
        },
{
    let now = current_time();
    store.soft_delete(ItemKind::Product, product.id, now)
}

} // verus!
