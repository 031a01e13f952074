//! A verified inventory ledger for a small manufacturing workflow.
//!
//! Raw materials and finished products each carry a current stock counter.
//! Every change of a counter is recorded as an immutable movement row, and
//! the ledger keeps counter and movement log consistent with each other.
//!
//! - [`quantity`]: exact amounts in thousandths of a unit.
//! - [`kinds`]: item kinds, actions and errors, and their tags.
//! - [`engine`]: the stock rule, from plain values to plain values.
//! - [`model`]: the rows of the store and the requests that change them.
//! - [`state`]: the store as a mathematical value, and its invariant.
//! - [`ledger`]: the store itself.
//! - [`order`]: the order in which movements are listed.
//! - [`materials`], [`products`], [`movements`]: the operations on the store.
//! - [`export`]: the tabular export as sheets of typed cells.
//! - [`bootstrap`]: schema version and demonstration rows.
//! - [`laws`]: what holds of every consistent store.

pub mod bootstrap;
mod clock;
pub mod engine;
pub mod export;
pub mod kinds;
pub mod laws;
pub mod ledger;
pub mod materials;
pub mod model;
pub mod movements;
pub mod order;
pub mod products;
pub mod quantity;
pub mod state;
