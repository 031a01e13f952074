//! The stock rule: what a movement makes of the stock it finds.

use vstd::prelude::*;
use crate::kinds::{same_text, ActionType, ItemKind, LedgerError};
use crate::model::amount_of;
use crate::quantity::{representable, Quantity};

verus! {

/// The stock that an action leaves, in thousandths: `in` adds the amount,
/// `out` takes it away, `adj` puts the amount in the stock's place.
pub open spec fn stock_after(action: ActionType, old_stock: int, amount: int) -> int {
    match action {
        ActionType::In => old_stock + amount,
        ActionType::Out => old_stock - amount,
        ActionType::Adj => amount,
    }
}

/// Whether an amount, in thousandths, may be submitted for an item of the
/// given kind under the given action: products move in whole units only, and
/// only `adj` takes an amount below zero.
pub open spec fn amount_allowed(kind: ItemKind, action: ActionType, amount: int) -> bool {
    &&& kind == ItemKind::Product ==> amount % 1000 == 0
    &&& action != ActionType::Adj ==> amount >= 0
}

/// Whether a movement is accepted on a stock: the amount is allowed and the
/// stock it leaves can be represented.
pub open spec fn movement_accepted(
    kind: ItemKind,
    action: ActionType,
    old_stock: int,
    amount: int,
) -> bool {
    amount_allowed(kind, action, amount) && representable(stock_after(action, old_stock, amount))
}

/// Computes the stock that a movement leaves. A stock below zero is accepted:
/// the ledger records what happened and forbids nothing.
pub fn new_stock(kind: ItemKind, action: ActionType, old_stock: Quantity, amount: Quantity) -> (r:
    Result<Quantity, LedgerError>)
    ensures
        r.is_ok() <==> movement_accepted(kind, action, old_stock@, amount@),
        r matches Ok(q) ==> q@ == stock_after(action, old_stock@, amount@),
        r matches Err(e) ==> e == LedgerError::InvalidAmount,
{
    if kind == ItemKind::Product && !amount.is_whole() {
        return Err(LedgerError::InvalidAmount);
    }
    if action != ActionType::Adj && amount.is_negative() {
        return Err(LedgerError::InvalidAmount);
    }
    let computed: Option<Quantity> = match action {
        ActionType::In => old_stock.checked_add(amount),
        ActionType::Out => old_stock.checked_sub(amount),
        ActionType::Adj => {
            proof {
                use_type_invariant(&amount);
                amount.lemma_representable();
            }
            Some(amount)
        },
    };
    match computed {
        Some(q) => Ok(q),
        None => Err(LedgerError::InvalidAmount),
    }
}

/// What a submitted movement comes to, from plain values: the stock that
/// was found for the addressed item, if there is such an item, the action
/// that its tag names, if it names one, and the amount, if what was
/// submitted is a quantity. The item is looked for first, then the action
/// is read, then the amount is held against the stock. The result is the
/// action and the stock that it leaves, in thousandths.
pub open spec fn planned_movement(
    kind: ItemKind,
    found: Option<int>,
    action: Option<ActionType>,
    amount: Option<int>,
) -> Result<(ActionType, int), LedgerError> {
    match (found, action, amount) {
        (None, _, _) => Err(LedgerError::NotFound),
        (Some(_), None, _) => Err(LedgerError::InvalidActionType),
        (Some(old_stock), Some(a), Some(x)) if movement_accepted(kind, a, old_stock, x) => Ok(
            (a, stock_after(a, old_stock, x)),
        ),
        _ => Err(LedgerError::InvalidAmount),
    }
}

/// Decides what a submitted movement comes to.
pub fn plan_movement(
    kind: ItemKind,
    found: Option<Quantity>,
    action_tag: &str,
    amount: Option<Quantity>,
) -> (r: Result<(ActionType, Quantity), LedgerError>)
    ensures
        match r {
            Ok(m) => planned_movement(
                kind,
                amount_of(found),
                ActionType::from_tag(action_tag@),
                amount_of(amount),
            ) == Ok::<(ActionType, int), LedgerError>((m.0, m.1@)),
            Err(e) => planned_movement(
                kind,
                amount_of(found),
                ActionType::from_tag(action_tag@),
                amount_of(amount),
            ) == Err::<(ActionType, int), LedgerError>(e),
        },
{
    let old_stock = match found {
        Some(q) => q,
        None => {
            return Err(LedgerError::NotFound);
        },
    };
    let action = match ActionType::parse(action_tag) {
        Ok(a) => a,
        Err(e) => {
            return Err(e);
        },
    };
    let submitted = match amount {
        Some(q) => q,
        None => {
            return Err(LedgerError::InvalidAmount);
        },
    };
    match new_stock(kind, action, old_stock, submitted) {
        Ok(q) => Ok((action, q)),
        Err(e) => Err(e),
    }
}

/// What a signed change of a material's stock comes to, from plain values:
/// the stock that was found, if there is such a material, and the change,
/// if what was submitted is a quantity. The result is the action that
/// records the change, its magnitude and the stock that it leaves.
pub open spec fn planned_change(found: Option<int>, change: Option<int>) -> Result<
    (ActionType, int, int),
    LedgerError,
> {
    match (found, change) {
        (None, _) => Err(LedgerError::NotFound),
        (Some(old_stock), Some(c)) if representable(change_magnitude(c)) && representable(old_stock + c) => Ok(
            (change_action(c), change_magnitude(c), old_stock + c),
        ),
        _ => Err(LedgerError::InvalidAmount),
    }
}

/// Decides what a signed change of a material's stock comes to.
pub fn plan_change(found: Option<Quantity>, change: Option<Quantity>) -> (r: Result<
    (ActionType, Quantity, Quantity),
    LedgerError,
>)
    ensures
        match r {
            Ok(m) => planned_change(amount_of(found), amount_of(change)) == Ok::<
                (ActionType, int, int),
                LedgerError,
            >((m.0, m.1@, m.2@)),
            Err(e) => planned_change(amount_of(found), amount_of(change)) == Err::<
                (ActionType, int, int),
                LedgerError,
            >(e),
        },
{
    let old_stock = match found {
        Some(q) => q,
        None => {
            return Err(LedgerError::NotFound);
        },
    };
    let submitted = match change {
        Some(q) => q,
        None => {
            return Err(LedgerError::InvalidAmount);
        },
    };
    let (action, magnitude) = match change_as_movement(submitted) {
        Ok(m) => m,
        Err(e) => {
            return Err(e);
        },
    };
    match new_stock(ItemKind::Material, action, old_stock, magnitude) {
        Ok(q) => Ok((action, magnitude, q)),
        Err(e) => Err(e),
    }
}

/// What the creation of an item with an initial stock writes first, in
/// thousandths: nothing for a stock of zero, a receipt of the stock for one
/// above zero. A stock below zero is refused.
pub open spec fn first_receipt_of(initial: int) -> Result<Option<int>, LedgerError> {
    if initial < 0 {
        Err(LedgerError::InvalidAmount)
    } else if initial > 0 {
        Ok(Some(initial))
    } else {
        Ok(None)
    }
}

/// Decides what the creation of an item with an initial stock writes first.
pub fn first_receipt(initial: Quantity) -> (r: Result<Option<Quantity>, LedgerError>)
    ensures
        match r {
            Ok(Some(amount)) => first_receipt_of(initial@) == Ok::<Option<int>, LedgerError>(Some(amount@)),
            Ok(None) => first_receipt_of(initial@) == Ok::<Option<int>, LedgerError>(None),
            Err(e) => first_receipt_of(initial@) == Err::<Option<int>, LedgerError>(e),
        },
{
    if initial.is_negative() {
        Err(LedgerError::InvalidAmount)
    } else if initial.is_positive() {
        Ok(Some(initial))
    } else {
        Ok(None)
    }
}

/// The action that records a signed change: a change below zero is an
/// issue of its magnitude, any other a receipt.
pub open spec fn change_action(change: int) -> ActionType {
    if change < 0 {
        ActionType::Out
    } else {
        ActionType::In
    }
}

/// The magnitude of a signed change.
pub open spec fn change_magnitude(change: int) -> int {
    if change < 0 {
        -change
    } else {
        change
    }
}

/// Turns a signed change into the movement that records it. A change
/// whose magnitude cannot be represented is refused.
pub fn change_as_movement(change: Quantity) -> (r: Result<(ActionType, Quantity), LedgerError>)
    ensures
        r.is_ok() <==> representable(change_magnitude(change@)),
        r matches Ok(m) ==> m.0 == change_action(change@) && m.1@ == change_magnitude(change@),
        r matches Err(e) ==> e == LedgerError::InvalidAmount,
{
    if change.is_negative() {
        match change.checked_neg() {
            Some(magnitude) => Ok((ActionType::Out, magnitude)),
            None => Err(LedgerError::InvalidAmount),
        }
    } else {
        proof {
            use_type_invariant(&change);
            change.lemma_representable();
        }
        Ok((ActionType::In, change))
    }
}

/// Whether the unit of a material may be replaced: a unit that differs from
/// the stored one is refused once the material has a movement.
pub fn unit_change_allowed(stored: &str, requested: &str, in_use: bool) -> (r: Result<
    (),
    LedgerError,
>)
    ensures
        r == if stored@ != requested@ && in_use {
            Err::<(), LedgerError>(LedgerError::UnitMismatch)
        } else {
            Ok(())
        },
{
    if in_use && !same_text(stored, requested) {
        Err(LedgerError::UnitMismatch)
    } else {
        Ok(())
    }
}

/// On whole stock, whole amounts leave whole stock.
pub proof fn lemma_whole_stays_whole(action: ActionType, old_stock: int, amount: int)
    requires
        old_stock % 1000 == 0,
        amount % 1000 == 0,
    ensures
        stock_after(action, old_stock, amount) % 1000 == 0,
{
}

} // verus!
