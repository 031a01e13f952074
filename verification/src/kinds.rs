//! The closed vocabularies of the ledger: item kinds, actions and errors.

use vstd::prelude::*;

verus! {

/// The two kinds of item that carry stock.
#[derive(Clone, Copy, Debug, PartialEq, Eq, Structural)]
pub enum ItemKind {
    /// A raw material, measured in fractional units.
    Material,
    /// A finished product, counted in whole units.
    Product,
}

/// What a movement does to the stock of its item.
#[derive(Clone, Copy, Debug, PartialEq, Eq, Structural)]
pub enum ActionType {
    /// Stock received: the amount is added.
    In,
    /// Stock issued: the amount is taken away.
    Out,
    /// Stock counted: the amount replaces the stock.
    Adj,
}

/// Why an operation of the ledger was refused.
#[derive(Clone, Copy, Debug, PartialEq, Eq, Structural)]
pub enum LedgerError {
    /// No item of the addressed kind has the addressed id.
    NotFound,
    /// The action tag is none of `in`, `out` and `adj`.
    InvalidActionType,
    /// The amount cannot be applied to the item.
    InvalidAmount,
    /// The unit of a material with recorded movements would change.
    UnitMismatch,
    /// The store cannot take the row.
    StorageError,
}

/// Whether two texts hold the same characters.
pub fn same_text(a: &str, b: &str) -> (r: bool)
    ensures
        r == (a@ == b@),
{
    let left: String = a.to_owned();
    let right: String = b.to_owned();
    left == right
}

impl ItemKind {
    /// The tag under which a kind is stored.
    pub open spec fn tag(self) -> Seq<char> {
        match self {
            ItemKind::Material => "material"@,
            ItemKind::Product => "product"@,
        }
    }

    /// The kind that a tag names, if any.
    pub open spec fn from_tag(tag: Seq<char>) -> Option<ItemKind> {
        if tag == "material"@ {
            Some(ItemKind::Material)
        } else if tag == "product"@ {
            Some(ItemKind::Product)
        } else {
            None
        }
    }

    /// Reads a stored tag.
    pub fn parse(tag: &str) -> (r: Option<ItemKind>)
        ensures
            r == ItemKind::from_tag(tag@),
    {
        if same_text(tag, "material") {
            Some(ItemKind::Material)
        } else if same_text(tag, "product") {
            Some(ItemKind::Product)
        } else {
            None
        }
    }

    /// The tag under which this kind is stored.
    pub fn as_str(&self) -> (r: &'static str)
        ensures
            r@ == self.tag(),
    {
        match self {
            ItemKind::Material => "material",
            ItemKind::Product => "product",
        }
    }
}

impl ActionType {
    /// The tag under which an action is stored.
    pub open spec fn tag(self) -> Seq<char> {
        match self {
            ActionType::In => "in"@,
            ActionType::Out => "out"@,
            ActionType::Adj => "adj"@,
        }
    }

    /// The action that a tag names, if any.
    pub open spec fn from_tag(tag: Seq<char>) -> Option<ActionType> {
        if tag == "in"@ {
            Some(ActionType::In)
        } else if tag == "out"@ {
            Some(ActionType::Out)
        } else if tag == "adj"@ {
            Some(ActionType::Adj)
        } else {
            None
        }
    }

    /// Reads an action tag; any tag but `in`, `out` and `adj` is refused.
    pub fn parse(tag: &str) -> (r: Result<ActionType, LedgerError>)
        ensures
            r == match ActionType::from_tag(tag@) {
                Some(action) => Ok::<ActionType, LedgerError>(action),
                None => Err(LedgerError::InvalidActionType),
            },
    {
        if same_text(tag, "in") {
            Ok(ActionType::In)
        } else if same_text(tag, "out") {
            Ok(ActionType::Out)
        } else if same_text(tag, "adj") {
            Ok(ActionType::Adj)
        } else {
            Err(LedgerError::InvalidActionType)
        }
    }

    /// The tag under which this action is stored.
    pub fn as_str(&self) -> (r: &'static str)
        ensures
            r@ == self.tag(),
    {
        match self {
            ActionType::In => "in",
            ActionType::Out => "out",
            ActionType::Adj => "adj",
        }
    }
}

impl LedgerError {
    /// The text shown for an error.
    pub open spec fn text(self) -> Seq<char> {
        match self {
            LedgerError::NotFound => "item not found"@,
            LedgerError::InvalidActionType => "Invalid action type"@,
            LedgerError::InvalidAmount => "invalid amount"@,
            LedgerError::UnitMismatch => "不能更改已有材料的单位"@,
            LedgerError::StorageError => "storage error"@,
        }
    }

    /// The text shown for this error.
    pub fn message(&self) -> (r: &'static str)
        ensures
            r@ == self.text(),
    {
        match self {
            LedgerError::NotFound => "item not found",
            LedgerError::InvalidActionType => "Invalid action type",
            LedgerError::InvalidAmount => "invalid amount",
            LedgerError::UnitMismatch => "不能更改已有材料的单位",
            LedgerError::StorageError => "storage error",
        }
    }
}

} // verus!
