//! Exact decimal quantities with three fractional digits.

use vstd::prelude::*;

verus! {

/// A signed amount counted in thousandths of an item's unit.
///
/// The value is stored as the largest whole number not above it, plus the
/// thousandths that remain: minus two and a half is `-3` and `500`.
#[derive(Clone, Copy, Debug, PartialEq, Eq, Structural)]
pub struct Quantity {
    pub(crate) whole: i64,
    pub(crate) fraction: u16,
}

/// Whether a number of thousandths can be held by a `Quantity`.
pub open spec fn representable(thousandths: int) -> bool {
    i64::MIN * 1000 <= thousandths < (i64::MAX + 1) * 1000
}

impl View for Quantity {
    type V = int;

    /// The amount in thousandths.
    closed spec fn view(&self) -> int {
        self.whole * 1000 + self.fraction
    }
}

impl Quantity {
    /// The invariant of the type: the fraction is less than a whole unit.
    #[verifier::type_invariant]
    pub closed spec fn well_formed(self) -> bool {
        self.fraction < 1000
    }

    /// The amount zero.
    pub fn zero() -> (q: Quantity)
        ensures
            q@ == 0,
    {
        Quantity { whole: 0, fraction: 0 }
    }

    /// A whole number of units.
    pub fn from_whole(units: i64) -> (q: Quantity)
        ensures
            q@ == units * 1000,
    {
        Quantity { whole: units, fraction: 0 }
    }

    /// `whole` units plus `thousandths` thousandths, if the latter is below one unit.
    pub fn from_parts(whole: i64, thousandths: u16) -> (r: Option<Quantity>)
        ensures
            r.is_some() <==> thousandths < 1000,
            r matches Some(q) ==> q@ == whole * 1000 + thousandths,
    {
        if thousandths < 1000 {
            Some(Quantity { whole, fraction: thousandths })
        } else {
            None
        }
    }

    /// The largest whole number of units not above the amount.
    pub fn whole_part(&self) -> (w: i64)
        ensures
            w * 1000 <= self@ < w * 1000 + 1000,
    {
        proof {
            use_type_invariant(self);
        }
        self.whole
    }

    /// The thousandths by which the amount exceeds `whole_part`.
    pub fn fraction_part(&self) -> (f: u16)
        ensures
            f < 1000,
            f == self@ % 1000,
    {
        proof {
            use_type_invariant(self);
            assert((self.whole * 1000 + self.fraction) % 1000 == self.fraction as int) by (nonlinear_arith)
                requires 0 <= self.fraction < 1000;
        }
        self.fraction
    }

    /// Whether the amount is a whole number of units.
    pub fn is_whole(&self) -> (b: bool)
        ensures
            b == (self@ % 1000 == 0),
    {
        self.fraction_part() == 0
    }

    /// Whether the amount is below zero.
    pub fn is_negative(&self) -> (b: bool)
        ensures
            b == (self@ < 0),
    {
        proof {
            use_type_invariant(self);
        }
        self.whole < 0
    }

    /// Whether the amount is above zero.
    pub fn is_positive(&self) -> (b: bool)
        ensures
            b == (self@ > 0),
    {
        proof {
            use_type_invariant(self);
        }
        self.whole > 0 || (self.whole == 0 && self.fraction > 0)
    }

    /// Every quantity holds a representable amount.
    pub proof fn lemma_representable(self)
        requires
            self.well_formed(),
        ensures
            representable(self@),
    {
    }

    /// The sum of two amounts, unless it cannot be represented.
    pub fn checked_add(self, other: Quantity) -> (r: Option<Quantity>)
        ensures
            r.is_some() <==> representable(self@ + other@),
            r matches Some(q) ==> q@ == self@ + other@,
    {
        proof {
            use_type_invariant(self);
            use_type_invariant(other);
        }
        let low: u16 = self.fraction + other.fraction;
        let carry: i128 = if low >= 1000 { 1 } else { 0 };
        let fraction: u16 = if low >= 1000 { low - 1000 } else { low };
        let whole: i128 = self.whole as i128 + other.whole as i128 + carry;
        if whole < i64::MIN as i128 || whole > i64::MAX as i128 {
            None
        } else {
            Some(Quantity { whole: whole as i64, fraction })
        }
    }

    /// The amount with its sign turned, unless it cannot be represented.
    pub fn checked_neg(self) -> (r: Option<Quantity>)
        ensures
            r.is_some() <==> representable(-self@),
            r matches Some(q) ==> q@ == -self@,
    {
        Quantity::zero().checked_sub(self)
    }

    /// The difference of two amounts, unless it cannot be represented.
    pub fn checked_sub(self, other: Quantity) -> (r: Option<Quantity>)
        ensures
            r.is_some() <==> representable(self@ - other@),
            r matches Some(q) ==> q@ == self@ - other@,
    {
        proof {
            use_type_invariant(self);
            use_type_invariant(other);
        }
        let borrow: i128 = if self.fraction < other.fraction { 1 } else { 0 };
        let fraction: u16 = if self.fraction < other.fraction {
            self.fraction + 1000 - other.fraction
        } else {
            self.fraction - other.fraction
        };
        let whole: i128 = self.whole as i128 - other.whole as i128 - borrow;
        if whole < i64::MIN as i128 || whole > i64::MAX as i128 {
            None
        } else {
            Some(Quantity { whole: whole as i64, fraction })
        }
    }
}

} // verus!
