//! Monetary quantities.

use vstd::prelude::*;

verus! {

/// A monetary quantity in minor units (cents, for example). Amounts are
/// exact integers; a negative amount is a debt or an outflow.
#[derive(Debug, Clone, Copy, PartialEq, Eq, Structural)]
pub struct Amount(i64);

impl View for Amount {
    type V = int;

    /// The number of minor units.
    closed spec fn view(&self) -> int {
        self.0 as int
    }
}

impl Amount {
    /// The amount of `minor_units` minor units.
    pub fn new(minor_units: i64) -> (amount: Amount)
        ensures
            amount@ == minor_units,
    {
        Amount(minor_units)
    }

    /// The number of minor units.
    pub fn value(&self) -> (minor_units: i64)
        ensures
            minor_units == self@,
    {
        self.0
    }

    /// Whether the amount is greater than zero.
    pub fn is_positive(&self) -> (positive: bool)
        ensures
            positive == (self@ > 0),
    {
        self.0 > 0
    }
}

} // verus!
