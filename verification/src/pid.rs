//! Process identifiers.

use crate::text::{decimal, decimal_digits};
use vstd::prelude::*;

verus! {

/// Identifier of a process within one worker. Equal identifiers name the
/// same process; the order is that of the numbers and means nothing more.
#[derive(Clone, Copy, Debug, PartialEq, Eq, Structural, PartialOrd, Ord, Hash)]
pub struct ProcessId(pub usize);

impl View for ProcessId {
    type V = nat;

    open spec fn view(&self) -> nat {
        self.0 as nat
    }
}

impl ProcessId {
    /// The identifier written in decimal.
    pub fn to_string(&self) -> (r: String)
        ensures
            r@ == decimal_digits(self@),
    {
        decimal(self.0 as u64)
    }

    /// Whether this identifier is the lower one.
    pub fn is_before(&self, other: &ProcessId) -> (r: bool)
        ensures
            r == (self@ < other@),
    {
        self.0 < other.0
    }
}

} // verus!
