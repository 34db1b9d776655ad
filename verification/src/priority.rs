//! Scheduling priorities and the fairness weight each one carries.

use crate::time::Span;
use vstd::prelude::*;

verus! {

/// Priority of a process. A higher priority weighs runtime less, so the
/// process is chosen earlier.
#[derive(Clone, Copy, Debug, PartialEq, Eq, Structural, PartialOrd, Ord, Hash)]
pub enum Priority {
    Low,
    Normal,
    High,
}

/// Weight of the low priority.
pub const LOW_WEIGHT: u64 = 64;

/// Weight of the normal priority.
pub const NORMAL_WEIGHT: u64 = 16;

/// Weight of the high priority.
pub const HIGH_WEIGHT: u64 = 4;

/// The factor by which runtime counts for a process of priority `p`.
pub open spec fn weight_of(p: Priority) -> nat {
    match p {
        Priority::Low => 64,
        Priority::Normal => 16,
        Priority::High => 4,
    }
}

/// Position of `p` in the order Low < Normal < High.
pub open spec fn rank_of(p: Priority) -> nat {
    match p {
        Priority::Low => 0,
        Priority::Normal => 1,
        Priority::High => 2,
    }
}

/// Runtime weighted by priority: the measure the scheduler keeps fair.
pub open spec fn fair_runtime(runtime: nat, p: Priority) -> nat {
    runtime * weight_of(p)
}

impl Priority {
    pub const LOW: Priority = Priority::Low;

    pub const NORMAL: Priority = Priority::Normal;

    pub const HIGH: Priority = Priority::High;

    /// The fairness weight.
    pub fn weight(self) -> (r: u64)
        ensures
            r == weight_of(self),
            weight_of(Priority::High) * 4 <= weight_of(Priority::Normal),
            weight_of(Priority::Normal) * 4 <= weight_of(Priority::Low),
    {
        match self {
            Priority::Low => LOW_WEIGHT,
            Priority::Normal => NORMAL_WEIGHT,
            Priority::High => HIGH_WEIGHT,
        }
    }

    /// Position in the order Low < Normal < High.
    pub fn rank(self) -> (r: u8)
        ensures
            r == rank_of(self),
    {
        match self {
            Priority::Low => 0,
            Priority::Normal => 1,
            Priority::High => 2,
        }
    }

    /// `runtime` weighted by this priority.
    pub fn fair(self, runtime: Span) -> (r: u128)
        ensures
            r == fair_runtime(runtime@, self),
            r <= u64::MAX * 64,
    {
        let w: u64 = self.weight();
        assert(runtime.0 as nat * w as nat <= u64::MAX * 64) by (nonlinear_arith)
            requires
                w <= 64,
                runtime.0 <= u64::MAX,
        ;
        (runtime.0 as u128) * (w as u128)
    }
}

impl Default for Priority {
    fn default() -> (r: Priority)
        ensures
            r == Priority::Normal,
    {
        Priority::Normal
    }
}

impl core::ops::Mul<Priority> for Span {
    type Output = u128;

    fn mul(self, rhs: Priority) -> (r: u128) {
        rhs.fair(self)
    }
}

impl vstd::std_specs::ops::MulSpecImpl<Priority> for Span {
    open spec fn obeys_mul_spec() -> bool {
        true
    }

    open spec fn mul_req(self, rhs: Priority) -> bool {
        true
    }

    open spec fn mul_spec(self, rhs: Priority) -> u128 {
        fair_runtime(self@, rhs) as u128
    }
}

} // verus!
