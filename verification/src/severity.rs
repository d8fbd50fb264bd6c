//! The six severity levels and their order.

use std::cmp::Ordering;
use vstd::prelude::*;
use vstd::std_specs::cmp::PartialOrdSpecImpl;

verus! {

/// How verbose a sink is allowed to be. The levels are ordered from `Off`,
/// which lets nothing through, to `Trace`, which lets everything through.
#[derive(Debug, Clone, Copy, PartialEq, Eq, Structural, Hash)]
pub enum SeverityLevel {
    Off,
    Error,
    Warn,
    Info,
    Debug,
    Trace,
}

impl SeverityLevel {
    /// The place of the level in the order: 0 for `Off` up to 5 for `Trace`.
    pub open spec fn rank(self) -> nat {
        match self {
            SeverityLevel::Off => 0,
            SeverityLevel::Error => 1,
            SeverityLevel::Warn => 2,
            SeverityLevel::Info => 3,
            SeverityLevel::Debug => 4,
            SeverityLevel::Trace => 5,
        }
    }

    /// How `self` stands to `other` in the order of the levels.
    pub open spec fn order(self, other: SeverityLevel) -> Ordering {
        if self.rank() < other.rank() {
            Ordering::Less
        } else if self.rank() == other.rank() {
            Ordering::Equal
        } else {
            Ordering::Greater
        }
    }

    /// The place of the level in the order, as a number.
    pub fn verbosity(&self) -> (r: u8)
        ensures
            r == self.rank(),
    {
        match self {
            SeverityLevel::Off => 0,
            SeverityLevel::Error => 1,
            SeverityLevel::Warn => 2,
            SeverityLevel::Info => 3,
            SeverityLevel::Debug => 4,
            SeverityLevel::Trace => 5,
        }
    }
}

impl PartialOrdSpecImpl for SeverityLevel {
    open spec fn obeys_partial_cmp_spec() -> bool {
        true
    }

    open spec fn partial_cmp_spec(&self, other: &SeverityLevel) -> Option<Ordering> {
        Some(self.order(*other))
    }
}

impl PartialOrd for SeverityLevel {
    fn partial_cmp(&self, other: &SeverityLevel) -> (r: Option<Ordering>) {
        let a = self.verbosity();
        let b = other.verbosity();
        if a < b {
            Some(Ordering::Less)
        } else if a == b {
            Some(Ordering::Equal)
        } else {
            Some(Ordering::Greater)
        }
    }
}

/// The order of the levels is total: two levels of the same rank are the same
/// level, and of two different levels exactly one is the lower.
pub proof fn lemma_levels_totally_ordered(a: SeverityLevel, b: SeverityLevel)
    ensures
        a.rank() == b.rank() <==> a == b,
        a.order(b) == Ordering::Less <==> b.order(a) == Ordering::Greater,
        a.order(b) == Ordering::Equal <==> a == b,
        SeverityLevel::Off.rank() < SeverityLevel::Error.rank() < SeverityLevel::Warn.rank()
            < SeverityLevel::Info.rank() < SeverityLevel::Debug.rank()
            < SeverityLevel::Trace.rank(),
{
}

} // verus!
