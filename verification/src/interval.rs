//! A single contiguous token lock attributable to one governance vote.

use vstd::prelude::*;

verus! {

/// One lock interval: the UTC instants it begins and expires at, and the
/// locked amount in base units.
#[derive(Clone, Copy, Debug, PartialEq, Eq, Structural)]
pub struct LockedInterval {
    pub start_at: i64,
    pub end_at: i64,
    pub amount: u128,
}

impl LockedInterval {
    /// Well-formedness: the lock cannot expire before it begins.  (The
    /// amount is a non-negative integer by type.)
    pub open spec fn wf(self) -> bool {
        self.start_at <= self.end_at
    }

    /// Whether the interval touches the closed time range
    /// `[start, end]`.
    pub fn overlaps_with(&self, start: i64, end: i64) -> (r: bool)
        ensures
            r == !(self.end_at < start || self.start_at > end),
    {
        !(self.end_at < start || self.start_at > end)
    }
}

} // verus!
