//! Time-bound descriptors, part of the public vocabulary hosts use to gate
//! actions on a time window.

use vstd::prelude::*;

verus! {

/// On which side of its timestamp a [`TimeBound`] is satisfied.
#[derive(Clone, Copy, Debug, PartialEq, Eq, Structural)]
pub enum TimeBoundKind {
    /// Satisfied at or before the timestamp.
    Before,
    /// Satisfied at or after the timestamp.
    After,
}

/// A one-sided bound on the clock, in the same unit as campaign deadlines.
#[derive(Clone, Copy, Debug, PartialEq, Eq, Structural)]
pub struct TimeBound {
    pub kind: TimeBoundKind,
    pub timestamp: u64,
}

} // verus!
