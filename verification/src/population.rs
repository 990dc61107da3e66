//! Population registry: the single gate on spawning.
//!
//! Tracks the live hostile count against a hard cap. The count is
//! incremented with each successful spawn and returns to zero only on the
//! bulk reset; no per-entity despawn path exists.

use vstd::prelude::*;

verus! {

/// Live hostile count against its configured cap.
#[derive(Clone, Copy, PartialEq, Eq, Structural, Debug)]
pub struct ChaserCount {
    pub current: u32,
    pub max: u32,
}

impl ChaserCount {
    /// The count never exceeds the cap.
    pub open spec fn wf(self) -> bool {
        self.current <= self.max
    }

    pub fn new(current: u32, max: u32) -> (c: ChaserCount)
        requires
            current <= max,
        ensures
            c.current == current,
            c.max == max,
            c.wf(),
    {
        ChaserCount { current, max }
    }

    /// Whether the cap is reached and spawning must stand still.
    pub fn at_max(&self) -> (r: bool)
        ensures
            r == (self.current >= self.max),
    {
        self.current >= self.max
    }
}

} // verus!
