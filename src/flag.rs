//! A boolean cell shared between the host-facing bridge and the published
//! bus object. Every access is sequentially consistent.

use std::sync::atomic::{AtomicBool, Ordering};
use std::sync::Arc;
use vstd::prelude::*;

verus! {

/// What one swap of a flag observed: the value it replaced and the value it wrote.
#[derive(Clone, Copy, Debug, PartialEq, Eq, Structural)]
pub struct FlagUpdate {
    pub previous: bool,
    pub current: bool,
}

impl FlagUpdate {
    /// The swap was an actual transition, so bus peers are owed a
    /// property-change notification.
    pub open spec fn changed(self) -> bool {
        self.previous != self.current
    }

    /// Whether peers must be told of this transition.
    pub fn is_change(&self) -> (r: bool)
        ensures
            r == self.changed(),
    {
        self.previous != self.current
    }
}

/// Two swaps made in a row: the second one observes what the first one wrote.
pub open spec fn in_a_row(first: FlagUpdate, second: FlagUpdate) -> bool {
    second.previous == first.current
}

/// A jointly owned atomic boolean. Clones made with `share` refer to the same cell.
pub struct BoolFlag {
    cell: Arc<AtomicBool>,
}

impl BoolFlag {
    /// A fresh cell holding `value`.
    pub fn new(value: bool) -> (r: BoolFlag) {
        BoolFlag { cell: Arc::new(AtomicBool::new(value)) }
    }

    /// A second handle on the same cell.
    pub fn share(&self) -> (r: BoolFlag)
        ensures
            r == *self,
    {
        BoolFlag { cell: Arc::clone(&self.cell) }
    }

    /// Reads the current value.
    pub fn load(&self) -> (r: bool) {
        self.cell.load(Ordering::SeqCst)
    }

    /// Writes `state` and reports the value it replaced. Another owner may
    /// write at any time, so the replaced value is whatever the cell held at
    /// the instant of the swap.
    pub fn swap(&self, state: bool) -> (u: FlagUpdate)
        ensures
            u.current == state,
            u.changed() == (u.previous != state),
    {
        let previous = self.cell.swap(state, Ordering::SeqCst);
        FlagUpdate { previous, current: state }
    }
}

/// Writing the same value twice in a row produces at most one transition:
/// the second swap never changes the flag, and when the flag already held the
/// value neither swap does.
pub proof fn lemma_repeated_write_changes_once(first: FlagUpdate, second: FlagUpdate)
    requires
        in_a_row(first, second),
        second.current == first.current,
    ensures
        !second.changed(),
        first.previous == first.current ==> !first.changed() && !second.changed(),
        (if first.changed() { 1int } else { 0int }) + (if second.changed() { 1int } else { 0int }) <= 1,
{
}

} // verus!
