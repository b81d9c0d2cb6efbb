//! Occupancy accounting for a bounded queue.
//!
//! Each queue is guarded by a counter of reserved slots. A submitter first
//! reserves a slot optimistically — increment, then check the value seen
//! before the increment — and rolls the increment back when the queue was
//! already at its bound, so an occupancy counter never stays above the
//! bound it was checked against.

use vstd::prelude::*;

verus! {

/// Counts the slots of one queue that are reserved or occupied.
pub struct SlotCounter {
    count: usize,
}

/// What `try_reserve` does to a counter at `count` with bound `max`:
/// the new count, and whether the reservation was kept.
pub open spec fn reserve_outcome(count: nat, max: nat) -> (nat, bool) {
    if count >= max {
        (count, false)
    } else {
        ((count + 1) as nat, true)
    }
}

impl SlotCounter {
    /// The number of reserved slots.
    pub closed spec fn view(&self) -> nat {
        self.count as nat
    }

    /// A fresh counter with no reservations.
    pub fn new() -> (c: SlotCounter)
        ensures
            c@ == 0,
    {
        SlotCounter { count: 0 }
    }

    /// The current occupancy.
    pub fn occupancy(&self) -> (n: usize)
        ensures
            n == self@,
    {
        self.count
    }

    /// Reserves one slot against the bound `max`: the counter is
    /// incremented first; when the value before the increment was already
    /// at or above `max`, the increment is rolled back and the reservation
    /// is refused.
    pub fn try_reserve(&mut self, max: usize) -> (ok: bool)
        requires
            old(self)@ < usize::MAX,
        ensures
            (final(self)@, ok) == reserve_outcome(old(self)@, max as nat),
    {
        let before = self.count;
        self.count = self.count + 1;
        if before >= max {
            self.count = self.count - 1;
            false
        } else {
            true
        }
    }

    /// Gives one reserved slot back: on a pop, or to roll back a
    /// reservation that was not consumed.
    pub fn release_slot(&mut self)
        requires
            old(self)@ > 0,
        ensures
            final(self)@ == old(self)@ - 1,
    {
        self.count = self.count - 1;
    }
}

/// A counter at or under its bound stays at or under it across a
/// reservation attempt, and an attempt on a counter at or above the bound
/// is refused and leaves the counter as it was.
pub proof fn lemma_reserve_bounded(count: nat, max: nat)
    ensures
        count <= max ==> reserve_outcome(count, max).0 <= max,
        count >= max ==> !reserve_outcome(count, max).1 && reserve_outcome(count, max).0 == count,
{
}

} // verus!
