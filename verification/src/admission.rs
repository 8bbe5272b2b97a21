//! Admission of sandbox instances: a count of the instances that are live
//! on a host, held under the host's capacity.

use vstd::prelude::*;

verus! {

/// The slots of a host. A sandbox instance takes a slot before it is made
/// and gives it back when it is gone.
#[derive(Debug, Clone, Copy, PartialEq, Eq, Structural)]
pub struct Admission {
    /// The most instances that may be live at once
    pub capacity: usize,
    /// The instances that are live now
    pub live: usize,
}

impl Admission {
    /// No more instances are live than the host has slots.
    pub open spec fn wf(&self) -> bool {
        self.live <= self.capacity
    }

    /// Returns the admission of a host with `capacity` slots, all free.
    pub fn new(capacity: usize) -> (admission: Admission)
        ensures
            admission.wf(),
            admission.capacity == capacity,
            admission.live == 0,
    {
        Admission { capacity, live: 0 }
    }

    /// Returns the number of free slots.
    pub fn available(&self) -> (free: usize)
        requires
            self.wf(),
        ensures
            free == self.capacity - self.live,
    {
        self.capacity - self.live
    }

    /// Takes a slot if one is free, and returns whether it did. A caller
    /// that got none waits and tries again.
    pub fn try_acquire(&mut self) -> (admitted: bool)
        requires
            old(self).wf(),
        ensures
            final(self).wf(),
            final(self).capacity == old(self).capacity,
            admitted == (old(self).live < old(self).capacity),
            final(self).live == if admitted {
                old(self).live + 1
            } else {
                old(self).live as int
            },
    {
        if self.live < self.capacity {
            self.live = self.live + 1;
            true
        } else {
            false
        }
    }

    /// Gives a slot back. Where no instance is live nothing changes.
    pub fn release(&mut self)
        requires
            old(self).wf(),
        ensures
            final(self).wf(),
            final(self).capacity == old(self).capacity,
            final(self).live == if old(self).live > 0 {
                old(self).live - 1
            } else {
                0
            },
    {
        if self.live > 0 {
            self.live = self.live - 1;
        }
    }
}

} // verus!
