//! The generation counter of a particle field. Its parity picks which of the
//! two buffers holds the current state; a pass reads that buffer and writes
//! the other.

use vstd::prelude::*;

verus! {

/// A counter that starts at zero and only ever grows by one.
#[derive(Clone, Copy, PartialEq, Eq, Structural, Debug)]
pub struct Generation {
    count: u64,
}

impl Generation {
    pub closed spec fn value(&self) -> u64 {
        self.count
    }

    /// The first generation.
    pub fn new() -> (r: Generation)
        ensures
            r.value() == 0,
    {
        Generation { count: 0 }
    }

    pub fn get(&self) -> (r: u64)
        ensures
            r == self.value(),
    {
        self.count
    }

    /// The buffer that holds the current state, which a pass reads and the
    /// render stage draws.
    pub fn read_slot(&self) -> (r: usize)
        ensures
            r == self.value() % 2,
            r < 2,
    {
        (self.count % 2) as usize
    }

    /// The buffer that the next pass writes.
    pub fn write_slot(&self) -> (r: usize)
        ensures
            r == (self.value() + 1) % 2,
            r < 2,
            r != self.value() % 2,
    {
        (1 - self.count % 2) as usize
    }

    /// Counts one completed pass.
    pub fn advance(&mut self)
        requires
            old(self).value() < u64::MAX,
        ensures
            final(self).value() == old(self).value() + 1,
            final(self).value() % 2 == (old(self).value() + 1) % 2,
    {
        self.count = self.count + 1;
    }
}

} // verus!
