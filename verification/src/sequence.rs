//! A monotonically increasing sequence counter.
use vstd::prelude::*;

verus! {

/// A sequence counter.
#[derive(Clone, Copy, Debug, PartialEq, Eq)]
pub struct Sequence(pub u64);

impl Sequence {
    /// The current counter value.
    pub fn value(&self) -> (r: u64)
        ensures
            r == self.0,
    {
        self.0
    }

    /// Increment the counter and return its previous state.
    pub fn fetch_add(&mut self) -> (previous: Sequence)
        requires
            old(self).0 < u64::MAX,
        ensures
            previous == *old(self),
            final(self).0 == old(self).0 + 1,
    {
        let previous = *self;
        self.0 = self.0 + 1;
        previous
    }

    /// Increment the counter and return its new value.
    pub fn next_value(&mut self) -> (r: u64)
        requires
            old(self).0 < u64::MAX,
        ensures
            final(self).0 == old(self).0 + 1,
            r == final(self).0,
    {
        let _ = self.fetch_add();
        self.value()
    }

    /// Whether this counter is below `other`.
    pub fn lt(&self, other: &Sequence) -> (r: bool)
        ensures
            r == (self.0 < other.0),
    {
        self.0 < other.0
    }

    /// Whether this counter is at most `other`.
    pub fn le(&self, other: &Sequence) -> (r: bool)
        ensures
            r == (self.0 <= other.0),
    {
        self.0 <= other.0
    }
}

} // verus!
