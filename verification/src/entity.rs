//! Identities of the things in a world.

use vstd::prelude::*;

verus! {

/// The identity of a thing in a world: a number that is given out once.
/// The number is private: an identity is made only from the count of the
/// counter that hands identities out, which lives with the program.
#[derive(Debug, Clone, Copy, PartialEq, Eq, Hash, Structural)]
pub struct WorldId(u64);

impl WorldId {
    /// The number of the identity.
    pub closed spec fn spec_value(&self) -> u64 {
        self.0
    }

    /// The identity that a counter at `count` gives out; the counter is
    /// then to move past it.
    pub fn from_count(count: u64) -> (id: WorldId)
        ensures
            id.spec_value() == count,
    {
        WorldId(count)
    }

    /// The number of the identity.
    pub fn value(&self) -> (value: u64)
        ensures
            value == self.spec_value(),
    {
        self.0
    }
}

/// Identities with different numbers are different, and the same number
/// gives the same identity.
pub proof fn lemma_ids_by_number(a: WorldId, b: WorldId)
    ensures
        (a == b) == (a.spec_value() == b.spec_value()),
{
}

} // verus!
