//! Allocation of request identifiers.

use vstd::prelude::*;

verus! {

/// Largest identifier the protocol admits: two to the power of 53.
pub const MAX_ID: u64 = 9007199254740992;

/// The identifier that follows `last` in the allocation sequence.
pub open spec fn successor(last: u64) -> u64 {
    if last < MAX_ID {
        (last + 1) as u64
    } else {
        1
    }
}

/// The sequence of identifiers rises by one at each step up to the largest
/// admissible identifier, after which it begins again at 1; it never leaves
/// the admissible range.
pub proof fn lemma_successor(last: u64)
    ensures
        1 <= successor(last) <= MAX_ID,
        last < MAX_ID ==> successor(last) == last + 1,
        last >= MAX_ID ==> successor(last) == 1,
{
}

/// Hands out request identifiers in increasing order, starting at 1 and
/// returning to 1 after the largest admissible identifier.
pub struct IdAllocator {
    last: u64,
}

impl IdAllocator {
    /// The identifier handed out most recently, or 0 before the first one.
    pub closed spec fn last(&self) -> u64 {
        self.last
    }

    /// An allocator that has handed out nothing.
    pub fn new() -> (r: Self)
        ensures
            r.last() == 0,
    {
        IdAllocator { last: 0 }
    }

    /// An allocator that goes on after a given identifier.
    pub fn starting_after(last: u64) -> (r: Self)
        ensures
            r.last() == last,
    {
        IdAllocator { last }
    }

    /// Produces the next identifier.
    pub fn next(&mut self) -> (id: u64)
        ensures
            id == successor(old(self).last()),
            final(self).last() == id,
            1 <= id <= MAX_ID,
    {
        let id: u64 = if self.last < MAX_ID {
            self.last + 1
        } else {
            1
        };
        self.last = id;
        id
    }
}

} // verus!
