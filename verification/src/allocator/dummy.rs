//! An allocator that owns no memory.

use vstd::prelude::*;

verus! {

/// An allocator that never has a block to give.
pub struct Dummy;

impl Dummy {
    /// Accepts a heap region and makes no use of it.
    pub fn init(&mut self, _heap_start: u64, _heap_size: u64)
        ensures
            *final(self) == *old(self),
    {
    }

    /// Always reports that no memory is left.
    pub fn allocate(&self, _size: u64, _align: u64) -> (block: Option<u64>)
        ensures
            block is None,
    {
        None
    }
}

} // verus!
