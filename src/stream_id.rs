use vstd::prelude::*;

verus! {

/// Hands out the IDs of client-initiated bidirectional streams: 0, 4, 8 and
/// so on.
pub struct StreamIdAllocator {
    id: u64,
}

impl View for StreamIdAllocator {
    type V = u64;

    /// The ID that the allocator hands out next.
    closed spec fn view(&self) -> u64 {
        self.id
    }
}

impl Default for StreamIdAllocator {
    fn default() -> (r: StreamIdAllocator)
        ensures
            r@ == 0,
    {
        StreamIdAllocator { id: 0 }
    }
}

impl StreamIdAllocator {
    /// Returns the next ID and moves on to the one after it.
    pub fn take_next_id(&mut self) -> (r: u64)
        requires
            old(self)@ + 4 <= u64::MAX,
        ensures
            r == old(self)@,
            final(self)@ == old(self)@ + 4,
    {
        let old_id = self.id;
        self.id = self.id + 4;
        old_id
    }

    /// The next ID, without taking it.
    pub fn peek_next_id(&self) -> (r: u64)
        ensures
            r == self@,
    {
        self.id
    }
}

} // verus!
