//! The reusable staging area for outbound payloads and inbound reads.

use vstd::prelude::*;

verus! {

/// The bytes that a staging area of `size` bytes holds after a resize from
/// `before`: what was there stays, as far as it fits, and the rest is zero.
pub open spec fn resized(before: Seq<u8>, size: nat) -> Seq<u8> {
    Seq::new(
        size,
        |i: int|
            if i < before.len() {
                before[i]
            } else {
                0u8
            },
    )
}

/// A byte area that is resized for each message and read from an offset.
///
/// The backing bytes are open to the host, which writes outbound payloads into
/// them and reads inbound bytes into them directly.
#[derive(Debug)]
pub struct Buffer {
    /// The backing bytes.
    pub data_buffer: Vec<u8>,
    /// Where the next read of the buffer starts.
    pub data_offset: usize,
    /// Allocations larger than this are handed back once they are not needed.
    pub reclaim_threshold: usize,
}

/// `Vec::capacity`: how many bytes the vector can hold without reallocating.
/// The contract claims only that the length fits in it; the number itself is
/// the allocator's choice.
#[verifier::external_body]
fn allocated(bytes: &Vec<u8>) -> (cap: usize)
    ensures
        cap >= bytes@.len(),
{
    bytes.capacity()
}

/// `Vec::shrink_to_fit`: hands unused capacity back. The contract claims that
/// the contents stay as they are.
#[verifier::external_body]
fn reclaim(bytes: &mut Vec<u8>)
    ensures
        final(bytes)@ == old(bytes)@,
{
    bytes.shrink_to_fit()
}

impl Buffer {
    /// The bytes held, as a sequence.
    pub open spec fn view(&self) -> Seq<u8> {
        self.data_buffer@
    }

    /// An empty buffer with its read offset at the start.
    pub fn new(reclaim_threshold: usize) -> (buffer: Buffer)
        ensures
            buffer@ == Seq::<u8>::empty(),
            buffer.data_offset == 0,
            buffer.reclaim_threshold == reclaim_threshold,
    {
        Buffer { data_buffer: Vec::new(), data_offset: 0, reclaim_threshold }
    }

    /// Makes the buffer exactly `size` bytes long. Bytes already there stay,
    /// as far as they fit; new bytes are zero. An allocation above the reclaim
    /// threshold that the new size does not fill is handed back.
    pub fn resize_buffer(&mut self, size: usize)
        ensures
            final(self)@ == resized(old(self)@, size as nat),
            final(self).data_offset == old(self).data_offset,
            final(self).reclaim_threshold == old(self).reclaim_threshold,
    {
        let held: usize = allocated(&self.data_buffer);
        self.data_buffer.resize(size, 0u8);
        if held > self.reclaim_threshold && size < held {
            reclaim(&mut self.data_buffer);
        }
        assert(self@ =~= resized(old(self)@, size as nat));
    }

    /// Puts the read offset back at the start of the data.
    pub fn reset_offset(&mut self)
        ensures
            final(self)@ == old(self)@,
            final(self).data_offset == 0,
            final(self).reclaim_threshold == old(self).reclaim_threshold,
    {
        self.data_offset = 0;
    }
}

} // verus!
