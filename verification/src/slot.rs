//! Two-entry byte queues carrying the line-status byte and the ack/nak
//! byte from the interrupt-level codec to the transmit sequencer.
//!
//! The storage is `heapless::mpmc::MpMcQueue`, the lock-free queue the
//! firmware uses so the interrupt context can hand single bytes to task
//! code without blocking; its two operations are trusted against the
//! crate's source and everything above them is verified over the queued
//! byte sequence.

use vstd::prelude::*;

verus! {

#[verifier::external_type_specification]
#[verifier::external_body]
#[verifier::reject_recursive_types(T)]
pub struct ExMpMcQueue<T, const N: usize>(heapless::mpmc::MpMcQueue<T, N>);

/// The bytes a two-entry slot queue holds, oldest first.
pub uninterp spec fn slot_bytes(q: heapless::mpmc::MpMcQueue<u8, 2>) -> Seq<u8>;

/// A two-entry FIFO of single bytes.
pub struct ByteSlot {
    pub q: heapless::mpmc::MpMcQueue<u8, 2>,
}

impl View for ByteSlot {
    type V = Seq<u8>;

    open spec fn view(&self) -> Seq<u8> {
        slot_bytes(self.q)
    }
}

impl ByteSlot {
    /// Relies on heapless::mpmc::MpMcQueue::new: creates an empty queue.
    #[verifier::external_body]
    pub(crate) fn new() -> (r: ByteSlot)
        ensures
            slot_bytes(r.q) == Seq::<u8>::empty(),
    {
        ByteSlot { q: heapless::mpmc::MpMcQueue::new() }
    }

    /// Relies on heapless::mpmc::MpMcQueue::enqueue: adds at the end,
    /// hands the byte back when the two entries are occupied.
    #[verifier::external_body]
    pub(crate) fn enqueue(&mut self, b: u8) -> (r: bool)
        ensures
            old(self)@.len() < 2 ==> r && final(self)@ == old(self)@.push(b),
            old(self)@.len() >= 2 ==> !r && final(self)@ == old(self)@,
    {
        self.q.enqueue(b).is_ok()
    }

    /// Relies on heapless::mpmc::MpMcQueue::dequeue: returns the front
    /// byte, or nothing when empty.
    #[verifier::external_body]
    pub(crate) fn dequeue(&mut self) -> (r: Option<u8>)
        ensures
            old(self)@.len() == 0 ==> r is None && final(self)@ == old(self)@,
            old(self)@.len() > 0 ==> r == Some(old(self)@[0])
                && final(self)@ == old(self)@.skip(1),
    {
        self.q.dequeue()
    }
}

} // verus!
