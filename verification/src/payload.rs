//! Bounded payload buffer backing a frame's data bytes.
//!
//! The buffer is a fixed-capacity vector of at most 255 bytes, the
//! largest payload a one-byte length field can announce. The storage is
//! `heapless::Vec`, the allocation-free vector the rest of the stack's
//! queues build on; its handful of primitive operations are trusted
//! against the crate's source, and everything above them is verified
//! against the byte-sequence view.

use vstd::prelude::*;

verus! {

#[verifier::external_type_specification]
#[verifier::external_body]
#[verifier::reject_recursive_types(T)]
pub struct ExHeaplessVec<T, const N: usize>(heapless::Vec<T, N>);

/// The bytes a payload buffer holds, in order.
pub uninterp spec fn buf_bytes(v: heapless::Vec<u8, 255>) -> Seq<u8>;

/// A frame payload: up to 255 bytes in a fixed-capacity buffer.
pub struct Payload {
    pub buf: heapless::Vec<u8, 255>,
}

impl View for Payload {
    type V = Seq<u8>;

    open spec fn view(&self) -> Seq<u8> {
        buf_bytes(self.buf)
    }
}

impl Payload {
    /// Relies on heapless::Vec::new: constructs an empty vector.
    #[verifier::external_body]
    pub fn new() -> (r: Payload)
        ensures
            buf_bytes(r.buf) == Seq::<u8>::empty(),
    {
        Payload { buf: heapless::Vec::new() }
    }

    /// Relies on heapless::Vec::len: the number of elements held, which
    /// can never exceed the capacity of 255.
    #[verifier::external_body]
    pub fn len(&self) -> (r: usize)
        ensures
            r == self@.len(),
            r <= 255,
    {
        self.buf.len()
    }

    /// Relies on heapless::Vec::push: appends when not full, hands the
    /// byte back untouched when full.
    #[verifier::external_body]
    pub fn push(&mut self, b: u8) -> (r: bool)
        ensures
            old(self)@.len() < 255 ==> r && final(self)@ == old(self)@.push(b),
            old(self)@.len() >= 255 ==> !r && final(self)@ == old(self)@,
    {
        self.buf.push(b).is_ok()
    }

    /// Relies on the indexing that heapless::Vec derefs to: the element
    /// at `i`.
    #[verifier::external_body]
    pub fn byte_at(&self, i: usize) -> (r: u8)
        requires
            i < self@.len(),
        ensures
            r == self@[i as int],
    {
        self.buf[i]
    }

    /// Relies on heapless::Vec::clear: removes all elements.
    #[verifier::external_body]
    pub fn clear(&mut self)
        ensures
            final(self)@ == Seq::<u8>::empty(),
    {
        self.buf.clear()
    }

    /// Relies on heapless::Vec::clone: copies the elements in order.
    #[verifier::external_body]
    pub fn duplicate(&self) -> (r: Payload)
        ensures
            r@ == self@,
    {
        Payload { buf: self.buf.clone() }
    }

    /// Build a payload from at most 255 plain bytes.
    pub fn from_vec(bytes: &Vec<u8>) -> (r: Option<Payload>)
        ensures
            match r {
                Some(p) => bytes@.len() <= 255 && p@ == bytes@,
                None => bytes@.len() > 255,
            },
    {
        if bytes.len() > 255 {
            return None;
        }
        let mut p = Payload::new();
        let mut i: usize = 0;
        while i < bytes.len()
            invariant
                i <= bytes@.len(),
                bytes@.len() <= 255,
                p@ == bytes@.take(i as int),
            decreases bytes@.len() - i,
        {
            let ok = p.push(bytes[i]);
            assert(ok);
            i = i + 1;
            assert(p@ =~= bytes@.take(i as int));
        }
        assert(p@ =~= bytes@);
        Some(p)
    }

    /// The payload's bytes as a plain vector.
    pub fn to_vec(&self) -> (r: Vec<u8>)
        ensures
            r@ == self@,
    {
        let mut out: Vec<u8> = Vec::new();
        let n = self.len();
        let mut i: usize = 0;
        while i < n
            invariant
                i <= n,
                n == self@.len(),
                out@ == self@.take(i as int),
            decreases n - i,
        {
            out.push(self.byte_at(i));
            i = i + 1;
            assert(out@ =~= self@.take(i as int));
        }
        assert(out@ =~= self@);
        out
    }

    /// A copy of this payload with `header` put in front of its bytes.
    pub fn with_prefix(&self, header: u8) -> (r: Option<Payload>)
        ensures
            match r {
                Some(p) => self@.len() < 255 && p@ == seq![header] + self@,
                None => self@.len() >= 255,
            },
    {
        let n = self.len();
        if n >= 255 {
            return None;
        }
        let mut p = Payload::new();
        let ok = p.push(header);
        assert(ok);
        let mut i: usize = 0;
        while i < n
            invariant
                i <= n,
                n == self@.len(),
                n < 255,
                p@ == seq![header] + self@.take(i as int),
            decreases n - i,
        {
            let ok2 = p.push(self.byte_at(i));
            assert(ok2);
            i = i + 1;
            assert(p@ =~= seq![header] + self@.take(i as int));
        }
        assert(p@ =~= seq![header] + self@);
        Some(p)
    }

    /// A copy of this payload with the first `start` bytes dropped.
    pub fn drop_prefix(&self, start: usize) -> (r: Payload)
        requires
            start <= self@.len(),
        ensures
            r@ == self@.skip(start as int),
    {
        let n = self.len();
        let mut p = Payload::new();
        let mut i: usize = start;
        while i < n
            invariant
                start <= i <= n,
                n == self@.len(),
                n <= 255,
                p@ == self@.subrange(start as int, i as int),
            decreases n - i,
        {
            let ok = p.push(self.byte_at(i));
            assert(ok);
            i = i + 1;
            assert(p@ =~= self@.subrange(start as int, i as int));
        }
        assert(p@ =~= self@.skip(start as int));
        p
    }
}

} // verus!
