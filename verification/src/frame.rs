//! Wire representation of a single modem frame.
//!
//! A frame is `[start][length][command][payload...][checksum lsb][checksum
//! msb]`; the checksum is the 16-bit wraparound sum of the command byte,
//! the length byte and every payload byte, each zero-extended before
//! summing. Wire compatibility depends on the exact wraparound.

use vstd::prelude::*;
use vstd::arithmetic::div_mod::{lemma_add_mod_noop, lemma_small_mod};

use crate::payload::Payload;

verus! {

/// Sum of a byte sequence, as an unbounded integer.
pub open spec fn sum_bytes(data: Seq<u8>) -> int
    decreases data.len(),
{
    if data.len() == 0 {
        0
    } else {
        sum_bytes(data.drop_last()) + data.last()
    }
}

pub proof fn lemma_sum_bytes_nonneg(data: Seq<u8>)
    ensures
        sum_bytes(data) >= 0,
    decreases data.len(),
{
    if data.len() > 0 {
        lemma_sum_bytes_nonneg(data.drop_last());
    }
}

/// The frame checksum: 16-bit wraparound sum of command, length and the
/// payload bytes.
pub open spec fn checksum_spec(command: u8, length: u8, data: Seq<u8>) -> u16 {
    (((command + length + sum_bytes(data)) % 0x10000) as u16)
}

/// Appending one byte adds it to the running sum.
pub proof fn lemma_sum_bytes_push(data: Seq<u8>, b: u8)
    ensures
        sum_bytes(data.push(b)) == sum_bytes(data) + b,
{
    assert(data.push(b).drop_last() =~= data);
}

/// The sum can also be peeled from the front.
pub proof fn lemma_sum_bytes_front(data: Seq<u8>)
    requires
        data.len() > 0,
    ensures
        sum_bytes(data) == data[0] + sum_bytes(data.skip(1)),
    decreases data.len(),
{
    if data.len() == 1 {
        assert(data.drop_last() =~= Seq::<u8>::empty());
        assert(data.skip(1) =~= Seq::<u8>::empty());
    } else {
        lemma_sum_bytes_front(data.drop_last());
        assert(data.drop_last()[0] == data[0]);
        assert(data.drop_last().skip(1) =~= data.skip(1).drop_last());
        assert(data.skip(1).last() == data.last());
        assert(sum_bytes(data.skip(1)) == sum_bytes(data.skip(1).drop_last()) + data.skip(1).last());
    }
}

/// A single frame: start byte, announced length, command code, payload
/// and the 16-bit checksum field as constructed or as received.
pub struct Frame {
    pub stx: u8,
    pub length: u8,
    pub command: u8,
    pub data: Payload,
    pub checksum: u16,
}

/// Ghost image of a frame, with the payload as a plain byte sequence.
#[verifier::ext_equal]
pub ghost struct FrameV {
    pub stx: u8,
    pub length: u8,
    pub command: u8,
    pub data: Seq<u8>,
    pub checksum: u16,
}

impl View for Frame {
    type V = FrameV;

    open spec fn view(&self) -> FrameV {
        FrameV {
            stx: self.stx,
            length: self.length,
            command: self.command,
            data: self.data@,
            checksum: self.checksum,
        }
    }
}

impl FrameV {
    /// A frame is consistent when the announced length matches the
    /// payload and the checksum field holds the sum over its bytes.
    pub open spec fn wf(self) -> bool {
        &&& self.data.len() == self.length
        &&& self.checksum == checksum_spec(self.command, self.length, self.data)
    }
}

impl Frame {
    /// Build a frame from its fields, computing and storing the checksum.
    pub fn new(stx: u8, length: u8, command: u8, data: Payload) -> (r: Frame)
        requires
            data@.len() == length,
        ensures
            r@ == (FrameV {
                stx,
                length,
                command,
                data: data@,
                checksum: checksum_spec(command, length, data@),
            }),
            r@.wf(),
    {
        let checksum = Self::calc_checksum(command, length, &data);
        Frame { stx, length, command, data, checksum }
    }

    /// The 16-bit wraparound sum of command, length and the payload
    /// bytes.
    pub fn calc_checksum(command: u8, length: u8, data: &Payload) -> (r: u16)
        requires
            data@.len() == length,
        ensures
            r == checksum_spec(command, length, data@),
    {
        let n = data.len();
        let s0: u32 = command as u32 + length as u32;
        let mut acc: u16 = (s0 % 0x10000) as u16;
        proof {
            lemma_small_mod((command + length) as nat, 0x10000);
            assert(data@.take(0) =~= Seq::<u8>::empty());
        }
        let mut i: usize = 0;
        while i < n
            invariant
                i <= n,
                n == data@.len(),
                acc == (command + length + sum_bytes(data@.take(i as int))) % 0x10000,
            decreases n - i,
        {
            let b = data.byte_at(i);
            let s: u32 = acc as u32 + b as u32;
            let next: u16 = (s % 0x10000) as u16;
            proof {
                let base = command + length + sum_bytes(data@.take(i as int));
                lemma_sum_bytes_nonneg(data@.take(i as int));
                lemma_add_mod_noop(base, b as int, 0x10000);
                lemma_small_mod(b as nat, 0x10000);
                assert(data@.take(i + 1).drop_last() =~= data@.take(i as int));
                assert(sum_bytes(data@.take(i + 1)) == sum_bytes(data@.take(i as int)) + data@[i as int]);
            }
            acc = next;
            i = i + 1;
        }
        proof {
            assert(data@.take(n as int) =~= data@);
        }
        acc
    }

    /// Recompute the checksum over the frame's current fields, for
    /// validating a received frame against its checksum field.
    pub fn checksum(&self) -> (r: u16)
        requires
            self.data@.len() == self.length,
        ensures
            r == checksum_spec(self.command, self.length, self.data@),
    {
        Self::calc_checksum(self.command, self.length, &self.data)
    }

    /// Reset the frame to the empty default.
    pub fn clear(&mut self)
        ensures
            final(self)@ == (FrameV { stx: 0, length: 0, command: 0, data: Seq::<u8>::empty(), checksum: 0 }),
    {
        *self = Frame::empty();
    }

    /// The all-zero frame with an empty payload.
    pub fn empty() -> (r: Frame)
        ensures
            r@ == (FrameV { stx: 0, length: 0, command: 0, data: Seq::<u8>::empty(), checksum: 0 }),
    {
        Frame { stx: 0, length: 0, command: 0, data: Payload::new(), checksum: 0 }
    }

    /// A field-for-field copy of this frame.
    pub fn duplicate(&self) -> (r: Frame)
        ensures
            r@ == self@,
    {
        Frame {
            stx: self.stx,
            length: self.length,
            command: self.command,
            data: self.data.duplicate(),
            checksum: self.checksum,
        }
    }
}

impl Default for Frame {
    /// The default frame is all zero with an empty payload.
    fn default() -> (r: Self)
        ensures
            r@ == (FrameV { stx: 0, length: 0, command: 0, data: Seq::<u8>::empty(), checksum: 0 }),
    {
        Frame::empty()
    }
}

/// The checksum is a function of command, length and payload alone:
/// recomputing it over the same fields always yields the same value.
pub proof fn lemma_checksum_deterministic(c1: u8, l1: u8, d1: Seq<u8>, c2: u8, l2: u8, d2: Seq<u8>)
    requires
        c1 == c2,
        l1 == l2,
        d1 == d2,
    ensures
        checksum_spec(c1, l1, d1) == checksum_spec(c2, l2, d2),
{
}

/// Changing one payload byte shifts the sum by the difference of the
/// bytes.
pub proof fn lemma_sum_bytes_update(data: Seq<u8>, i: int, b: u8)
    requires
        0 <= i < data.len(),
    ensures
        sum_bytes(data.update(i, b)) == sum_bytes(data) - data[i] + b,
    decreases data.len(),
{
    if i == data.len() - 1 {
        assert(data.update(i, b).drop_last() =~= data.drop_last());
        assert(data.update(i, b).last() == b);
    } else {
        lemma_sum_bytes_update(data.drop_last(), i, b);
        assert(data.update(i, b).drop_last() =~= data.drop_last().update(i, b));
        assert(data.update(i, b).last() == data.last());
    }
}

/// Flipping a single bit of one payload byte always changes the
/// checksum: the sum moves by less than the 16-bit modulus, so the
/// wraparound cannot cancel the change.
pub proof fn lemma_checksum_detects_single_bit_flip(command: u8, length: u8, data: Seq<u8>, i: int, bit: u8)
    requires
        0 <= i < data.len(),
        bit < 8,
    ensures
        checksum_spec(command, length, data.update(i, data[i] ^ (1u8 << bit)))
            != checksum_spec(command, length, data),
{
    let x = data[i];
    assert((x ^ (1u8 << bit)) != x) by (bit_vector)
        requires
            bit < 8,
    ;
    let flipped = (data[i] ^ (1u8 << bit)) as u8;
    lemma_sum_bytes_update(data, i, flipped);
    let s = command + length + sum_bytes(data);
    let s2 = command + length + sum_bytes(data.update(i, flipped));
    assert(s2 == s - data[i] + flipped);
    let delta = flipped - data[i];
    assert(-0x100 < delta < 0x100);
    assert(delta != 0);
    lemma_sum_bytes_nonneg(data);
    lemma_sum_bytes_nonneg(data.update(i, flipped));
    if s % 0x10000 == s2 % 0x10000 {
        vstd::arithmetic::div_mod::lemma_mod_equivalence(s2, s, 0x10000);
        assert((s2 - s) % 0x10000 == 0);
        assert(s2 - s == delta);
        if delta > 0 {
            lemma_small_mod(delta as nat, 0x10000);
        } else {
            vstd::arithmetic::div_mod::lemma_mod_add_multiples_vanish(delta, 0x10000);
            lemma_small_mod((delta + 0x10000) as nat, 0x10000);
        }
        assert(false);
    }
}

} // verus!
