//! Bit vectors backed by the `bitvec` crate.

use bitvec::vec::BitVec;
use vstd::prelude::*;

verus! {

/// A growable vector of bits, stored in a `bitvec::vec::BitVec`.
#[verifier::external_body]
pub struct Bits {
    inner: BitVec,
}

/// The bits held by a [`Bits`], in index order.
pub uninterp spec fn bits_of(b: Bits) -> Seq<bool>;

/// Calls `bitvec`'s `BitVec::new`: no bits.
#[verifier::external_body]
pub(crate) fn bitvec_new() -> (b: Bits)
    ensures
        bits_of(b) == Seq::<bool>::empty(),
{
    Bits { inner: BitVec::new() }
}

/// Calls `bitvec`'s `BitVec::repeat`: `len` copies of `bit`. The crate panics
/// above `usize::MAX >> 3` bits, which `requires` leaves out.
#[verifier::external_body]
pub(crate) fn bitvec_repeat(bit: bool, len: usize) -> (b: Bits)
    requires
        len <= usize::MAX >> 3usize,
    ensures
        bits_of(b) == Seq::new(len as nat, |i: int| bit),
{
    Bits { inner: BitVec::repeat(bit, len) }
}

/// Calls `bitvec`'s `BitVec::push`: appends one bit. The crate panics when the
/// length would pass `usize::MAX >> 3`, which `requires` leaves out.
#[verifier::external_body]
pub(crate) fn bitvec_push(b: &mut Bits, bit: bool)
    requires
        bits_of(*old(b)).len() < usize::MAX >> 3usize,
    ensures
        bits_of(*final(b)) == bits_of(*old(b)).push(bit),
{
    b.inner.push(bit)
}

/// Calls `bitvec`'s `BitVec::len`: the number of bits held.
#[verifier::external_body]
pub(crate) fn bitvec_len(b: &Bits) -> (n: usize)
    ensures
        n == bits_of(*b).len(),
{
    b.inner.len()
}

/// Reads one bit through `bitvec`'s `Index<usize>`, which panics out of range;
/// `requires` keeps the index in range.
#[verifier::external_body]
pub(crate) fn bitvec_get(b: &Bits, index: usize) -> (bit: bool)
    requires
        index < bits_of(*b).len(),
    ensures
        bit == bits_of(*b)[index as int],
{
    b.inner[index]
}

/// Calls `bitvec`'s `BitSlice::set`, which writes one bit and panics out of
/// range; `requires` keeps the index in range.
#[verifier::external_body]
pub(crate) fn bitvec_set(b: &mut Bits, index: usize, bit: bool)
    requires
        index < bits_of(*old(b)).len(),
    ensures
        bits_of(*final(b)) == bits_of(*old(b)).update(index as int, bit),
{
    b.inner.set(index, bit)
}

/// The largest number of bits a [`Bits`] may hold.
pub open spec fn max_bits() -> nat {
    (usize::MAX >> 3usize) as nat
}

impl Bits {
    /// No bits.
    pub fn new() -> (b: Bits)
        ensures
            bits_of(b) == Seq::<bool>::empty(),
    {
        bitvec_new()
    }

    /// The given bits, in order.
    pub fn from_bools(values: &[bool]) -> (b: Bits)
        requires
            values@.len() <= max_bits(),
        ensures
            bits_of(b) == values@,
    {
        let mut b = bitvec_new();
        let n = values.len();
        for i in 0..n
            invariant
                n == values@.len(),
                n <= max_bits(),
                bits_of(b) == values@.subrange(0, i as int),
        {
            bitvec_push(&mut b, values[i]);
            assert(values@.subrange(0, i + 1) == values@.subrange(0, i as int).push(values@[i as int]));
        }
        assert(values@.subrange(0, n as int) == values@);
        b
    }

    /// Appends one bit.
    pub fn push(&mut self, bit: bool)
        requires
            bits_of(*old(self)).len() < max_bits(),
        ensures
            bits_of(*final(self)) == bits_of(*old(self)).push(bit),
    {
        bitvec_push(self, bit)
    }

    /// The number of bits held.
    pub fn len(&self) -> (n: usize)
        ensures
            n == bits_of(*self).len(),
    {
        bitvec_len(self)
    }

    /// The bit at `index`.
    pub fn get(&self, index: usize) -> (bit: bool)
        requires
            index < bits_of(*self).len(),
        ensures
            bit == bits_of(*self)[index as int],
    {
        bitvec_get(self, index)
    }
}

} // verus!
