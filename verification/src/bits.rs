//! The packed bit array that backs a filter.
//!
//! The storage is bitvec's `BitVec<u8>`, held in a field Verus does not look
//! into; verified code reaches it only through the few trusted functions
//! below, whose contracts speak of the sequence of boolean flags the vector
//! holds.

use vstd::prelude::*;

verus! {

/// A growable array of bits, packed eight to a byte in bitvec's `Lsb0` order:
/// bit `i` lives in byte `i / 8` at weight `2^(i % 8)`. Every value of this
/// type starts at bit zero of byte zero: `repeat_false` is its only
/// constructor and builds an aligned vector, and setting bits never moves the
/// span, so the packing above holds of the underlying storage as is.
#[verifier::external_body]
pub struct BitArray {
    bits: bitvec::vec::BitVec<u8, bitvec::order::Lsb0>,
}

/// What a bit array holds: one boolean flag per bit position, in index order.
pub uninterp spec fn bit_array_bits(v: BitArray) -> Seq<bool>;

impl BitArray {
    /// Relies on bitvec's `BitVec::repeat`: a fresh vector of `len` copies of
    /// the given bit, here all `false`.
    #[verifier::external_body]
    pub(crate) fn repeat_false(len: usize) -> (r: Self)
        ensures
            bit_array_bits(r) == Seq::new(len as nat, |i: int| false),
    {
        BitArray { bits: bitvec::vec::BitVec::repeat(false, len) }
    }

    /// Relies on bitvec's `BitSlice::len`: the number of live bits.
    #[verifier::external_body]
    pub(crate) fn len(&self) -> (r: usize)
        ensures
            r == bit_array_bits(*self).len(),
    {
        self.bits.len()
    }

    /// Relies on bitvec's `BitSlice::set`: writes one bit in place and leaves
    /// the rest alone; it panics on an index at or past the length, which the
    /// precondition rules out.
    #[verifier::external_body]
    pub(crate) fn set_true(&mut self, i: usize)
        requires
            i < bit_array_bits(*old(self)).len(),
        ensures
            bit_array_bits(*final(self)) == bit_array_bits(*old(self)).update(i as int, true),
    {
        self.bits.set(i, true);
    }

    /// Relies on bitvec's `BitSlice::get`: `Some` of the bit for an index
    /// under the length, `None` past it, read here as `false`.
    #[verifier::external_body]
    pub(crate) fn get_or_false(&self, i: usize) -> (r: bool)
        ensures
            r == (i < bit_array_bits(*self).len() && bit_array_bits(*self)[i as int]),
    {
        self.bits.get(i).as_deref().copied().unwrap_or(false)
    }

    /// Relies on bitvec's `BitVec::into_vec`: hands back the underlying `u8`
    /// storage, which for the `Lsb0` ordering packs bit `i` into byte `i / 8`
    /// at weight `2^(i % 8)`; with a bit count that is a multiple of eight,
    /// the live bits describe every stored byte in full.
    #[verifier::external_body]
    pub(crate) fn into_bytes(self) -> (r: Vec<u8>)
        requires
            bit_array_bits(self).len() % 8 == 0,
        ensures
            r@ == packed_bytes(bit_array_bits(self)),
    {
        self.bits.into_vec()
    }
}

/// The weight a flag contributes to its byte.
pub open spec fn bit_weight(b: bool, w: u8) -> u8 {
    if b {
        w
    } else {
        0u8
    }
}

/// Byte `j` of the packed form: eight flags, least significant bit first.
pub open spec fn byte_from(bits: Seq<bool>, j: int) -> u8 {
    (bit_weight(bits[8 * j], 1) + bit_weight(bits[8 * j + 1], 2) + bit_weight(bits[8 * j + 2], 4)
        + bit_weight(bits[8 * j + 3], 8) + bit_weight(bits[8 * j + 4], 16) + bit_weight(
        bits[8 * j + 5],
        32,
    ) + bit_weight(bits[8 * j + 6], 64) + bit_weight(bits[8 * j + 7], 128)) as u8
}

/// The byte-packed form of a bit sequence whose length is a multiple of eight.
pub open spec fn packed_bytes(bits: Seq<bool>) -> Seq<u8> {
    Seq::new(bits.len() / 8, |j: int| byte_from(bits, j))
}

/// A sequence of `len` cleared flags: the state of a freshly built filter.
pub open spec fn zeroed_bits(len: nat) -> Seq<bool> {
    Seq::new(len, |i: int| false)
}

} // verus!
