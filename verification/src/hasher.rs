//! A family of seeded murmur3 hash functions mapping a byte string to bit
//! indices.

use vstd::prelude::*;

verus! {

/// The 32-bit murmur3 digest of a byte string under a seed.
pub uninterp spec fn murmur3_32_of(item: Seq<u8>, seed: u32) -> u32;

/// The longest byte string the filter hashes: the digest keeps its processed
/// byte count in 32 bits, so an item must stay under 2^32 bytes.
pub const MAX_ITEM_LEN_BYTES: u64 = 0x1_0000_0000;

/// Relies on murmur3's `murmur3_32`: the 32-bit digest of the bytes read from
/// the source, a pure function of the byte string and the seed. Reading from
/// an in-memory cursor over a slice cannot fail, so the call never returns an
/// error. The function counts the bytes it has read in a `u32`, so the item
/// must stay under 2^32 bytes, which the precondition holds; past it the
/// count overflows and the call can panic.
#[verifier::external_body]
fn murmur_digest(item: &[u8], seed: u32) -> (r: u32)
    requires
        item@.len() < MAX_ITEM_LEN_BYTES,
    ensures
        r == murmur3_32_of(item@, seed),
{
    murmur3::murmur3_32(&mut std::io::Cursor::new(item), seed).unwrap_or(0)
}

/// The bit index a single seeded hash assigns to a byte string in an array of
/// `len` bits: the digest reduced modulo the array length.
pub open spec fn hash_index(item: Seq<u8>, seed: u32, len: nat) -> nat {
    if len == 0 {
        0
    } else {
        (murmur3_32_of(item, seed) as nat) % len
    }
}

/// A list of hash seeds together with the length of the bit array the hash
/// results are reduced into.
pub struct Hasher {
    pub(crate) filter_bits_len: usize,
    pub(crate) hash_seeds: Vec<u32>,
}

impl Hasher {
    /// The seed list, in hash-function order.
    pub open(crate) spec fn seeds(&self) -> Seq<u32> {
        self.hash_seeds@
    }

    /// The bit-array length the hash results are reduced into.
    pub open(crate) spec fn bits_len(&self) -> usize {
        self.filter_bits_len
    }

    /// A hasher never reduces into an empty array: when it holds any seed at
    /// all, the array length is positive.
    #[verifier::type_invariant]
    spec fn wf(&self) -> bool {
        self.hash_seeds@.len() > 0 ==> self.filter_bits_len > 0
    }

    /// Package a seed list with the bit-array length it will be reduced into.
    pub fn new(filter_bits_len: usize, hash_seeds: Vec<u32>) -> (r: Self)
        requires
            hash_seeds@.len() > 0 ==> filter_bits_len > 0,
        ensures
            r.seeds() == hash_seeds@,
            r.bits_len() == filter_bits_len,
    {
        Hasher { filter_bits_len, hash_seeds }
    }

    /// Apply every hash function to the input and return the bit index each
    /// one produces, in seed order. Every index is strictly below the bit
    /// array length, so a lookup at it can never fall out of range. The item
    /// must stay under the digest's [`MAX_ITEM_LEN_BYTES`] size limit.
    pub fn hash_indexes(&self, item: &[u8]) -> (r: Vec<usize>)
        requires
            item@.len() < MAX_ITEM_LEN_BYTES,
        ensures
            r@.len() == self.seeds().len(),
            forall|i: int|
                0 <= i < r@.len() ==> r@[i] == hash_index(
                    item@,
                    self.seeds()[i],
                    self.bits_len() as nat,
                ) && r@[i] < self.bits_len(),
    {
        proof {
            use_type_invariant(self);
        }
        let mut out: Vec<usize> = Vec::new();
        let n = self.hash_seeds.len();
        let mut k: usize = 0;
        while k < n
            invariant
                item@.len() < MAX_ITEM_LEN_BYTES,
                n == self.seeds().len(),
                k <= n,
                n > 0 ==> self.filter_bits_len > 0,
                out@.len() == k,
                forall|i: int|
                    0 <= i < k ==> out@[i] == hash_index(
                        item@,
                        self.seeds()[i],
                        self.filter_bits_len as nat,
                    ) && out@[i] < self.filter_bits_len,
            decreases n - k,
        {
            let seed = self.hash_seeds[k];
            let digest = murmur_digest(item, seed);
            let idx = (digest as usize) % self.filter_bits_len;
            out.push(idx);
            k = k + 1;
        }
        out
    }
}

} // verus!
