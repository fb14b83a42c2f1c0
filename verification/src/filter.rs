//! The finished filter and the plain snapshot of it that a serialization
//! layer consumes.

use vstd::prelude::*;

use crate::bits::{bit_array_bits, packed_bytes, BitArray};
use crate::builder::{BadFilterParameters, BloomFilterBuilder, MAX_FILTER_SIZE_BYTES};
use crate::hasher::{hash_index, Hasher, MAX_ITEM_LEN_BYTES};

verus! {

/// Bloom filter fields exposed for serialization: a plain snapshot with no
/// behavior of its own.
#[derive(Debug, Clone)]
pub struct BloomFilterData {
    /// Bloom filter byte array.
    pub v_data: Vec<u8>,
    /// Number of hash functions used.
    pub n_hash_funcs: u32,
    /// Hash functions initialization adjustment.
    pub n_tweak: u32,
    /// Auxiliary flag value carried for the protocol layer.
    pub n_flags: u32,
}

/// Whether seed number `i` of the family maps the item to a set bit of the
/// array; an index at or past the length reads as a cleared bit.
pub open spec fn seed_bit_set(bits: Seq<bool>, seeds: Seq<u32>, item: Seq<u8>, i: int) -> bool {
    hash_index(item, seeds[i], bits.len()) < bits.len() && bits[hash_index(
        item,
        seeds[i],
        bits.len(),
    ) as int]
}

/// Whether every seed of the family maps the item to a set bit of the array.
pub open spec fn element_present(bits: Seq<bool>, seeds: Seq<u32>, item: Seq<u8>) -> bool {
    forall|i: int| 0 <= i < seeds.len() ==> #[trigger] seed_bit_set(bits, seeds, item, i)
}

/// BIP-37 Bloom filter: an immutable bit array with the hasher, tweak and
/// flags it was built with.
pub struct BloomFilter {
    pub(crate) filter_bits: BitArray,
    pub(crate) n_tweak: u32,
    pub(crate) n_flags: u32,
    pub(crate) hasher: Hasher,
}

impl BloomFilter {
    /// The finished bit array.
    pub open(crate) spec fn bits(&self) -> Seq<bool> {
        bit_array_bits(self.filter_bits)
    }

    /// The hash-seed family the filter queries with.
    pub open(crate) spec fn seeds(&self) -> Seq<u32> {
        self.hasher.hash_seeds@
    }

    /// The tweak the filter was built with.
    pub open(crate) spec fn tweak(&self) -> u32 {
        self.n_tweak
    }

    /// The flags value recorded at finalization.
    pub open(crate) spec fn flags(&self) -> u32 {
        self.n_flags
    }

    /// The shape a finished filter keeps from its builder: the hasher reduces
    /// into exactly the bits held, the array is whole bytes under the size
    /// ceiling, and the seed count fits the wire representation's `u32`.
    #[verifier::type_invariant]
    pub(crate) open spec fn wf(&self) -> bool {
        &&& self.hasher.filter_bits_len == bit_array_bits(self.filter_bits).len()
        &&& bit_array_bits(self.filter_bits).len() % 8 == 0
        &&& bit_array_bits(self.filter_bits).len() < MAX_FILTER_SIZE_BYTES * 8
        &&& self.hasher.hash_seeds@.len() <= u32::MAX
        &&& (self.hasher.hash_seeds@.len() > 0 ==> bit_array_bits(self.filter_bits).len() > 0)
    }

    /// Get a new builder with a tweak of zero; see
    /// [`BloomFilterBuilder::new`].
    pub fn builder(optimal_size_bits: u64, n_hashes: u32) -> (r: Result<
        BloomFilterBuilder,
        BadFilterParameters,
    >)
        requires
            n_hashes > 0 ==> optimal_size_bits > 0,
        ensures
            match r {
                Ok(b) => {
                    &&& (optimal_size_bits + 7) / 8 < MAX_FILTER_SIZE_BYTES
                    &&& b.bits() == crate::bits::zeroed_bits(
                        (8 * ((optimal_size_bits + 7) / 8)) as nat,
                    )
                    &&& b.seeds() == crate::builder::seeds_seq(n_hashes, 0)
                    &&& b.tweak() == 0
                },
                Err(_) => (optimal_size_bits + 7) / 8 >= MAX_FILTER_SIZE_BYTES,
            },
    {
        BloomFilterBuilder::new(optimal_size_bits, n_hashes)
    }

    /// Get a new builder with the given tweak; see
    /// [`BloomFilterBuilder::new_n_tweak`].
    pub fn builder_n_tweak(optimal_size_bits: u64, n_hashes: u32, n_tweak: u32) -> (r: Result<
        BloomFilterBuilder,
        BadFilterParameters,
    >)
        requires
            n_hashes > 0 ==> optimal_size_bits > 0,
        ensures
            match r {
                Ok(b) => {
                    &&& (optimal_size_bits + 7) / 8 < MAX_FILTER_SIZE_BYTES
                    &&& b.bits() == crate::bits::zeroed_bits(
                        (8 * ((optimal_size_bits + 7) / 8)) as nat,
                    )
                    &&& b.seeds() == crate::builder::seeds_seq(n_hashes, n_tweak)
                    &&& b.tweak() == n_tweak
                },
                Err(_) => (optimal_size_bits + 7) / 8 >= MAX_FILTER_SIZE_BYTES,
            },
    {
        BloomFilterBuilder::new_n_tweak(optimal_size_bits, n_hashes, n_tweak)
    }

    /// Check if the filter possibly contains the item: true exactly when
    /// every seeded hash lands on a set bit. A lookup never aborts the query;
    /// an out-of-range index (impossible by construction) would read as a
    /// cleared bit. The item must stay under the digest's
    /// [`MAX_ITEM_LEN_BYTES`] size limit.
    pub fn probably_contains(&self, item: &[u8]) -> (r: bool)
        requires
            item@.len() < MAX_ITEM_LEN_BYTES,
        ensures
            r == element_present(self.bits(), self.seeds(), item@),
    {
        proof {
            use_type_invariant(self);
        }
        let indexes = self.hasher.hash_indexes(item);
        let mut k: usize = 0;
        while k < indexes.len()
            invariant
                k <= indexes@.len(),
                indexes@.len() == self.seeds().len(),
                self.hasher.filter_bits_len == self.bits().len(),
                forall|i: int|
                    0 <= i < indexes@.len() ==> indexes@[i] == hash_index(
                        item@,
                        self.seeds()[i],
                        self.bits().len(),
                    ),
                forall|i: int| 0 <= i < k ==> #[trigger] seed_bit_set(
                    self.bits(),
                    self.seeds(),
                    item@,
                    i,
                ),
            decreases indexes@.len() - k,
        {
            if !self.filter_bits.get_or_false(indexes[k]) {
                proof {
                    assert(!seed_bit_set(self.bits(), self.seeds(), item@, k as int));
                }
                return false;
            }
            k = k + 1;
        }
        true
    }

    /// The plain snapshot of the filter: the byte-packed bit array, the
    /// hash-function count, the tweak and the flags, for a collaborator to
    /// encode into a wire format.
    pub fn data(self) -> (r: BloomFilterData)
        ensures
            r.v_data@ == packed_bytes(self.bits()),
            r.n_hash_funcs == self.seeds().len(),
            r.n_tweak == self.tweak(),
            r.n_flags == self.flags(),
    {
        proof {
            use_type_invariant(&self);
        }
        let BloomFilter { filter_bits, n_tweak, n_flags, hasher } = self;
        let n_hash_funcs = hasher.hash_seeds.len() as u32;
        BloomFilterData { v_data: filter_bits.into_bytes(), n_hash_funcs, n_tweak, n_flags }
    }
}

impl From<BloomFilter> for BloomFilterData {
    /// The snapshot conversion in trait form; its exact contract is stated
    /// on [`BloomFilter::data`], which this calls.
    fn from(bloom_filter: BloomFilter) -> (r: Self) {
        bloom_filter.data()
    }
}

impl vstd::std_specs::convert::FromSpecImpl<BloomFilter> for BloomFilterData {
    open spec fn obeys_from_spec() -> bool {
        false
    }

    open spec fn from_spec(v: BloomFilter) -> Self {
        vstd::pervasive::arbitrary()
    }
}

} // verus!
