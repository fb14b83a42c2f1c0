//! The mutable phase of a filter's life: size checking, seed generation and
//! element insertion, ending in a finalized [`crate::BloomFilter`].

use vstd::prelude::*;

use crate::bits::{bit_array_bits, zeroed_bits, BitArray};
use crate::filter::BloomFilter;
use crate::hasher::{hash_index, Hasher, MAX_ITEM_LEN_BYTES};

verus! {

/// Error type to indicate incompatible Bloom filter parameters.
#[derive(Debug, Clone, Copy, PartialEq, Eq, Structural)]
pub struct BadFilterParameters;

/// The byte ceiling a filter must stay strictly under, bounding the memory
/// and network cost of a filter exchanged between peers.
pub const MAX_FILTER_SIZE_BYTES: usize = 36000;

/// Seed number `i` of the family a tweak selects: the index spread by an odd
/// multiplier and shifted by the tweak, with wraparound arithmetic throughout.
pub open spec fn seed_for(i: u32, n_tweak: u32) -> u32 {
    (((i * 0xFBA4_C795) % 0x1_0000_0000 + n_tweak) % 0x1_0000_0000) as u32
}

/// The whole seed family for a hash-function count and a tweak.
pub open spec fn seeds_seq(n_hashes: u32, n_tweak: u32) -> Seq<u32> {
    Seq::new(n_hashes as nat, |i: int| seed_for(i as u32, n_tweak))
}

/// Whether some seed of the family maps the item to bit `j` of an array of
/// `len` bits.
pub open spec fn set_by_some_seed(seeds: Seq<u32>, item: Seq<u8>, len: nat, j: int) -> bool {
    exists|i: int| 0 <= i < seeds.len() && hash_index(item, seeds[i], len) == j
}

/// The bit array after one element is added: every bit a seed maps the item
/// to is set, every other bit keeps its value.
pub open spec fn bits_with_element(bits: Seq<bool>, seeds: Seq<u32>, item: Seq<u8>) -> Seq<bool> {
    Seq::new(bits.len(), |j: int| bits[j] || set_by_some_seed(seeds, item, bits.len(), j))
}

/// Whether one of the first `count` computed indices is `j`: the bits set so
/// far by a partially processed batch of hash indices.
spec fn marked_by_first(indexes: Seq<usize>, count: int, j: int) -> bool {
    exists|i: int| 0 <= i < count && indexes[i] == j
}

/// Builder structure for a Bloom filter.
pub struct BloomFilterBuilder {
    pub(crate) n_tweak: u32,
    pub(crate) filter_bits: BitArray,
    pub(crate) hasher: Hasher,
}

impl BloomFilterBuilder {
    /// The bit array under construction.
    pub open(crate) spec fn bits(&self) -> Seq<bool> {
        bit_array_bits(self.filter_bits)
    }

    /// The hash-seed family, fixed at construction.
    pub open(crate) spec fn seeds(&self) -> Seq<u32> {
        self.hasher.hash_seeds@
    }

    /// The tweak the builder was created with.
    pub open(crate) spec fn tweak(&self) -> u32 {
        self.n_tweak
    }

    /// The shape every builder has from construction on: the hasher reduces
    /// into exactly the bits held, the array is whole bytes under the size
    /// ceiling, and the seed count fits the wire representation's `u32`.
    #[verifier::type_invariant]
    pub(crate) open spec fn wf(&self) -> bool {
        &&& self.hasher.filter_bits_len == bit_array_bits(self.filter_bits).len()
        &&& bit_array_bits(self.filter_bits).len() % 8 == 0
        &&& bit_array_bits(self.filter_bits).len() < MAX_FILTER_SIZE_BYTES * 8
        &&& self.hasher.hash_seeds@.len() <= u32::MAX
        &&& (self.hasher.hash_seeds@.len() > 0 ==> bit_array_bits(self.filter_bits).len() > 0)
    }

    /// Derive the byte length of the bit array from the optimal bit count
    /// `optimal_size_bits` (the caller evaluates the Bloom-filter size
    /// formula, which takes floating point, and rounds it up to an unsigned
    /// integer): the whole bytes that cover the bits, rounded up. Fails with
    /// [`BadFilterParameters`] exactly when the derived byte length reaches
    /// the hard ceiling of 36 000 bytes.
    pub fn filter_size(optimal_size_bits: u64) -> (r: Result<
        usize,
        BadFilterParameters,
    >)
        ensures
            match r {
                Ok(s) => (optimal_size_bits + 7) / 8 < MAX_FILTER_SIZE_BYTES && s == (
                optimal_size_bits + 7) / 8,
                Err(_) => (optimal_size_bits + 7) / 8 >= MAX_FILTER_SIZE_BYTES,
            },
    {
        let whole = optimal_size_bits / 8;
        let filter_size_bytes = if optimal_size_bits % 8 == 0 {
            whole
        } else {
            whole + 1
        };
        proof {
            assert(filter_size_bytes == (optimal_size_bits + 7) / 8);
        }
        if filter_size_bytes < (MAX_FILTER_SIZE_BYTES as u64) {
            Ok(filter_size_bytes as usize)
        } else {
            Err(BadFilterParameters)
        }
    }

    /// Create a new builder from the optimal bit count and the derived
    /// hash-function count, with a tweak of zero; see [`Self::new_n_tweak`].
    pub fn new(optimal_size_bits: u64, n_hashes: u32) -> (r: Result<
        Self,
        BadFilterParameters,
    >)
        requires
            n_hashes > 0 ==> optimal_size_bits > 0,
        ensures
            match r {
                Ok(b) => {
                    &&& (optimal_size_bits + 7) / 8 < MAX_FILTER_SIZE_BYTES
                    &&& b.bits() == zeroed_bits((8 * ((optimal_size_bits + 7) / 8)) as nat)
                    &&& b.seeds() == seeds_seq(n_hashes, 0)
                    &&& b.tweak() == 0
                },
                Err(_) => (optimal_size_bits + 7) / 8 >= MAX_FILTER_SIZE_BYTES,
            },
    {
        Self::new_n_tweak(optimal_size_bits, n_hashes, 0)
    }

    /// Create a new builder: check the derived size against the ceiling,
    /// generate the seed family the tweak selects, and allocate a zero-filled
    /// bit array of eight bits per derived byte. Fails with
    /// [`BadFilterParameters`] exactly when the size derivation does.
    ///
    /// A hash-function count derived from a zero-size array is zero, so a
    /// caller never pairs a positive `n_hashes` with a zero-byte array.
    pub fn new_n_tweak(optimal_size_bits: u64, n_hashes: u32, n_tweak: u32) -> (r: Result<
        Self,
        BadFilterParameters,
    >)
        requires
            n_hashes > 0 ==> optimal_size_bits > 0,
        ensures
            match r {
                Ok(b) => {
                    &&& (optimal_size_bits + 7) / 8 < MAX_FILTER_SIZE_BYTES
                    &&& b.bits() == zeroed_bits((8 * ((optimal_size_bits + 7) / 8)) as nat)
                    &&& b.seeds() == seeds_seq(n_hashes, n_tweak)
                    &&& b.tweak() == n_tweak
                },
                Err(_) => (optimal_size_bits + 7) / 8 >= MAX_FILTER_SIZE_BYTES,
            },
    {
        let filter_size_bytes = match Self::filter_size(optimal_size_bits) {
            Ok(s) => s,
            Err(e) => {
                return Err(e);
            },
        };

        let mut hash_seeds: Vec<u32> = Vec::new();
        let mut i: u32 = 0;
        while i < n_hashes
            invariant
                i <= n_hashes,
                hash_seeds@.len() == i as nat,
                forall|q: int| 0 <= q < i ==> hash_seeds@[q] == seed_for(q as u32, n_tweak),
            decreases n_hashes - i,
        {
            let seed = i.wrapping_mul(0xFBA4_C795u32).wrapping_add(n_tweak);
            proof {
                assert(seed == seed_for(i, n_tweak));
            }
            hash_seeds.push(seed);
            i = i + 1;
        }
        proof {
            assert(hash_seeds@ =~= seeds_seq(n_hashes, n_tweak));
        }

        let data = BitArray::repeat_false(filter_size_bytes * 8);
        let data_len = data.len();
        let hasher = Hasher::new(data_len, hash_seeds);

        Ok(BloomFilterBuilder { n_tweak, filter_bits: data, hasher })
    }

    /// Add an element to the filter under construction: set the bit behind
    /// every index the hasher maps the element to, and leave every other bit
    /// as it was. Returns the builder itself, so calls chain. The element
    /// must stay under the digest's [`MAX_ITEM_LEN_BYTES`] size limit.
    pub fn add_element(self, element: &[u8]) -> (r: Self)
        requires
            element@.len() < MAX_ITEM_LEN_BYTES,
        ensures
            r.bits() == bits_with_element(self.bits(), self.seeds(), element@),
            r.seeds() == self.seeds(),
            r.tweak() == self.tweak(),
    {
        proof {
            use_type_invariant(&self);
        }
        let BloomFilterBuilder { n_tweak, mut filter_bits, hasher } = self;
        let ghost bits0 = bit_array_bits(filter_bits);
        let indexes = hasher.hash_indexes(element);
        let mut k: usize = 0;
        while k < indexes.len()
            invariant
                k <= indexes@.len(),
                indexes@.len() == hasher.hash_seeds@.len(),
                hasher.filter_bits_len == bits0.len(),
                forall|i: int|
                    0 <= i < indexes@.len() ==> indexes@[i] == hash_index(
                        element@,
                        hasher.hash_seeds@[i],
                        hasher.filter_bits_len as nat,
                    ) && indexes@[i] < hasher.filter_bits_len,
                bit_array_bits(filter_bits).len() == bits0.len(),
                forall|j: int|
                    0 <= j < bits0.len() ==> bit_array_bits(filter_bits)[j] == (bits0[j]
                        || marked_by_first(indexes@, k as int, j)),
            decreases indexes@.len() - k,
        {
            let idx = indexes[k];
            let ghost k0 = k as int;
            let ghost pre = bit_array_bits(filter_bits);
            filter_bits.set_true(idx);
            k = k + 1;
            proof {
                assert forall|j: int|
                    0 <= j < bits0.len() implies bit_array_bits(filter_bits)[j] == (bits0[j]
                    || marked_by_first(indexes@, k as int, j)) by {
                    assert(pre[j] == (bits0[j] || marked_by_first(indexes@, k0, j)));
                    if j == idx {
                        assert(0 <= k0 < k as int && indexes@[k0] == j);
                        assert(marked_by_first(indexes@, k as int, j));
                        assert(bit_array_bits(filter_bits)[j]);
                    } else {
                        assert(bit_array_bits(filter_bits)[j] == pre[j]);
                        if marked_by_first(indexes@, k as int, j) {
                            let i = choose|i: int| 0 <= i < k as int && indexes@[i] == j;
                            assert(0 <= i < k0 && indexes@[i] == j);
                            assert(marked_by_first(indexes@, k0, j));
                        }
                        if marked_by_first(indexes@, k0, j) {
                            let i = choose|i: int| 0 <= i < k0 && indexes@[i] == j;
                            assert(0 <= i < k as int && indexes@[i] == j);
                            assert(marked_by_first(indexes@, k as int, j));
                        }
                    }
                }
            }
        }
        proof {
            assert forall|j: int|
                0 <= j < bits0.len() implies bit_array_bits(filter_bits)[j] == bits_with_element(
                bits0,
                hasher.hash_seeds@,
                element@,
            )[j] by {
                assert(k as int == indexes@.len());
                assert(bit_array_bits(filter_bits)[j] == (bits0[j] || marked_by_first(
                    indexes@,
                    k as int,
                    j,
                )));
                assert(bits_with_element(bits0, hasher.hash_seeds@, element@)[j] == (bits0[j]
                    || set_by_some_seed(hasher.hash_seeds@, element@, bits0.len(), j)));
                if marked_by_first(indexes@, k as int, j) {
                    let i = choose|i: int| 0 <= i < k && indexes@[i] == j;
                    assert(hash_index(element@, hasher.hash_seeds@[i], bits0.len()) == j);
                    assert(set_by_some_seed(hasher.hash_seeds@, element@, bits0.len(), j));
                }
                if set_by_some_seed(hasher.hash_seeds@, element@, bits0.len(), j) {
                    let i = choose|i: int|
                        0 <= i < hasher.hash_seeds@.len() && hash_index(
                            element@,
                            hasher.hash_seeds@[i],
                            bits0.len(),
                        ) == j;
                    assert(indexes@[i] == j);
                    assert(marked_by_first(indexes@, k as int, j));
                }
            }
            assert(bit_array_bits(filter_bits) =~= bits_with_element(
                bits0,
                hasher.hash_seeds@,
                element@,
            ));
        }
        BloomFilterBuilder { n_tweak, filter_bits, hasher }
    }

    /// Finalize the filter: move the bit array and the hasher unchanged into
    /// an immutable [`BloomFilter`], with a flags value of zero.
    pub fn build(self) -> (r: BloomFilter)
        ensures
            r.bits() == self.bits(),
            r.seeds() == self.seeds(),
            r.tweak() == self.tweak(),
            r.flags() == 0,
    {
        proof {
            use_type_invariant(&self);
        }
        let BloomFilterBuilder { n_tweak, filter_bits, hasher } = self;
        BloomFilter { filter_bits, n_tweak, n_flags: 0, hasher }
    }

    /// Finalize the filter as [`Self::build`] does, recording the given
    /// `n_flags` value, an opaque pass-through for the protocol layer.
    pub fn build_with_n_flags(self, n_flags: u32) -> (r: BloomFilter)
        ensures
            r.bits() == self.bits(),
            r.seeds() == self.seeds(),
            r.tweak() == self.tweak(),
            r.flags() == n_flags,
    {
        proof {
            use_type_invariant(&self);
        }
        let BloomFilterBuilder { n_tweak, filter_bits, hasher } = self;
        BloomFilter { filter_bits, n_tweak, n_flags, hasher }
    }
}

} // verus!
