//! A Bloom filter compatible with the BIP-37 wire representation.
//!
//! A builder is fed byte-string elements, each of which sets a batch of bits
//! chosen by a family of seeded murmur3 hashes; the finished filter answers
//! "possibly present" / "definitely absent" membership queries with no false
//! negatives.

mod bits;
mod builder;
mod filter;
mod hasher;
mod laws;

pub use builder::BadFilterParameters;
pub use builder::BloomFilterBuilder;
pub use filter::BloomFilter;
pub use filter::BloomFilterData;
pub use hasher::Hasher;
pub use laws::lemma_deterministic_build;
pub use laws::lemma_idempotent_insertion;
pub use laws::lemma_no_false_negatives;
pub use laws::lemma_tweak_changes_seeds;
