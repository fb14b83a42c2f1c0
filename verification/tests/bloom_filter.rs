//! End-to-end tests of the filter library, with the parameter formulas
//! evaluated here in floating point exactly as a caller of the core would.

use std::io::Cursor;

use bip37_bloom::{BadFilterParameters, BloomFilter, BloomFilterBuilder, BloomFilterData, Hasher};

/// The optimal bit count for the target false-positive rate, rounded up to an
/// unsigned integer: the value the library's size derivation starts from.
fn optimal_size_bits(n_elements: u32, false_positives_rate: f64) -> u64 {
    (-1.0 / 2.0_f64.ln().powi(2) * n_elements as f64 * false_positives_rate.ln()).ceil() as u64
}

/// The optimal hash-function count for a derived byte size.
fn hash_fns_number(n_elements: u32, filter_size: usize) -> u32 {
    ((filter_size * 8) as f64 / n_elements as f64 * 2_f64.ln()) as u32
}

/// A builder for the given element count and rate, parameters pre-derived.
fn builder_with(n_elements: u32, rate: f64, n_tweak: u32) -> BloomFilterBuilder {
    let bits = optimal_size_bits(n_elements, rate);
    let size = BloomFilterBuilder::filter_size(bits).expect("parameters are correct");
    let n_hashes = if size == 0 { 0 } else { hash_fns_number(n_elements, size) };
    BloomFilterBuilder::new_n_tweak(bits, n_hashes, n_tweak).expect("parameters are correct")
}

#[test]
fn can_create_filter() {
    let bits = optimal_size_bits(5, 0.001);
    let size = BloomFilterBuilder::filter_size(bits).expect("parameters are correct");
    let n_hashes = if size == 0 { 0 } else { hash_fns_number(5, size) };
    let _filter: BloomFilter = BloomFilter::builder(bits, n_hashes)
        .expect("parameters are correct")
        .build();
}

#[test]
fn end_to_end_scenario() {
    let filter = builder_with(3, 0.001, 5)
        .add_element(b"kek1")
        .add_element(b"kek2")
        .add_element(b"kek3")
        .build();
    assert!(filter.probably_contains(b"kek1"));
    assert!(filter.probably_contains(b"kek2"));
    assert!(filter.probably_contains(b"kek3"));
    assert!(!filter.probably_contains(b"kek4"));
    assert!(!filter.probably_contains(b"kek5"));
}

#[test]
fn parameter_rejection_scenario() {
    let bits = optimal_size_bits(100_000_000, 0.0000001);
    assert!(matches!(
        BloomFilterBuilder::filter_size(bits),
        Err(BadFilterParameters)
    ));
    assert!(matches!(
        BloomFilterBuilder::new_n_tweak(bits, 0, 0),
        Err(BadFilterParameters)
    ));
    assert!(matches!(BloomFilter::builder(bits, 0), Err(BadFilterParameters)));
    assert!(matches!(
        BloomFilter::builder_n_tweak(bits, 0, 9),
        Err(BadFilterParameters)
    ));
}

#[test]
fn construction_ceiling_boundary() {
    // 287_992 bits round up to 35_999 bytes, just under the ceiling.
    assert_eq!(BloomFilterBuilder::filter_size(287_992), Ok(35_999));
    // 287_993 bits round up to 36_000 bytes and are refused.
    assert!(matches!(BloomFilterBuilder::filter_size(287_993), Err(BadFilterParameters)));
    assert_eq!(BloomFilterBuilder::filter_size(0), Ok(0));
    // A single bit still takes a whole byte.
    assert_eq!(BloomFilterBuilder::filter_size(1), Ok(1));
}

#[test]
fn deterministic_build() {
    let build = || {
        builder_with(10, 0.01, 7)
            .add_element(b"alpha")
            .add_element(b"beta")
            .add_element(b"gamma")
            .build()
    };
    let d1: BloomFilterData = build().into();
    let d2: BloomFilterData = build().into();
    assert_eq!(d1.v_data, d2.v_data);
    assert_eq!(d1.n_hash_funcs, d2.n_hash_funcs);
    assert_eq!(d1.n_tweak, d2.n_tweak);
    assert_eq!(d1.n_flags, d2.n_flags);
}

#[test]
fn tweak_changes_bits() {
    let with_tweak = |n_tweak: u32| {
        let d: BloomFilterData = builder_with(10, 0.01, n_tweak)
            .add_element(b"alpha")
            .add_element(b"beta")
            .build()
            .into();
        d
    };
    let d1 = with_tweak(0);
    let d2 = with_tweak(12345);
    assert_eq!(d1.n_tweak, 0);
    assert_eq!(d2.n_tweak, 12345);
    assert_ne!(d1.v_data, d2.v_data);
}

#[test]
fn idempotent_insertion() {
    let once: BloomFilterData = builder_with(10, 0.01, 0).add_element(b"kek1").build().into();
    let twice: BloomFilterData = builder_with(10, 0.01, 0)
        .add_element(b"kek1")
        .add_element(b"kek1")
        .build()
        .into();
    assert_eq!(once.v_data, twice.v_data);
}

#[test]
fn no_false_negatives_many_elements() {
    let elements: Vec<Vec<u8>> = (0u32..40).map(|n| format!("element-{}", n).into_bytes()).collect();
    let mut builder = builder_with(40, 0.02, 11);
    for e in &elements {
        builder = builder.add_element(e);
    }
    let filter = builder.build();
    for e in &elements {
        assert!(filter.probably_contains(e));
    }
}

#[test]
fn hash_indexes_stay_in_bounds() {
    let seeds = vec![0, 1, 5, 0xFBA4_C795, u32::MAX];
    let hasher = Hasher::new(40, seeds);
    for item in [&b"kek1"[..], b"", b"something much longer than one block"] {
        let indexes = hasher.hash_indexes(item);
        assert_eq!(indexes.len(), 5);
        for i in indexes {
            assert!(i < 40);
        }
    }
}

#[test]
fn hash_indexes_match_murmur3() {
    let len: usize = 1 << 20;
    let seeds = vec![0u32, 5, 99999];
    let hasher = Hasher::new(len, seeds.clone());
    let item = b"kek1";
    let indexes = hasher.hash_indexes(item);
    for (k, seed) in seeds.iter().enumerate() {
        let digest = murmur3::murmur3_32(&mut Cursor::new(item), *seed).expect("no io happens");
        assert_eq!(indexes[k], digest as usize % len);
    }
}

#[test]
fn data_matches_hand_packed_bytes() {
    let n_elements = 3;
    let rate = 0.001;
    let n_tweak = 5;
    let bits = optimal_size_bits(n_elements, rate);
    let size = BloomFilterBuilder::filter_size(bits).expect("parameters are correct");
    let n_hashes = hash_fns_number(n_elements, size);

    let filter = builder_with(n_elements, rate, n_tweak)
        .add_element(b"kek1")
        .add_element(b"kek2")
        .build_with_n_flags(3);
    let data: BloomFilterData = filter.into();

    // Recompute the expected byte array directly from the murmur3 crate.
    let mut expected = vec![0u8; size];
    for item in [&b"kek1"[..], b"kek2"] {
        for i in 0..n_hashes {
            let seed = i.wrapping_mul(0xFBA4_C795).wrapping_add(n_tweak);
            let digest = murmur3::murmur3_32(&mut Cursor::new(item), seed).expect("no io happens");
            let index = digest as usize % (size * 8);
            expected[index / 8] |= 1 << (index % 8);
        }
    }
    assert_eq!(data.v_data, expected);
    assert_eq!(data.n_hash_funcs, n_hashes);
    assert_eq!(data.n_tweak, n_tweak);
    assert_eq!(data.n_flags, 3);
}

#[test]
fn fresh_filter_is_all_zero() {
    let bits = optimal_size_bits(3, 0.001);
    let size = BloomFilterBuilder::filter_size(bits).expect("parameters are correct");
    assert_eq!(size, 6);
    let data: BloomFilterData = builder_with(3, 0.001, 0).build().into();
    assert_eq!(data.v_data, vec![0u8; 6]);
    assert_eq!(data.n_tweak, 0);
    assert_eq!(data.n_flags, 0);
}

#[test]
fn empty_filter_reports_everything_present() {
    // A zero-size filter has no hash functions, so the all-of-none check
    // holds for every item; this mirrors the membership rule exactly.
    let filter = BloomFilterBuilder::new(0, 0).expect("zero size stays under the ceiling").build();
    assert!(filter.probably_contains(b"anything"));
    let data: BloomFilterData = filter.into();
    assert_eq!(data.v_data, Vec::<u8>::new());
    assert_eq!(data.n_hash_funcs, 0);
}
