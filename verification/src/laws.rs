//! Laws of the filter as a whole, stated over the construction model and
//! proved once for every input.

use vstd::prelude::*;

use crate::bits::zeroed_bits;
use crate::builder::{bits_with_element, seed_for, set_by_some_seed};
use crate::filter::{element_present, seed_bit_set};
use crate::hasher::hash_index;

verus! {

/// The bit array after a whole sequence of elements is added, in order.
pub open spec fn bits_with_elements(
    bits: Seq<bool>,
    seeds: Seq<u32>,
    elems: Seq<Seq<u8>>,
) -> Seq<bool>
    decreases elems.len(),
{
    if elems.len() == 0 {
        bits
    } else {
        bits_with_elements(
            bits_with_element(bits, seeds, elems[0]),
            seeds,
            elems.subrange(1, elems.len() as int),
        )
    }
}

/// Adding elements never changes the length of the bit array.
pub proof fn lemma_with_elements_len(bits: Seq<bool>, seeds: Seq<u32>, elems: Seq<Seq<u8>>)
    ensures
        bits_with_elements(bits, seeds, elems).len() == bits.len(),
    decreases elems.len(),
{
    if elems.len() != 0 {
        lemma_with_elements_len(
            bits_with_element(bits, seeds, elems[0]),
            seeds,
            elems.subrange(1, elems.len() as int),
        );
    }
}

/// Adding one element never clears a bit that was already set.
proof fn lemma_with_element_monotone(bits: Seq<bool>, seeds: Seq<u32>, item: Seq<u8>, j: int)
    requires
        0 <= j < bits.len(),
        bits[j],
    ensures
        bits_with_element(bits, seeds, item)[j],
{
}

/// Adding any sequence of elements never clears a bit that was already set.
proof fn lemma_with_elements_monotone(
    bits: Seq<bool>,
    seeds: Seq<u32>,
    elems: Seq<Seq<u8>>,
    j: int,
)
    requires
        0 <= j < bits.len(),
        bits[j],
    ensures
        bits_with_elements(bits, seeds, elems)[j],
    decreases elems.len(),
{
    if elems.len() != 0 {
        let next = bits_with_element(bits, seeds, elems[0]);
        lemma_with_element_monotone(bits, seeds, elems[0], j);
        lemma_with_elements_monotone(next, seeds, elems.subrange(1, elems.len() as int), j);
    }
}

/// Right after an element is added, every one of its hash bits is set.
proof fn lemma_element_marked(bits: Seq<bool>, seeds: Seq<u32>, item: Seq<u8>)
    requires
        seeds.len() > 0 ==> bits.len() > 0,
    ensures
        element_present(bits_with_element(bits, seeds, item), seeds, item),
{
    let after = bits_with_element(bits, seeds, item);
    assert forall|i: int| 0 <= i < seeds.len() implies #[trigger] seed_bit_set(
        after,
        seeds,
        item,
        i,
    ) by {
        let j = hash_index(item, seeds[i], bits.len());
        assert(j < bits.len());
        assert(set_by_some_seed(seeds, item, bits.len(), j as int));
        assert(after[j as int]);
        assert(after.len() == bits.len());
    }
}

/// A membership verdict survives any further setting of bits: if every seed
/// of the family lands on a set bit, it still does after more bits are set.
proof fn lemma_present_preserved(b1: Seq<bool>, b2: Seq<bool>, seeds: Seq<u32>, item: Seq<u8>)
    requires
        b2.len() == b1.len(),
        forall|j: int| 0 <= j < b1.len() && b1[j] ==> #[trigger] b2[j],
        element_present(b1, seeds, item),
    ensures
        element_present(b2, seeds, item),
{
    assert forall|i: int| 0 <= i < seeds.len() implies #[trigger] seed_bit_set(
        b2,
        seeds,
        item,
        i,
    ) by {
        assert(seed_bit_set(b1, seeds, item, i));
        let j = hash_index(item, seeds[i], b1.len());
        assert(b1[j as int]);
        assert(b2[j as int]);
    }
}

/// **No false negatives.** A filter built by adding a sequence of elements
/// reports every one of those elements as possibly present: each element of
/// the sequence satisfies the membership predicate of the final bit array.
pub proof fn lemma_no_false_negatives(
    bits: Seq<bool>,
    seeds: Seq<u32>,
    elems: Seq<Seq<u8>>,
    k: int,
)
    requires
        seeds.len() > 0 ==> bits.len() > 0,
        0 <= k < elems.len(),
    ensures
        element_present(bits_with_elements(bits, seeds, elems), seeds, elems[k]),
    decreases elems.len(),
{
    let next = bits_with_element(bits, seeds, elems[0]);
    let rest = elems.subrange(1, elems.len() as int);
    if k == 0 {
        lemma_element_marked(bits, seeds, elems[0]);
        lemma_with_elements_len(next, seeds, rest);
        assert forall|j: int| 0 <= j < next.len() && next[j] implies #[trigger] bits_with_elements(
            next,
            seeds,
            rest,
        )[j] by {
            lemma_with_elements_monotone(next, seeds, rest, j);
        }
        lemma_present_preserved(next, bits_with_elements(next, seeds, rest), seeds, elems[0]);
    } else {
        lemma_no_false_negatives(next, seeds, rest, k - 1);
        assert(rest[k - 1] == elems[k]);
    }
}

/// **Idempotent insertion.** Adding the same element twice yields the same
/// bit array as adding it once.
pub proof fn lemma_idempotent_insertion(bits: Seq<bool>, seeds: Seq<u32>, item: Seq<u8>)
    ensures
        bits_with_element(bits_with_element(bits, seeds, item), seeds, item) == bits_with_element(
            bits,
            seeds,
            item,
        ),
{
    let once = bits_with_element(bits, seeds, item);
    let twice = bits_with_element(once, seeds, item);
    assert forall|j: int| 0 <= j < bits.len() implies twice[j] == once[j] by {
        assert(once.len() == bits.len());
        assert(once[j] == (bits[j] || set_by_some_seed(seeds, item, bits.len(), j)));
        assert(twice[j] == (once[j] || set_by_some_seed(seeds, item, bits.len(), j)));
    }
    assert(twice =~= once);
}

/// **Determinism.** The construction model is a function of the bit-array
/// length, the seed family and the element sequence alone: two filters that
/// each arise from the same inputs hold bit-for-bit identical arrays.
pub proof fn lemma_deterministic_build(
    b1: Seq<bool>,
    b2: Seq<bool>,
    len: nat,
    seeds: Seq<u32>,
    elems: Seq<Seq<u8>>,
)
    requires
        b1 == bits_with_elements(zeroed_bits(len), seeds, elems),
        b2 == bits_with_elements(zeroed_bits(len), seeds, elems),
    ensures
        b1 == b2,
{
}

/// **Tweak sensitivity.** Two different tweaks turn every seed of the family
/// into a different value. (The bit arrays built under them are not thereby
/// guaranteed to differ: distinct seeds can still collide on bit indices for
/// degenerate inputs.)
pub proof fn lemma_tweak_changes_seeds(i: u32, t1: u32, t2: u32)
    requires
        t1 != t2,
    ensures
        seed_for(i, t1) != seed_for(i, t2),
{
    let m: int = 0x1_0000_0000;
    let x: int = (i * 0xFBA4_C795) % m;
    assert(0 <= x < m);
    let y1: int = (x + t1) % m;
    let y2: int = (x + t2) % m;
    assert(y1 == if x + t1 < m {
        x + t1
    } else {
        x + t1 - m
    });
    assert(y2 == if x + t2 < m {
        x + t2
    } else {
        x + t2 - m
    });
    assert(y1 != y2);
    assert(seed_for(i, t1) == y1 as u32);
    assert(seed_for(i, t2) == y2 as u32);
}

} // verus!
