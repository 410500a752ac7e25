//! Translation of the configured exclusion set into a processor bitmask.

use vstd::prelude::*;

verus! {

/// True iff bit `i` of `mask` is set.
pub open spec fn bit_set(mask: u64, i: u64) -> bool {
    mask & (1u64 << i) != 0
}

/// Every index in the sequence names one of the 64 bits of a mask.
pub open spec fn indices_in_range(indices: Seq<u64>) -> bool {
    forall|j: int| 0 <= j < indices.len() ==> indices[j] < 64
}

/// The bitmask encoding a sequence of processor indices: the fold of
/// `1 << i` over the sequence.
pub open spec fn mask_of(indices: Seq<u64>) -> u64
    decreases indices.len(),
{
    if indices.len() == 0 {
        0u64
    } else {
        mask_of(indices.drop_last()) | (1u64 << indices.last())
    }
}

/// Folds the configured exclusion set into a bitmask with bit `i` set for
/// each excluded processor index `i`.
pub fn get_exclude_mask(exclude: Vec<u64>) -> (mask: u64)
    requires
        indices_in_range(exclude@),
    ensures
        mask == mask_of(exclude@),
{
    let mut mask: u64 = 0;
    let mut k: usize = 0;
    while k < exclude.len()
        invariant
            indices_in_range(exclude@),
            k <= exclude.len(),
            mask == mask_of(exclude@.take(k as int)),
        decreases exclude.len() - k,
    {
        let p = exclude[k];
        mask = mask | (1u64 << p);
        proof {
            assert(exclude@.take(k + 1).drop_last() =~= exclude@.take(k as int));
            assert(exclude@.take(k + 1).last() == exclude@[k as int]);
        }
        k = k + 1;
    }
    proof {
        assert(exclude@.take(exclude@.len() as int) =~= exclude@);
    }
    mask
}

/// Setting one more bit leaves every bit as it was, except the one set.
proof fn lemma_or_one_bit(m: u64, x: u64, i: u64)
    by (bit_vector)
    requires
        x < 64,
        i < 64,
    ensures
        bit_set(m | (1u64 << x), i) <==> (bit_set(m, i) || i == x),
{
}

/// Bit `i` of the computed mask is set iff `i` occurs among the indices.
pub proof fn lemma_mask_of_bit(indices: Seq<u64>, i: u64)
    requires
        indices_in_range(indices),
        i < 64,
    ensures
        bit_set(mask_of(indices), i) <==> indices.contains(i),
    decreases indices.len(),
{
    if indices.len() == 0 {
        assert(!bit_set(0u64, i)) by (bit_vector);
        assert(!indices.contains(i));
    } else {
        let front = indices.drop_last();
        lemma_mask_of_bit(front, i);
        lemma_or_one_bit(mask_of(front), indices.last(), i);
        assert(indices.contains(i) <==> (front.contains(i) || indices.last() == i)) by {
            if indices.contains(i) {
                let j = choose|j: int| 0 <= j < indices.len() && indices[j] == i;
                if j < indices.len() - 1 {
                    assert(front[j] == i);
                }
            }
            if front.contains(i) {
                let j = choose|j: int| 0 <= j < front.len() && front[j] == i;
                assert(indices[j] == i);
            }
            if indices.last() == i {
                assert(indices[indices.len() - 1] == i);
            }
        }
    }
}

/// The bits of `a` and `b` above position `k` agree, bit by bit from the
/// top down.
proof fn lemma_high_bits_agree(a: u64, b: u64, k: u64)
    requires
        k <= 64,
        forall|i: u64| i < 64 ==> (bit_set(a, i) <==> bit_set(b, i)),
    ensures
        (a >> k) == (b >> k),
    decreases 64 - k,
{
    if k == 64 {
        assert(a >> 64u64 == 0 && b >> 64u64 == 0) by (bit_vector);
    } else {
        let k1 = (k + 1) as u64;
        lemma_high_bits_agree(a, b, k1);
        assert(bit_set(a, k) <==> bit_set(b, k));
        assert(a >> k == b >> k) by (bit_vector)
            requires
                a >> ((k + 1) as u64) == b >> ((k + 1) as u64),
                ((a & (1u64 << k) != 0) <==> (b & (1u64 << k) != 0)),
                k < 64,
        ;
    }
}

/// Two masks that agree on each of their 64 bits are the same value.
proof fn lemma_bit_extensionality(a: u64, b: u64)
    requires
        forall|i: u64| i < 64 ==> (bit_set(a, i) <==> bit_set(b, i)),
    ensures
        a == b,
{
    lemma_high_bits_agree(a, b, 0);
    assert(a >> 0u64 == a && b >> 0u64 == b) by (bit_vector);
}

/// The computed mask has bit `i` set iff `i` is in the exclusion set: it
/// encodes the membership of the set, and nothing else.
pub proof fn lemma_mask_encodes_membership(indices: Seq<u64>)
    requires
        indices_in_range(indices),
    ensures
        forall|i: u64| i < 64 ==> (bit_set(mask_of(indices), i) <==> indices.contains(i)),
{
    assert forall|i: u64| i < 64 implies (bit_set(mask_of(indices), i) <==> indices.contains(
        i,
    )) by {
        lemma_mask_of_bit(indices, i);
    }
}

/// The mask depends only on which indices occur, not on their order or on
/// repetitions: two sequences over the same set of indices give one mask.
pub proof fn lemma_mask_order_independent(s1: Seq<u64>, s2: Seq<u64>)
    requires
        indices_in_range(s1),
        indices_in_range(s2),
        s1.to_set() == s2.to_set(),
    ensures
        mask_of(s1) == mask_of(s2),
{
    assert forall|i: u64| i < 64 implies (bit_set(mask_of(s1), i) <==> bit_set(
        mask_of(s2),
        i,
    )) by {
        lemma_mask_of_bit(s1, i);
        lemma_mask_of_bit(s2, i);
        assert(s1.contains(i) <==> s1.to_set().contains(i));
        assert(s2.contains(i) <==> s2.to_set().contains(i));
    }
    lemma_bit_extensionality(mask_of(s1), mask_of(s2));
}

} // verus!
