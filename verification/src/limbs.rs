//! The mathematical reading of a sequence of 64-bit limbs.
//!
//! A limb sequence is little-limb-endian: limb `i` carries the weight
//! `2^(64 * i)`. Everything here is specification and proof; the executable
//! types build on it.

use vstd::arithmetic::mul::*;
use vstd::arithmetic::power2::*;
use vstd::prelude::*;

verus! {

/// The width of one limb, in bits.
pub const LIMB_BITS: usize = 64;

/// The number of limbs needed to hold `bits` bits: `ceil(bits / 64)`.
pub open spec fn limbs_for_bits(bits: nat) -> nat {
    (bits + 63) / 64
}

/// The number of bits of the highest limb that an integer of `bits` bits may
/// use: 64 when `bits` is a positive multiple of 64, `bits % 64` otherwise.
pub open spec fn top_limb_bits(bits: nat) -> nat {
    if bits % 64 == 0 {
        if bits == 0 {
            0
        } else {
            64
        }
    } else {
        bits % 64
    }
}

/// The unsigned integer that a little-limb-endian sequence of limbs stands
/// for: the sum of `limbs[i] * 2^(64 * i)`.
pub open spec fn limbs_to_nat(limbs: Seq<u64>) -> nat
    decreases limbs.len(),
{
    if limbs.len() == 0 {
        0
    } else {
        limbs_to_nat(limbs.drop_last()) + limbs.last() as nat * pow2(
            (64 * (limbs.len() - 1)) as nat,
        )
    }
}

/// Whether `limbs` is the canonical form of an integer of at most `bits`
/// bits: exactly `ceil(bits / 64)` limbs, and no bit set at or above `bits`.
pub open spec fn is_canonical(limbs: Seq<u64>, bits: nat) -> bool {
    &&& limbs.len() == limbs_for_bits(bits)
    &&& limbs_to_nat(limbs) < pow2(bits)
}

/// An integer of `n` limbs is below `2^(64 * n)`.
pub proof fn lemma_limbs_to_nat_bound(limbs: Seq<u64>)
    ensures
        limbs_to_nat(limbs) < pow2(64 * limbs.len()),
    decreases limbs.len(),
{
    if limbs.len() == 0 {
        lemma2_to64();
    } else {
        let rest: Seq<u64> = limbs.drop_last();
        let low: nat = limbs_to_nat(rest);
        let weight: nat = pow2(64 * rest.len());
        let top: nat = limbs.last() as nat;
        lemma_limbs_to_nat_bound(rest);
        lemma2_to64();
        lemma_pow2_adds(64 * rest.len(), 64);
        assert(64 * rest.len() + 64 == 64 * limbs.len());
        assert((64 * (limbs.len() - 1)) as nat == 64 * rest.len());
        assert(top * weight <= (pow2(64) - 1) * weight) by {
            lemma_mul_inequality(top as int, pow2(64) - 1, weight as int);
        }
        assert((pow2(64) - 1) * weight == pow2(64) * weight - weight) by {
            lemma_mul_is_distributive_sub_other_way(weight as int, pow2(64) as int, 1);
        }
        assert(pow2(64) * weight == weight * pow2(64)) by {
            lemma_mul_is_commutative(pow2(64) as int, weight as int);
        }
    }
}

/// With the limb count that `bits` calls for, the highest limb alone decides
/// whether the integer stays below `2^bits`.
pub proof fn lemma_top_limb_decides_canonical(limbs: Seq<u64>, bits: nat)
    requires
        limbs.len() == limbs_for_bits(bits),
        bits > 0,
    ensures
        limbs.len() > 0,
        1 <= top_limb_bits(bits) <= 64,
        limbs_to_nat(limbs) < pow2(bits) <==> (limbs.last() as nat) < pow2(top_limb_bits(bits)),
{
    let rest: Seq<u64> = limbs.drop_last();
    let low: nat = limbs_to_nat(rest);
    let weight: nat = pow2(64 * rest.len());
    let top: nat = limbs.last() as nat;
    let cap: nat = pow2(top_limb_bits(bits));
    assert((64 * (limbs.len() - 1)) as nat == 64 * rest.len());
    assert(64 * rest.len() + top_limb_bits(bits) == bits);
    lemma_limbs_to_nat_bound(rest);
    lemma_pow2_adds(64 * rest.len(), top_limb_bits(bits));
    lemma_pow2_pos(64 * rest.len());
    assert(pow2(bits) == cap * weight) by {
        lemma_mul_is_commutative(cap as int, weight as int);
    }
    if top < cap {
        assert((top + 1) * weight <= cap * weight) by {
            lemma_mul_inequality((top + 1) as int, cap as int, weight as int);
        }
        assert((top + 1) * weight == top * weight + weight) by {
            lemma_mul_is_distributive_add_other_way(weight as int, top as int, 1);
        }
    } else {
        assert(cap * weight <= top * weight) by {
            lemma_mul_inequality(cap as int, top as int, weight as int);
        }
    }
}

/// Two limb sequences of one length that stand for the same integer are the
/// same sequence: the limbs are the base-`2^64` digits of the integer.
pub proof fn lemma_limbs_to_nat_injective(a: Seq<u64>, b: Seq<u64>)
    requires
        a.len() == b.len(),
        limbs_to_nat(a) == limbs_to_nat(b),
    ensures
        a == b,
    decreases a.len(),
{
    if a.len() > 0 {
        let weight: nat = pow2(64 * a.drop_last().len());
        let low_a: nat = limbs_to_nat(a.drop_last());
        let low_b: nat = limbs_to_nat(b.drop_last());
        let top_a: nat = a.last() as nat;
        let top_b: nat = b.last() as nat;
        assert((64 * (a.len() - 1)) as nat == 64 * a.drop_last().len());
        assert((64 * (b.len() - 1)) as nat == 64 * a.drop_last().len());
        lemma_limbs_to_nat_bound(a.drop_last());
        lemma_limbs_to_nat_bound(b.drop_last());
        if top_a < top_b {
            assert((top_a + 1) * weight <= top_b * weight) by {
                lemma_mul_inequality((top_a + 1) as int, top_b as int, weight as int);
            }
            assert((top_a + 1) * weight == top_a * weight + weight) by {
                lemma_mul_is_distributive_add_other_way(weight as int, top_a as int, 1);
            }
            assert(false);
        }
        if top_b < top_a {
            assert((top_b + 1) * weight <= top_a * weight) by {
                lemma_mul_inequality((top_b + 1) as int, top_a as int, weight as int);
            }
            assert((top_b + 1) * weight == top_b * weight + weight) by {
                lemma_mul_is_distributive_add_other_way(weight as int, top_b as int, 1);
            }
            assert(false);
        }
        assert(low_a == low_b);
        lemma_limbs_to_nat_injective(a.drop_last(), b.drop_last());
        assert(a =~= a.drop_last().push(a.last()));
        assert(b =~= b.drop_last().push(b.last()));
    } else {
        assert(a =~= b);
    }
}

} // verus!
