//! The fixed-width unsigned integer.

use crate::limbs::{
    is_canonical, lemma_limbs_to_nat_injective, lemma_top_limb_decides_canonical, limbs_for_bits,
    limbs_to_nat, top_limb_bits, LIMB_BITS,
};
use vstd::arithmetic::power2::*;
use vstd::bits::*;
use vstd::prelude::*;

verus! {

/// An unsigned integer of at most `BITS` bits, held in `LIMBS` 64-bit limbs,
/// least significant limb first.
///
/// Every value is canonical: `LIMBS == ceil(BITS / 64)`, and no bit at or
/// above `BITS` is set. The constructors establish this and nothing can
/// break it afterwards.
#[derive(Clone, Copy, Debug, PartialEq, Eq, Hash)]
pub struct Uint<const BITS: usize, const LIMBS: usize> {
    limbs: [u64; LIMBS],
}

impl<const BITS: usize, const LIMBS: usize> View for Uint<BITS, LIMBS> {
    type V = Seq<u64>;

    /// The limbs, least significant first.
    open spec fn view(&self) -> Seq<u64> {
        self.limbs()@
    }
}

/// `ceil(bits / 64)`, computed without overflow.
fn limbs_needed(bits: usize) -> (count: usize)
    ensures
        count == limbs_for_bits(bits as nat),
{
    if bits % LIMB_BITS == 0 {
        bits / LIMB_BITS
    } else {
        bits / LIMB_BITS + 1
    }
}

/// The largest value that the highest limb of an integer of `bits` bits may
/// take.
fn top_limb_mask(bits: usize) -> (mask: u64)
    requires
        bits > 0,
    ensures
        mask + 1 == pow2(top_limb_bits(bits as nat)),
{
    let used: u64 = (bits % LIMB_BITS) as u64;
    proof {
        lemma2_to64();
    }
    if used == 0 {
        u64::MAX
    } else {
        proof {
            lemma_u64_pow2_no_overflow(used as nat);
            lemma_u64_shl_is_mul(1u64, used);
        }
        (1u64 << used) - 1
    }
}

impl<const BITS: usize, const LIMBS: usize> Uint<BITS, LIMBS> {
    /// The invariant of the type: the limbs are the canonical form of an
    /// integer of at most `BITS` bits.
    #[verifier::type_invariant]
    pub closed spec fn wf(self) -> bool {
        is_canonical(self.limbs@, BITS as nat)
    }

    /// The limbs as an array, least significant first.
    pub closed spec fn limbs(self) -> [u64; LIMBS] {
        self.limbs
    }

    /// The integer that the value stands for.
    pub open spec fn value(self) -> nat {
        limbs_to_nat(self@)
    }

    /// Whether `limbs` may become a value of this type: `LIMBS` is the limb
    /// count that `BITS` calls for, and the integer is below `2^BITS`.
    pub open spec fn admits(limbs: Seq<u64>) -> bool {
        is_canonical(limbs, BITS as nat)
    }

    /// A well-formed value has `LIMBS` limbs, `LIMBS == ceil(BITS / 64)`, and
    /// stands for an integer below `2^BITS`.
    pub proof fn lemma_wf(self)
        requires
            self.wf(),
        ensures
            Self::admits(self@),
            self@.len() == LIMBS,
            LIMBS == limbs_for_bits(BITS as nat),
            self.value() < pow2(BITS as nat),
    {
    }

    /// A value is its limbs and nothing more: two values with the same limbs
    /// are the same value.
    pub proof fn lemma_limbs_determine(self, other: Self)
        requires
            self@ == other@,
        ensures
            self == other,
    {
        assert(self.limbs =~= other.limbs);
    }

    /// The integer determines the value: two well-formed values that stand
    /// for the same integer are the same value.
    pub proof fn lemma_value_determines(self, other: Self)
        requires
            self.wf(),
            other.wf(),
            self.value() == other.value(),
        ensures
            self == other,
    {
        lemma_limbs_to_nat_injective(self@, other@);
        self.lemma_limbs_determine(other);
    }

    /// The value with exactly these limbs.
    ///
    /// The limbs have to be canonical for `BITS`; `checked_from_limbs` tests
    /// that at run time.
    pub fn from_limbs(limbs: [u64; LIMBS]) -> (result: Self)
        requires
            Self::admits(limbs@),
        ensures
            result.wf(),
            result.limbs() == limbs,
    {
        Uint { limbs }
    }

    /// The value with exactly these limbs, or `None` where they are not
    /// canonical for `BITS`: where `LIMBS != ceil(BITS / 64)`, or a bit at or
    /// above `BITS` is set.
    pub fn checked_from_limbs(limbs: [u64; LIMBS]) -> (result: Option<Self>)
        ensures
            result is Some <==> Self::admits(limbs@),
            result matches Some(value) ==> value.wf() && value.limbs() == limbs,
    {
        if limbs_needed(BITS) != LIMBS {
            return None;
        }
        if BITS == 0 {
            proof {
                lemma2_to64();
                assert(limbs_to_nat(limbs@) == 0);
            }
            return Some(Uint { limbs });
        }
        proof {
            lemma_top_limb_decides_canonical(limbs@, BITS as nat);
        }
        if limbs[LIMBS - 1] > top_limb_mask(BITS) {
            return None;
        }
        Some(Uint { limbs })
    }

    /// The limbs of the value, unchanged.
    pub fn into_limbs(self) -> (limbs: [u64; LIMBS])
        ensures
            limbs == self.limbs(),
            Self::admits(limbs@),
    {
        proof {
            use_type_invariant(&self);
        }
        self.limbs
    }
}

} // verus!
