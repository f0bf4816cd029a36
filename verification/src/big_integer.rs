//! The bridge between `Uint` and the big integer of `ark-ff`.
//!
//! `ark_ff::BigInt<N>` is `N` limbs of 64 bits, least significant first: the
//! layout of `Uint`. Both directions hand the limbs over unchanged. The limb
//! count is one type parameter shared by both sides, so a mismatch does not
//! compile.

use crate::uint::Uint;
use ark_ff::BigInt;
use vstd::prelude::*;

verus! {

/// Makes `ark_ff::BigInt<N>` known to the verifier, which reads its
/// definition from the crate: a tuple struct whose one public field, `.0`,
/// is the array of the `N` limbs. Nothing is claimed beyond that definition.
#[verifier::external_type_specification]
pub struct ExBigInt<const N: usize>(BigInt<N>);

/// `ark_ff::BigInt::new` wraps the limbs it is given and does nothing else:
/// the field of the result is the argument.
pub assume_specification<const N: usize>[ BigInt::<N>::new ](value: [u64; N]) -> (result: BigInt<
    N,
>)
    ensures
        result.0 == value,
;

/// The big integer with the limbs of `value`.
pub open spec fn big_integer_of<const BITS: usize, const LIMBS: usize>(
    value: Uint<BITS, LIMBS>,
) -> BigInt<LIMBS> {
    BigInt(value.limbs())
}

/// The fixed-width integer with exactly the limbs of `value`.
///
/// The limbs have to be canonical for `BITS`; `checked_from_big_integer`
/// tests that at run time.
pub fn from_big_integer<const BITS: usize, const LIMBS: usize>(
    value: BigInt<LIMBS>,
) -> (result: Uint<BITS, LIMBS>)
    requires
        Uint::<BITS, LIMBS>::admits(value.0@),
    ensures
        result.wf(),
        result@ == value.0@,
        big_integer_of(result) == value,
{
    Uint::from_limbs(value.0)
}

/// `from_big_integer` on a borrowed big integer, which is left as it was.
pub fn from_big_integer_ref<const BITS: usize, const LIMBS: usize>(
    value: &BigInt<LIMBS>,
) -> (result: Uint<BITS, LIMBS>)
    requires
        Uint::<BITS, LIMBS>::admits(value.0@),
    ensures
        result.wf(),
        result@ == value.0@,
        big_integer_of(result) == *value,
{
    Uint::from_limbs(value.0)
}

/// The fixed-width integer with exactly the limbs of `value`, or `None`
/// where those limbs are not canonical for `BITS`.
pub fn checked_from_big_integer<const BITS: usize, const LIMBS: usize>(
    value: BigInt<LIMBS>,
) -> (result: Option<Uint<BITS, LIMBS>>)
    ensures
        result is Some <==> Uint::<BITS, LIMBS>::admits(value.0@),
        result matches Some(converted) ==> converted.wf() && converted@ == value.0@
            && big_integer_of(converted) == value,
{
    Uint::checked_from_limbs(value.0)
}

/// The big integer with exactly the limbs of `value`.
pub fn to_big_integer<const BITS: usize, const LIMBS: usize>(
    value: Uint<BITS, LIMBS>,
) -> (result: BigInt<LIMBS>)
    ensures
        result.0@ == value@,
        result == big_integer_of(value),
{
    BigInt::new(value.into_limbs())
}

/// `to_big_integer` on a borrowed integer, which is left as it was.
pub fn to_big_integer_ref<const BITS: usize, const LIMBS: usize>(
    value: &Uint<BITS, LIMBS>,
) -> (result: BigInt<LIMBS>)
    ensures
        result.0@ == value@,
        result == big_integer_of(*value),
{
    BigInt::new(value.into_limbs())
}

/// Going to the big integer and back gives the integer one started from.
///
/// What `to_big_integer` makes of a well-formed `value`, `from_big_integer`
/// takes; and `back`, which it makes of that, is `value`.
pub proof fn lemma_big_integer_round_trip<const BITS: usize, const LIMBS: usize>(
    value: Uint<BITS, LIMBS>,
    back: Uint<BITS, LIMBS>,
)
    requires
        value.wf(),
        big_integer_of(back) == big_integer_of(value),
    ensures
        Uint::<BITS, LIMBS>::admits(big_integer_of(value).0@),
        back == value,
{
    value.lemma_wf();
    value.lemma_limbs_determine(back);
}

} // verus!
