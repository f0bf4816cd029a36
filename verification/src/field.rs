//! The bridge between `Uint` and the elements of a prime field.
//!
//! The field belongs to an engine outside this crate, which lends the bridge
//! two capabilities: a validated constructor, from a big integer to an
//! element or nothing (`PrimeField::from_bigint` of `ark-ff`), and the way
//! back, from an element to its canonical big integer
//! (`PrimeField::into_bigint`). The bridge takes them as function values. It
//! decides nothing about the field itself: the engine checks the range, and
//! the bridge fixes what the engine is asked and what its answer becomes.
//!
//! What the engine does is therefore a premise here, not a claim. The
//! predicates `validates_below`, `recovers_integer` and `stays_below` say
//! what an engine for a field of a given modulus does, and the contracts and
//! lemmas below say what follows for the bridge.

use crate::big_integer::{big_integer_of, from_big_integer, to_big_integer};
use crate::error::ToFieldError;
use crate::limbs::limbs_to_nat;
use crate::uint::Uint;
use ark_ff::BigInt;
use vstd::prelude::*;

verus! {

/// What the bridge makes of the engine's answer: the element where there is
/// one, `NotInField` where the engine gave none.
pub open spec fn field_result<F>(constructed: Option<F>) -> Result<F, ToFieldError> {
    match constructed {
        Some(element) => Ok(element),
        None => Err(ToFieldError::NotInField),
    }
}

/// Whether `result` is an answer of `try_from_fixed_width_int` on `value`:
/// what the bridge makes of something that `construct` may hand back when
/// asked for the big integer with the limbs of `value`.
pub open spec fn is_field_conversion<F, C, const BITS: usize, const LIMBS: usize>(
    value: Uint<BITS, LIMBS>,
    construct: C,
    result: Result<F, ToFieldError>,
) -> bool where C: FnOnce(BigInt<LIMBS>) -> Option<F> {
    exists|constructed: Option<F>|
        {
            &&& #[trigger] call_ensures(construct, (big_integer_of(value),), constructed)
            &&& result == field_result(constructed)
        }
}

/// Whether `from_field_element` can be asked for `element`: `canonical` can
/// be called on it, and whatever it hands back is canonical for `BITS`.
pub open spec fn fits_width<F, E, const BITS: usize, const LIMBS: usize>(
    element: F,
    canonical: E,
) -> bool where E: FnOnce(F) -> BigInt<LIMBS> {
    &&& call_requires(canonical, (element,))
    &&& forall|repr: BigInt<LIMBS>| #[trigger]
        call_ensures(canonical, (element,), repr) ==> Uint::<BITS, LIMBS>::admits(repr.0@)
}

/// Whether `result` is an answer of `from_field_element` on `element`: a
/// well-formed integer whose limbs are those of a big integer that
/// `canonical` may hand back for `element`.
pub open spec fn is_integer_of_element<F, E, const BITS: usize, const LIMBS: usize>(
    element: F,
    canonical: E,
    result: Uint<BITS, LIMBS>,
) -> bool where E: FnOnce(F) -> BigInt<LIMBS> {
    &&& result.wf()
    &&& call_ensures(canonical, (element,), big_integer_of(result))
}

/// Whether `construct` is the validated constructor of a field with this
/// modulus: it can be asked for any big integer, and hands back an element
/// for the integers below the modulus and for no other.
pub open spec fn validates_below<F, C, const LIMBS: usize>(
    construct: C,
    modulus: nat,
) -> bool where C: FnOnce(BigInt<LIMBS>) -> Option<F> {
    &&& forall|repr: BigInt<LIMBS>| #[trigger] call_requires(construct, (repr,))
    &&& forall|repr: BigInt<LIMBS>, constructed: Option<F>| #[trigger]
        call_ensures(construct, (repr,), constructed) ==> (constructed is Some <==> limbs_to_nat(
            repr.0@,
        ) < modulus)
}

/// Whether `canonical` undoes `construct`: it can be asked for any element,
/// and for an element that `construct` made from a big integer it hands back
/// that big integer.
pub open spec fn recovers_integer<F, C, E, const LIMBS: usize>(
    construct: C,
    canonical: E,
) -> bool where C: FnOnce(BigInt<LIMBS>) -> Option<F>, E: FnOnce(F) -> BigInt<LIMBS> {
    &&& forall|element: F| #[trigger] call_requires(canonical, (element,))
    &&& forall|repr: BigInt<LIMBS>, element: F, back: BigInt<LIMBS>|
        {
            &&& #[trigger] call_ensures(construct, (repr,), Some(element))
            &&& #[trigger] call_ensures(canonical, (element,), back)
        } ==> back == repr
}

/// Whether `canonical` is the way back of a field with this modulus: every
/// big integer that it hands back stands for an integer below the modulus.
pub open spec fn stays_below<F, E, const LIMBS: usize>(
    canonical: E,
    modulus: nat,
) -> bool where E: FnOnce(F) -> BigInt<LIMBS> {
    forall|element: F, repr: BigInt<LIMBS>| #[trigger]
        call_ensures(canonical, (element,), repr) ==> limbs_to_nat(repr.0@) < modulus
}

/// The bridge's answer for what the engine's constructor handed back: the
/// element, or `NotInField` where there is none.
pub fn not_in_field_unless<F>(constructed: Option<F>) -> (result: Result<F, ToFieldError>)
    ensures
        result == field_result(constructed),
{
    match constructed {
        Some(element) => Ok(element),
        None => Err(ToFieldError::NotInField),
    }
}

/// The field element that `value` stands for, or `NotInField`.
///
/// `construct` is asked for the big integer with exactly the limbs of
/// `value`, once. Its answer decides: an element is handed on, nothing
/// becomes `NotInField`. No other error exists. So with a constructor that
/// validates against a modulus, the conversion succeeds on the integers
/// below the modulus and on no other.
pub fn try_from_fixed_width_int<F, C, const BITS: usize, const LIMBS: usize>(
    value: Uint<BITS, LIMBS>,
    construct: C,
) -> (result: Result<F, ToFieldError>) where C: FnOnce(BigInt<LIMBS>) -> Option<F>
    requires
        call_requires(construct, (big_integer_of(value),)),
    ensures
        is_field_conversion(value, construct, result),
        forall|modulus: nat| #[trigger]
            validates_below(construct, modulus) ==> (result is Ok <==> value.value() < modulus),
{
    let constructed: Option<F> = construct(to_big_integer(value));
    not_in_field_unless(constructed)
}

/// `try_from_fixed_width_int` on a borrowed integer, which is left as it
/// was.
pub fn try_from_fixed_width_int_ref<F, C, const BITS: usize, const LIMBS: usize>(
    value: &Uint<BITS, LIMBS>,
    construct: C,
) -> (result: Result<F, ToFieldError>) where C: FnOnce(BigInt<LIMBS>) -> Option<F>
    requires
        call_requires(construct, (big_integer_of(*value),)),
    ensures
        is_field_conversion(*value, construct, result),
        forall|modulus: nat| #[trigger]
            validates_below(construct, modulus) ==> (result is Ok <==> value.value() < modulus),
{
    try_from_fixed_width_int(*value, construct)
}

/// The integer that `element` stands for.
///
/// `canonical` is asked for the canonical big integer of `element`, once, and
/// the result has exactly its limbs. That big integer has to be canonical
/// for `BITS`, whatever `canonical` hands back. Where the engine keeps its
/// integers below a modulus, the result is below it too.
pub fn from_field_element<F, E, const BITS: usize, const LIMBS: usize>(
    element: F,
    canonical: E,
) -> (result: Uint<BITS, LIMBS>) where E: FnOnce(F) -> BigInt<LIMBS>
    requires
        fits_width::<F, E, BITS, LIMBS>(element, canonical),
    ensures
        is_integer_of_element(element, canonical, result),
        forall|modulus: nat| #[trigger]
            stays_below::<F, E, LIMBS>(canonical, modulus) ==> result.value() < modulus,
{
    from_big_integer(canonical(element))
}

/// `from_field_element` on a borrowed element, which is left as it was: a
/// copy of it is handed to `canonical`.
pub fn from_field_element_ref<F, E, const BITS: usize, const LIMBS: usize>(
    element: &F,
    canonical: E,
) -> (result: Uint<BITS, LIMBS>) where F: Copy, E: FnOnce(F) -> BigInt<LIMBS>
    requires
        fits_width::<F, E, BITS, LIMBS>(*element, canonical),
    ensures
        is_integer_of_element(*element, canonical, result),
        forall|modulus: nat| #[trigger]
            stays_below::<F, E, LIMBS>(canonical, modulus) ==> result.value() < modulus,
{
    from_field_element(*element, canonical)
}

/// An integer below the modulus becomes a field element, and the element
/// gives the integer back.
///
/// `converted` is an answer of `try_from_fixed_width_int` on `value`, and
/// `back` an answer of `from_field_element` on the element in it. The engine
/// validates against `modulus`, and its way back undoes its constructor.
/// Then `converted` is an element, `from_field_element` can be asked for it,
/// and `back` is `value`.
pub proof fn lemma_field_round_trip<F, C, E, const BITS: usize, const LIMBS: usize>(
    value: Uint<BITS, LIMBS>,
    construct: C,
    canonical: E,
    modulus: nat,
    converted: Result<F, ToFieldError>,
    back: Uint<BITS, LIMBS>,
) where C: FnOnce(BigInt<LIMBS>) -> Option<F>, E: FnOnce(F) -> BigInt<LIMBS>
    requires
        value.wf(),
        validates_below(construct, modulus),
        recovers_integer(construct, canonical),
        value.value() < modulus,
        is_field_conversion(value, construct, converted),
        converted matches Ok(element) ==> is_integer_of_element(element, canonical, back),
    ensures
        converted matches Ok(element) && fits_width::<F, E, BITS, LIMBS>(element, canonical),
        back == value,
{
    value.lemma_wf();
    let element: F = converted->Ok_0;
    assert(call_ensures(construct, (big_integer_of(value),), Some(element)));
    assert(big_integer_of(back) == big_integer_of(value));
    value.lemma_limbs_determine(back);
}

/// An integer at or above the modulus is refused, with `NotInField`.
///
/// `result` is an answer of `try_from_fixed_width_int` on `value`, with an
/// engine that validates against `modulus`.
pub proof fn lemma_rejects_at_or_above_modulus<F, C, const BITS: usize, const LIMBS: usize>(
    value: Uint<BITS, LIMBS>,
    construct: C,
    modulus: nat,
    result: Result<F, ToFieldError>,
) where C: FnOnce(BigInt<LIMBS>) -> Option<F>
    requires
        validates_below(construct, modulus),
        modulus <= value.value(),
        is_field_conversion(value, construct, result),
    ensures
        result == Err::<F, ToFieldError>(ToFieldError::NotInField),
{
}

/// An integer that was reduced modulo the modulus is never refused.
///
/// `value` stands for `y % modulus`, whatever `y` is, and `result` is an
/// answer of `try_from_fixed_width_int` on it, with an engine that validates
/// against `modulus`.
pub proof fn lemma_accepts_reduced<F, C, const BITS: usize, const LIMBS: usize>(
    y: nat,
    value: Uint<BITS, LIMBS>,
    construct: C,
    modulus: nat,
    result: Result<F, ToFieldError>,
) where C: FnOnce(BigInt<LIMBS>) -> Option<F>
    requires
        validates_below(construct, modulus),
        modulus > 0,
        value.value() == y % modulus,
        is_field_conversion(value, construct, result),
    ensures
        result is Ok,
{
}

} // verus!
