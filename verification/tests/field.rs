use ark_bn254::{Fq, FqConfig, Fr, FrConfig};
use ark_ff::{BigInt, BigInteger, MontConfig, PrimeField};
use proptest::array::uniform4;
use proptest::num::u64::ANY;
use proptest::test_runner::TestRunner;
use uint_bridge::big_integer::{from_big_integer, to_big_integer};
use uint_bridge::error::ToFieldError;
use uint_bridge::field::{
    from_field_element, from_field_element_ref, not_in_field_unless, try_from_fixed_width_int,
    try_from_fixed_width_int_ref,
};
use uint_bridge::uint::Uint;

const FQ_MODULUS: [u64; 4] = [
    0x3c20_8c16_d87c_fd47,
    0x9781_6a91_6871_ca8d,
    0xb850_45b6_8181_585d,
    0x3064_4e72_e131_a029,
];

const FR_MODULUS: [u64; 4] = [
    0x43e1_f593_f000_0001,
    0x2833_e848_79b9_7091,
    0xb850_45b6_8181_585d,
    0x3064_4e72_e131_a029,
];

fn reduce(value: Uint<256, 4>, modulus: Uint<256, 4>) -> Uint<256, 4> {
    let modulus = to_big_integer(modulus);
    let mut rest = to_big_integer(value);
    while rest >= modulus {
        rest.sub_with_borrow(&modulus);
    }
    from_big_integer(rest)
}

#[test]
fn test_fq_roundtrip() {
    let modulus: Uint<256, 4> = from_big_integer(FqConfig::MODULUS);
    let mut runner = TestRunner::deterministic();
    runner
        .run(&uniform4(ANY), |limbs| {
            let value = Uint::<256, 4>::checked_from_limbs(limbs).unwrap();
            let value: Uint<256, 4> = reduce(value, modulus);
            let f: Fq = try_from_fixed_width_int(value, Fq::from_bigint).unwrap();
            let back: Uint<256, 4> = from_field_element(f, Fq::into_bigint);
            assert_eq!(back, value);
            Ok(())
        })
        .unwrap();
}

#[test]
fn test_fr_roundtrip() {
    let modulus: Uint<256, 4> = from_big_integer(FrConfig::MODULUS);
    let mut runner = TestRunner::deterministic();
    runner
        .run(&uniform4(ANY), |limbs| {
            let value = Uint::<256, 4>::checked_from_limbs(limbs).unwrap();
            let value: Uint<256, 4> = reduce(value, modulus);
            let f: Fr = try_from_fixed_width_int(value, Fr::from_bigint).unwrap();
            let back: Uint<256, 4> = from_field_element(f, Fr::into_bigint);
            assert_eq!(back, value);
            Ok(())
        })
        .unwrap();
}

#[test]
fn moduli_are_the_expected_integers() {
    assert_eq!(FqConfig::MODULUS.0, FQ_MODULUS);
    assert_eq!(FrConfig::MODULUS.0, FR_MODULUS);
}

#[test]
fn base_field_modulus_is_refused() {
    let value = Uint::<256, 4>::from_limbs(FQ_MODULUS);
    let converted: Result<Fq, ToFieldError> = try_from_fixed_width_int(value, Fq::from_bigint);
    assert_eq!(converted, Err(ToFieldError::NotInField));
}

#[test]
fn largest_base_field_element_is_accepted() {
    let mut limbs = FQ_MODULUS;
    limbs[0] -= 1;
    let value = Uint::<256, 4>::from_limbs(limbs);
    let converted: Result<Fq, ToFieldError> = try_from_fixed_width_int(value, Fq::from_bigint);
    let element = converted.unwrap();
    assert_eq!(
        element.into_bigint(),
        BigInt::new([
            0x3c20_8c16_d87c_fd46,
            0x9781_6a91_6871_ca8d,
            0xb850_45b6_8181_585d,
            0x3064_4e72_e131_a029,
        ])
    );
    assert_eq!(element, -Fq::from(1u64));
    let back: Uint<256, 4> = from_field_element(element, Fq::into_bigint);
    assert_eq!(back, value);
}

#[test]
fn integers_at_or_above_the_modulus_are_refused() {
    let mut above = FR_MODULUS;
    above[0] += 1;
    let cases: [[u64; 4]; 5] = [
        FR_MODULUS,
        above,
        [0, 0, 0, 0x3064_4e72_e131_a02a],
        [0, 0, 0, 0x8000_0000_0000_0000],
        [u64::MAX, u64::MAX, u64::MAX, u64::MAX],
    ];
    for limbs in cases {
        let value = Uint::<256, 4>::from_limbs(limbs);
        let converted: Result<Fr, ToFieldError> = try_from_fixed_width_int(value, Fr::from_bigint);
        assert_eq!(converted, Err(ToFieldError::NotInField));
    }
}

#[test]
fn integers_below_the_modulus_are_accepted() {
    let mut below = FR_MODULUS;
    below[0] -= 1;
    let cases: [[u64; 4]; 5] = [
        [0, 0, 0, 0],
        [1, 0, 0, 0],
        [u64::MAX, u64::MAX, u64::MAX, 0],
        [u64::MAX, u64::MAX, u64::MAX, 0x3064_4e72_e131_a028],
        below,
    ];
    for limbs in cases {
        let value = Uint::<256, 4>::from_limbs(limbs);
        let element: Fr = try_from_fixed_width_int(value, Fr::from_bigint).unwrap();
        assert_eq!(element.into_bigint().0, limbs);
        let back: Uint<256, 4> = from_field_element(element, Fr::into_bigint);
        assert_eq!(back.into_limbs(), limbs);
    }
}

#[test]
fn small_integers_become_the_elements_they_stand_for() {
    let seven = Uint::<256, 4>::from_limbs([7, 0, 0, 0]);
    let element: Fq = try_from_fixed_width_int(seven, Fq::from_bigint).unwrap();
    assert_eq!(element, Fq::from(7u64));
    let zero = Uint::<256, 4>::from_limbs([0, 0, 0, 0]);
    let element: Fq = try_from_fixed_width_int(zero, Fq::from_bigint).unwrap();
    assert_eq!(element, Fq::from(0u64));
}

#[test]
fn reduced_integer_is_accepted() {
    let modulus = Uint::<256, 4>::from_limbs(FQ_MODULUS);
    let mut limbs = FQ_MODULUS;
    limbs[0] += 5;
    let reduced = reduce(Uint::<256, 4>::from_limbs(limbs), modulus);
    assert_eq!(reduced.into_limbs(), [5u64, 0, 0, 0]);
    let element: Fq = try_from_fixed_width_int(reduced, Fq::from_bigint).unwrap();
    assert_eq!(element, Fq::from(5u64));

    let all_ones = Uint::<256, 4>::from_limbs([u64::MAX; 4]);
    let reduced = reduce(all_ones, modulus);
    let converted: Result<Fq, ToFieldError> = try_from_fixed_width_int(reduced, Fq::from_bigint);
    assert!(converted.is_ok());
}

#[test]
fn borrowed_conversions_agree_with_owned_ones() {
    let value = Uint::<256, 4>::from_limbs([12, 34, 56, 78]);
    let owned: Result<Fq, ToFieldError> = try_from_fixed_width_int(value, Fq::from_bigint);
    let borrowed: Result<Fq, ToFieldError> = try_from_fixed_width_int_ref(&value, Fq::from_bigint);
    assert_eq!(owned, borrowed);
    assert_eq!(value.into_limbs(), [12u64, 34, 56, 78]);

    let element = owned.unwrap();
    let from_owned: Uint<256, 4> = from_field_element(element, Fq::into_bigint);
    let from_borrowed: Uint<256, 4> = from_field_element_ref(&element, Fq::into_bigint);
    assert_eq!(element, Fq::from_bigint(BigInt::new([12, 34, 56, 78])).unwrap());
    assert_eq!(from_owned, from_borrowed);
    assert_eq!(from_borrowed, value);

    let refused = Uint::<256, 4>::from_limbs(FQ_MODULUS);
    let borrowed: Result<Fq, ToFieldError> =
        try_from_fixed_width_int_ref(&refused, Fq::from_bigint);
    assert_eq!(borrowed, Err(ToFieldError::NotInField));
}

#[test]
fn field_element_fits_a_narrower_width() {
    let element = -Fq::from(1u64);
    let value: Uint<254, 4> = from_field_element(element, Fq::into_bigint);
    let mut limbs = FQ_MODULUS;
    limbs[0] -= 1;
    assert_eq!(value.into_limbs(), limbs);
    let again: Fq = try_from_fixed_width_int(value, Fq::from_bigint).unwrap();
    assert_eq!(again, element);
}

#[test]
fn the_constructor_is_asked_for_the_limbs_of_the_integer() {
    let value = Uint::<128, 2>::from_limbs([41, 42]);
    let seen: Result<[u64; 2], ToFieldError> =
        try_from_fixed_width_int(value, |repr: BigInt<2>| Some(repr.0));
    assert_eq!(seen, Ok([41u64, 42]));
    let refused: Result<[u64; 2], ToFieldError> =
        try_from_fixed_width_int(value, |_repr: BigInt<2>| None);
    assert_eq!(refused, Err(ToFieldError::NotInField));
}

#[test]
fn missing_element_becomes_not_in_field() {
    assert_eq!(not_in_field_unless(Some(3u8)), Ok(3u8));
    assert_eq!(not_in_field_unless::<u8>(None), Err(ToFieldError::NotInField));
    assert_eq!(
        not_in_field_unless(Some(Fq::from(2u64))),
        Ok(Fq::from(2u64))
    );
}
