use cyberswap::math::checked_mul_div;
use cyberswap::math::checked_pow10;
use cyberswap::math::Decimal;
use cyberswap::math::MathError;
use cyberswap::math::DECIMAL_FRACTIONAL;

#[test]
fn decimal_one_has_eighteen_places() {
    assert_eq!(Decimal::one().atomics, 1_000_000_000_000_000_000u128);
    assert_eq!(Decimal::one().atomics, DECIMAL_FRACTIONAL);
    assert_eq!(Decimal::zero().atomics, 0);
    assert!(Decimal::zero().is_zero());
    assert!(!Decimal::one().is_zero());
}

#[test]
fn from_ratio_rounds_down() {
    assert_eq!(
        Decimal::checked_from_ratio(1, 3),
        Ok(Decimal { atomics: 333_333_333_333_333_333 })
    );
    assert_eq!(
        Decimal::checked_from_ratio(2, 3),
        Ok(Decimal { atomics: 666_666_666_666_666_666 })
    );
    assert_eq!(Decimal::checked_from_ratio(1000, 1000), Ok(Decimal::one()));
    assert_eq!(Decimal::checked_from_ratio(0, 7), Ok(Decimal::zero()));
}

#[test]
fn from_ratio_matches_cosmwasm() {
    let cases: [(u128, u128); 5] = [
        (1, 3),
        (1000, 1000),
        (500, 100),
        (123_456_789, 987_654_321),
        (u128::MAX / DECIMAL_FRACTIONAL, 1),
    ];
    for (n, d) in cases {
        let expected = cosmwasm_std::Decimal::from_ratio(n, d).atomics().u128();
        assert_eq!(Decimal::checked_from_ratio(n, d), Ok(Decimal { atomics: expected }));
    }
}

#[test]
fn from_ratio_reports_zero_denominator() {
    assert_eq!(Decimal::checked_from_ratio(5, 0), Err(MathError::DivideByZero));
    assert_eq!(Decimal::checked_from_ratio(0, 0), Err(MathError::DivideByZero));
}

#[test]
fn from_ratio_reports_overflow() {
    assert_eq!(Decimal::checked_from_ratio(u128::MAX, 1), Err(MathError::Overflow));
    assert_eq!(
        Decimal::checked_from_ratio(u128::MAX / DECIMAL_FRACTIONAL + 1, 1),
        Err(MathError::Overflow)
    );
}

#[test]
fn mul_floor_rounds_down() {
    let third = Decimal { atomics: 333_333_333_333_333_333 };
    assert_eq!(third.checked_mul_floor(10), Some(3));
    assert_eq!(third.checked_mul_floor(3), Some(0));
    assert_eq!(Decimal::one().checked_mul_floor(77), Some(77));
    assert_eq!(Decimal::zero().checked_mul_floor(77), Some(0));
    assert_eq!(Decimal { atomics: 5 * DECIMAL_FRACTIONAL }.checked_mul_floor(100), Some(500));
}

#[test]
fn mul_floor_uses_wide_intermediate() {
    // amount * atomics exceeds 128 bits, the quotient does not
    let half = Decimal { atomics: DECIMAL_FRACTIONAL / 2 };
    assert_eq!(half.checked_mul_floor(u128::MAX), Some(u128::MAX / 2));
    assert_eq!(Decimal::one().checked_mul_floor(u128::MAX), Some(u128::MAX));
}

#[test]
fn mul_floor_matches_cosmwasm() {
    let cases: [(u128, u128); 4] = [
        (100, 5 * DECIMAL_FRACTIONAL),
        (7, 333_333_333_333_333_333),
        (u128::MAX, DECIMAL_FRACTIONAL / 3),
        (999_999_999_999, 1),
    ];
    for (amount, atomics) in cases {
        let expected = (cosmwasm_std::Uint128::new(amount) * cosmwasm_std::Decimal::raw(atomics)).u128();
        assert_eq!(Decimal { atomics }.checked_mul_floor(amount), Some(expected));
    }
}

#[test]
fn mul_floor_reports_overflow() {
    let two = Decimal { atomics: 2 * DECIMAL_FRACTIONAL };
    assert_eq!(two.checked_mul_floor(u128::MAX), None);
    assert_eq!(two.checked_mul_floor(u128::MAX / 2 + 1), None);
    assert_eq!(two.checked_mul_floor(u128::MAX / 2), Some(u128::MAX - 1));
}

#[test]
fn decimal_add_is_checked() {
    let a = Decimal { atomics: 7 };
    let b = Decimal { atomics: 8 };
    assert_eq!(a.checked_add(b), Some(Decimal { atomics: 15 }));
    assert_eq!(Decimal { atomics: u128::MAX }.checked_add(Decimal { atomics: 1 }), None);
    assert_eq!(
        Decimal { atomics: u128::MAX }.checked_add(Decimal::zero()),
        Some(Decimal { atomics: u128::MAX })
    );
}

#[test]
fn pow10_up_to_the_largest_that_fits() {
    assert_eq!(checked_pow10(0), Some(1));
    assert_eq!(checked_pow10(1), Some(10));
    assert_eq!(checked_pow10(6), Some(1_000_000));
    assert_eq!(checked_pow10(18), Some(DECIMAL_FRACTIONAL));
    assert_eq!(checked_pow10(38), Some(100_000_000_000_000_000_000_000_000_000_000_000_000));
    assert_eq!(checked_pow10(39), None);
    assert_eq!(checked_pow10(255), None);
}

#[test]
fn mul_div_rounds_down_once() {
    assert_eq!(checked_mul_div(10, 3, 4), Ok(7));
    assert_eq!(checked_mul_div(7, 0, 4), Ok(0));
    assert_eq!(checked_mul_div(0, 9, 4), Ok(0));
    assert_eq!(checked_mul_div(45_000_000_000, 2601, 2601), Ok(45_000_000_000));
    assert_eq!(checked_mul_div(45_000_000_000, 625, 2601), Ok(10_813_148_788));
    assert_eq!(checked_mul_div(5, 7, 0), Err(MathError::DivideByZero));
    assert_eq!(checked_mul_div(0, 0, 0), Err(MathError::DivideByZero));
}

#[test]
fn mul_div_uses_wide_intermediate() {
    assert_eq!(checked_mul_div(u128::MAX, u128::MAX, u128::MAX), Ok(u128::MAX));
    assert_eq!(checked_mul_div(u128::MAX, 6, 12), Ok(u128::MAX / 2));
    assert_eq!(checked_mul_div(u128::MAX, 2, 1), Err(MathError::Overflow));
    assert_eq!(checked_mul_div(u128::MAX / 2 + 1, 2, 1), Err(MathError::Overflow));
    assert_eq!(checked_mul_div(u128::MAX / 2, 2, 1), Ok(u128::MAX - 1));
}

#[test]
fn mul_div_matches_cosmwasm() {
    let cases: [(u128, u128, u128); 4] = [
        (123_456_789, 987_654_321, 1_000),
        (u128::MAX, 3, 7),
        (1, 1, u128::MAX),
        (999, u128::MAX, u128::MAX),
    ];
    for (value, numerator, denominator) in cases {
        let expected = cosmwasm_std::Uint128::new(value).multiply_ratio(numerator, denominator).u128();
        assert_eq!(checked_mul_div(value, numerator, denominator), Ok(expected));
    }
}

#[test]
fn decimal_sub_is_checked() {
    let a = Decimal { atomics: 8 };
    let b = Decimal { atomics: 7 };
    assert_eq!(a.checked_sub(b), Some(Decimal { atomics: 1 }));
    assert_eq!(a.checked_sub(a), Some(Decimal::zero()));
    assert_eq!(b.checked_sub(a), None);
}
