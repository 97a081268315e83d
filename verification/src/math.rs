//! Overflow-checked fixed-point arithmetic.
//!
//! Token amounts are `u128`. A [`Decimal`] is a non-negative number with
//! eighteen fractional digits, held as its count of atomic units, so the
//! decimal `1.0` has `10^18` atomics.

use vstd::prelude::*;
use vstd::arithmetic::power::pow;
use vstd::arithmetic::power::lemma_pow_increases;
use vstd::arithmetic::div_mod::lemma_div_is_ordered;
use vstd::arithmetic::div_mod::lemma_div_by_multiple;
use vstd::arithmetic::div_mod::lemma_fundamental_div_mod;
use vstd::arithmetic::div_mod::lemma_div_pos_is_pos;
use vstd::arithmetic::div_mod::lemma_mod_multiples_vanish;

verus! {

/// Atomic units in the decimal `1.0`.
pub const DECIMAL_FRACTIONAL: u128 = 1_000_000_000_000_000_000;

/// Why an arithmetic step could not produce a value.
#[derive(Clone, Copy, Debug, PartialEq, Eq, Structural)]
pub enum MathError {
    /// The exact result does not fit in 128 bits.
    Overflow,
    /// The divisor was zero.
    DivideByZero,
}

/// A fixed-point number with eighteen fractional digits.
#[derive(Clone, Copy, Debug, PartialEq, Eq, Structural)]
pub struct Decimal {
    pub atomics: u128,
}

/// `numerator / denominator` in atomic units, rounded down.
pub open spec fn ratio_floor(numerator: int, denominator: int) -> int {
    numerator * (DECIMAL_FRACTIONAL as int) / denominator
}

/// `amount` times the decimal of `atomics` atomic units, rounded down.
pub open spec fn scale_floor(amount: int, atomics: int) -> int {
    amount * atomics / (DECIMAL_FRACTIONAL as int)
}

/// The atomics of `numerator / denominator`, or why there are none.
pub open spec fn spec_ratio_atomics(numerator: u128, denominator: u128) -> Result<u128, MathError> {
    if denominator == 0 {
        Err(MathError::DivideByZero)
    } else if ratio_floor(numerator as int, denominator as int) > u128::MAX {
        Err(MathError::Overflow)
    } else {
        Ok(ratio_floor(numerator as int, denominator as int) as u128)
    }
}

/// What [`Decimal::checked_from_ratio`] returns.
pub open spec fn spec_from_ratio(numerator: u128, denominator: u128) -> Result<Decimal, MathError> {
    match spec_ratio_atomics(numerator, denominator) {
        Ok(atomics) => Ok(Decimal { atomics }),
        Err(e) => Err(e),
    }
}

/// What [`Decimal::checked_mul_floor`] returns.
pub open spec fn spec_mul_floor(amount: u128, factor: Decimal) -> Option<u128> {
    if scale_floor(amount as int, factor.atomics as int) > u128::MAX {
        None
    } else {
        Some(scale_floor(amount as int, factor.atomics as int) as u128)
    }
}

/// What [`Decimal::checked_sub`] returns.
pub open spec fn spec_decimal_sub(a: Decimal, b: Decimal) -> Option<Decimal> {
    if a.atomics < b.atomics {
        None
    } else {
        Some(Decimal { atomics: (a.atomics - b.atomics) as u128 })
    }
}

/// What [`Decimal::checked_add`] returns.
pub open spec fn spec_decimal_add(a: Decimal, b: Decimal) -> Option<Decimal> {
    if a.atomics + b.atomics > u128::MAX {
        None
    } else {
        Some(Decimal { atomics: (a.atomics + b.atomics) as u128 })
    }
}

/// `value` times `numerator` over `denominator`, rounded down, or why
/// there is no such value.
pub open spec fn spec_mul_div(value: u128, numerator: u128, denominator: u128) -> Result<u128, MathError> {
    if denominator == 0 {
        Err(MathError::DivideByZero)
    } else if (value * numerator) / (denominator as int) > u128::MAX {
        Err(MathError::Overflow)
    } else {
        Ok(((value * numerator) / (denominator as int)) as u128)
    }
}

/// Ten to the power `exp`.
pub open spec fn spec_pow10(exp: nat) -> int {
    pow(10, exp)
}

/// Calls `cosmwasm_std::Decimal::checked_from_ratio` and hands back the
/// atomics of the decimal it built. Trusted: the quotient is
/// `numerator * 10^18 / denominator` rounded down, a zero denominator is
/// reported as such, and a quotient beyond 128 bits as an overflow.
#[verifier::external_body]
pub(crate) fn ratio_atomics(numerator: u128, denominator: u128) -> (r: Result<u128, MathError>)
    ensures
        r == spec_ratio_atomics(numerator, denominator),
{
    match cosmwasm_std::Decimal::checked_from_ratio(numerator, denominator) {
        Ok(d) => Ok(d.atomics().u128()),
        Err(cosmwasm_std::CheckedFromRatioError::DivideByZero) => Err(MathError::DivideByZero),
        Err(cosmwasm_std::CheckedFromRatioError::Overflow) => Err(MathError::Overflow),
    }
}

/// Calls `cosmwasm_std::Uint128::checked_mul_floor` with the decimal of
/// `atomics` atomic units as the fraction. Trusted: the product is
/// `amount * atomics / 10^18` rounded down, computed without intermediate
/// overflow, and the call fails exactly when that value exceeds 128 bits.
#[verifier::external_body]
pub(crate) fn scaled_amount(amount: u128, atomics: u128) -> (r: Option<u128>)
    ensures
        r == spec_mul_floor(amount, (Decimal { atomics })),
{
    match cosmwasm_std::Uint128::new(amount).checked_mul_floor(cosmwasm_std::Decimal::raw(atomics)) {
        Ok(v) => Some(v.u128()),
        Err(_) => None,
    }
}

/// Calls `cosmwasm_std::Uint128::checked_multiply_ratio`. Trusted: the
/// result is `value * numerator / denominator` rounded down, with the
/// product formed without overflow; a zero denominator is reported as such,
/// and a quotient beyond 128 bits as an overflow.
#[verifier::external_body]
pub(crate) fn product_ratio(value: u128, numerator: u128, denominator: u128) -> (r: Result<u128, MathError>)
    ensures
        r == spec_mul_div(value, numerator, denominator),
{
    match cosmwasm_std::Uint128::new(value).checked_multiply_ratio(numerator, denominator) {
        Ok(v) => Ok(v.u128()),
        Err(cosmwasm_std::CheckedMultiplyRatioError::DivideByZero) => Err(MathError::DivideByZero),
        Err(cosmwasm_std::CheckedMultiplyRatioError::Overflow) => Err(MathError::Overflow),
    }
}

/// `value` times `numerator` over `denominator`, rounded down; the
/// product may exceed 128 bits as long as the quotient does not.
pub fn checked_mul_div(value: u128, numerator: u128, denominator: u128) -> (r: Result<u128, MathError>)
    ensures
        r == spec_mul_div(value, numerator, denominator),
{
    product_ratio(value, numerator, denominator)
}

impl Decimal {
    /// The decimal `0.0`.
    pub fn zero() -> (r: Decimal)
        ensures
            r.atomics == 0,
    {
        Decimal { atomics: 0 }
    }

    /// The decimal `1.0`.
    pub fn one() -> (r: Decimal)
        ensures
            r.atomics == DECIMAL_FRACTIONAL,
    {
        Decimal { atomics: DECIMAL_FRACTIONAL }
    }

    /// Whether this is `0.0`.
    pub fn is_zero(&self) -> (r: bool)
        ensures
            r == (self.atomics == 0),
    {
        self.atomics == 0
    }

    /// The ratio `numerator / denominator`, rounded down to eighteen digits.
    pub fn checked_from_ratio(numerator: u128, denominator: u128) -> (r: Result<Decimal, MathError>)
        ensures
            r == spec_from_ratio(numerator, denominator),
    {
        match ratio_atomics(numerator, denominator) {
            Ok(atomics) => Ok(Decimal { atomics }),
            Err(e) => Err(e),
        }
    }

    /// This decimal less `other`, or `None` when `other` is the larger.
    pub fn checked_sub(self, other: Decimal) -> (r: Option<Decimal>)
        ensures
            r == spec_decimal_sub(self, other),
    {
        match self.atomics.checked_sub(other.atomics) {
            Some(atomics) => Some(Decimal { atomics }),
            None => None,
        }
    }

    /// The sum of two decimals, or `None` when it exceeds the largest decimal.
    pub fn checked_add(self, other: Decimal) -> (r: Option<Decimal>)
        ensures
            r == spec_decimal_add(self, other),
    {
        match self.atomics.checked_add(other.atomics) {
            Some(atomics) => Some(Decimal { atomics }),
            None => None,
        }
    }

    /// `amount` times this decimal, rounded down to a whole amount.
    pub fn checked_mul_floor(self, amount: u128) -> (r: Option<u128>)
        ensures
            r == spec_mul_floor(amount, self),
    {
        scaled_amount(amount, self.atomics)
    }
}

/// Ten to the power `exp`, or `None` when it exceeds 128 bits.
pub fn checked_pow10(exp: u8) -> (r: Option<u128>)
    ensures
        spec_pow10(exp as nat) <= u128::MAX ==> r == Some(spec_pow10(exp as nat) as u128),
        spec_pow10(exp as nat) > u128::MAX ==> r.is_none(),
{
    let mut acc: u128 = 1;
    let mut i: u8 = 0;
    proof {
        reveal_with_fuel(pow, 2);
    }
    while i < exp
        invariant
            i <= exp,
            acc == spec_pow10(i as nat),
        decreases exp - i,
    {
        proof {
            reveal_with_fuel(pow, 2);
            assert(spec_pow10((i + 1) as nat) == 10 * spec_pow10(i as nat));
        }
        match acc.checked_mul(10) {
            Some(next) => {
                acc = next;
            },
            None => {
                proof {
                    lemma_pow_increases(10, (i + 1) as nat, exp as nat);
                }
                return None;
            },
        }
        i = i + 1;
    }
    Some(acc)
}

/// Rounding a ratio down never yields more than the exact quotient:
/// the atomics times the denominator stay within the scaled numerator.
pub proof fn lemma_ratio_floor_bounds(numerator: int, denominator: int)
    requires
        numerator >= 0,
        denominator > 0,
    ensures
        0 <= ratio_floor(numerator, denominator),
        ratio_floor(numerator, denominator) * denominator <= numerator * (DECIMAL_FRACTIONAL as int),
        numerator * (DECIMAL_FRACTIONAL as int) < (ratio_floor(numerator, denominator) + 1)
            * denominator,
{
    let x = numerator * (DECIMAL_FRACTIONAL as int);
    assert(x >= 0) by (nonlinear_arith)
        requires
            numerator >= 0,
            x == numerator * (DECIMAL_FRACTIONAL as int),
    ;
    lemma_fundamental_div_mod(x, denominator);
    lemma_div_pos_is_pos(x, denominator);
    assert(0 <= x % denominator < denominator);
    assert(denominator * (x / denominator) == (x / denominator) * denominator)
        by (nonlinear_arith);
    assert((x / denominator + 1) * denominator == (x / denominator) * denominator + denominator)
        by (nonlinear_arith);
}

/// Scaling an amount by a decimal rounds down: the result times `10^18`
/// stays within the exact product and misses it by less than `10^18`.
pub proof fn lemma_scale_floor_bounds(amount: int, atomics: int)
    requires
        amount >= 0,
        atomics >= 0,
    ensures
        0 <= scale_floor(amount, atomics),
        scale_floor(amount, atomics) * (DECIMAL_FRACTIONAL as int) <= amount * atomics,
        amount * atomics < (scale_floor(amount, atomics) + 1) * (DECIMAL_FRACTIONAL as int),
        scale_floor(amount, atomics) * (DECIMAL_FRACTIONAL as int) == amount * atomics - (amount
            * atomics) % (DECIMAL_FRACTIONAL as int),
{
    let one = DECIMAL_FRACTIONAL as int;
    let x = amount * atomics;
    assert(x >= 0) by (nonlinear_arith)
        requires
            amount >= 0,
            atomics >= 0,
            x == amount * atomics,
    ;
    lemma_fundamental_div_mod(x, one);
    lemma_div_pos_is_pos(x, one);
    assert(one * (x / one) == (x / one) * one) by (nonlinear_arith);
    assert((x / one + 1) * one == (x / one) * one + one) by (nonlinear_arith);
}

/// Scaling is monotone in the amount.
pub proof fn lemma_scale_floor_monotone_amount(low: int, high: int, atomics: int)
    requires
        0 <= low <= high,
        atomics >= 0,
    ensures
        scale_floor(low, atomics) <= scale_floor(high, atomics),
{
    assert(low * atomics <= high * atomics) by (nonlinear_arith)
        requires
            atomics >= 0,
            0 <= low <= high,
    ;
    lemma_div_is_ordered(low * atomics, high * atomics, DECIMAL_FRACTIONAL as int);
}

/// A rate obtained as `total / duration`, scaled by a time no longer than
/// `duration`, never pays out more than `total`.
pub proof fn lemma_rate_times_time_within_total(total: int, duration: int, time: int)
    requires
        total >= 0,
        duration > 0,
        0 <= time <= duration,
    ensures
        0 <= scale_floor(time, ratio_floor(total, duration)) <= total,
{
    let one = DECIMAL_FRACTIONAL as int;
    let rate = ratio_floor(total, duration);
    lemma_ratio_floor_bounds(total, duration);
    lemma_scale_floor_bounds(time, rate);
    assert(time * rate <= duration * rate) by (nonlinear_arith)
        requires
            rate >= 0,
            0 <= time <= duration,
    ;
    assert(duration * rate == rate * duration) by (nonlinear_arith);
    assert(time * rate <= total * one);
    lemma_div_is_ordered(time * rate, total * one, one);
    assert((total * one) / one == total) by {
        lemma_mod_multiples_vanish(total, 0, one);
        lemma_fundamental_div_mod(total * one, one);
        assert(total * one == one * total) by (nonlinear_arith);
        assert((total * one) % one == 0) by {
            assert(one * total + 0 == total * one);
        }
        assert(one * ((total * one) / one) == one * total);
        assert(((total * one) / one) == total) by (nonlinear_arith)
            requires
                one * ((total * one) / one) == one * total,
                one > 0,
        ;
    }
}

/// A share of a whole is no more than the whole, and the share of all is
/// the whole: `weight * part / all` lies within `weight` for a part within
/// `all`, and is `weight` for the part that is all.
pub proof fn lemma_share_within_whole(weight: int, part: int, all: int)
    requires
        weight >= 0,
        0 <= part <= all,
        all > 0,
    ensures
        0 <= (weight * part) / all <= weight,
        (weight * all) / all == weight,
{
    assert(0 <= weight * part <= weight * all) by (nonlinear_arith)
        requires
            weight >= 0,
            0 <= part <= all,
    ;
    lemma_div_by_multiple(weight, all);
    lemma_div_is_ordered(weight * part, weight * all, all);
    lemma_div_pos_is_pos(weight * part, all);
}

} // verus!
