//! From a tick's two prices to the rate that a resolution reports.
//!
//! The rate is the mid price, rounded half-to-even to four fractional digits.
//! Prices are fixed-point integers, so the mid price is an exact decimal, and
//! `rust_decimal` rounds it.

use rust_decimal::{Decimal, RoundingStrategy};
use vstd::prelude::*;

use crate::models::{Rate, RATE_DIGITS};

verus! {

/// The number of fractional digits of a mid price: one more than a raw price
/// has, for the half.
pub const MID_PRICE_DIGITS: u32 = 6;

/// Ten to the power of `exponent`.
pub open spec fn pow10(exponent: nat) -> nat
    decreases exponent,
{
    if exponent == 0 {
        1
    } else {
        10 * pow10((exponent - 1) as nat)
    }
}

/// The integer nearest to `numerator / denominator`; where two integers are
/// equally near, the even one. For a numerator of at least zero and a
/// denominator above zero.
pub open spec fn round_half_even(numerator: int, denominator: int) -> int {
    let quotient = numerator / denominator;
    let rest = numerator % denominator;
    if 2 * rest < denominator {
        quotient
    } else if 2 * rest > denominator {
        quotient + 1
    } else if quotient % 2 == 0 {
        quotient
    } else {
        quotient + 1
    }
}

/// The mid price of a tick in ten-thousandths, rounded half-to-even. The mid
/// price is `(ask_raw + bid_raw) / 200000`, which is `(ask_raw + bid_raw) / 20`
/// ten-thousandths.
pub open spec fn mid_rate_units(ask_raw: u32, bid_raw: u32) -> int {
    round_half_even(ask_raw + bid_raw, 20)
}

/// The rounded quotient is a nearest integer: it is off by at most half a
/// unit, and by exactly half a unit only where it is even.
pub proof fn lemma_round_half_even_is_nearest(numerator: int, denominator: int)
    requires
        numerator >= 0,
        denominator > 0,
    ensures
        ({
            let rounded = round_half_even(numerator, denominator);
            let error = 2 * (rounded * denominator - numerator);
            &&& rounded >= 0
            &&& -denominator <= error <= denominator
            &&& (error == denominator || error == -denominator) ==> rounded % 2 == 0
        }),
{
    let quotient = numerator / denominator;
    let rest = numerator % denominator;
    assert(numerator == quotient * denominator + rest && 0 <= rest < denominator && quotient >= 0)
        by (nonlinear_arith)
        requires
            numerator >= 0,
            denominator > 0,
            quotient == numerator / denominator,
            rest == numerator % denominator,
    ;
    assert((quotient + 1) * denominator == quotient * denominator + denominator)
        by (nonlinear_arith);
}

/// The reported rate is the mid price to within half a ten-thousandth, and
/// even where the mid price lies exactly between two ten-thousandths.
pub proof fn lemma_mid_rate_is_nearest(ask_raw: u32, bid_raw: u32)
    ensures
        ({
            let units = mid_rate_units(ask_raw, bid_raw);
            let error = 20 * units - (ask_raw + bid_raw);
            &&& 0 <= units <= 429_496_730
            &&& -10 <= error <= 10
            &&& (error == 10 || error == -10) ==> units % 2 == 0
        }),
{
    lemma_round_half_even_is_nearest(ask_raw + bid_raw, 20);
}

/// `rust_decimal::Decimal::round_dp_with_strategy` with
/// `RoundingStrategy::MidpointNearestEven`, applied to the decimal
/// `mantissa / 10^scale` that `Decimal::new` makes, and read back with
/// `Decimal::mantissa` and `Decimal::scale`. For a number of at least zero
/// with more fractional digits than asked for, the result has `digits`
/// fractional digits and is the nearest such decimal, ties going to the even
/// mantissa. `Decimal::new` takes no scale above 28.
#[verifier::external_body]
fn decimal_round_half_even(mantissa: i64, scale: u32, digits: u32) -> (rounded: (i128, u32))
    requires
        mantissa >= 0,
        digits < scale <= 28,
    ensures
        rounded.0 == round_half_even(mantissa as int, pow10((scale - digits) as nat) as int),
        rounded.1 == digits,
{
    let rounded = Decimal::new(mantissa, scale).round_dp_with_strategy(
        digits,
        RoundingStrategy::MidpointNearestEven,
    );
    (rounded.mantissa(), rounded.scale())
}

/// The rate that a tick with these two prices is reported at: the mid price,
/// rounded half-to-even to four fractional digits.
pub fn mid_rate(ask_raw: u32, bid_raw: u32) -> (rate: Rate)
    ensures
        rate.scale == RATE_DIGITS,
        rate.mantissa == mid_rate_units(ask_raw, bid_raw),
{
    let sum: u64 = ask_raw as u64 + bid_raw as u64;
    // Half of `sum` hundred-thousandths is `5 * sum` millionths.
    let millionths: i64 = (sum * 5) as i64;
    proof {
        reveal_with_fuel(pow10, 3);
        assert(pow10(2) == 100);
        lemma_round_half_even_is_nearest(millionths as int, 100);
        lemma_mid_rate_is_nearest(ask_raw, bid_raw);
        assert(round_half_even(5 * sum, 100) == round_half_even(sum as int, 20));
    }
    let (mantissa, scale) = decimal_round_half_even(millionths, MID_PRICE_DIGITS, RATE_DIGITS);
    Rate { mantissa: mantissa as u64, scale }
}

} // verus!
