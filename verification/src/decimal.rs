//! Conversion of arbitrary-precision decimals into fixed-point numbers, and
//! cutting a fixed-point number down to fewer decimal places.
//!
//! A `rust_decimal::Decimal` is a whole-number mantissa with a scale: the
//! number of its digits that stand after the decimal point.  The engine keeps
//! eight decimal places, so a decimal with a smaller scale is widened exactly
//! and one with a larger scale is cut off toward zero.

use vstd::prelude::*;
use crate::numeric::{Fixed, div_trunc, trunc_div};

verus! {

/// Declares `rust_decimal::Decimal` as a type whose inside is not looked at.
#[verifier::external_type_specification]
#[verifier::external_body]
pub struct ExDecimal(rust_decimal::Decimal);

/// The mantissa of a decimal: the number with its decimal point removed.
pub uninterp spec fn decimal_mantissa(d: rust_decimal::Decimal) -> int;

/// The scale of a decimal: how many digits of the mantissa stand after the
/// decimal point.
pub uninterp spec fn decimal_scale(d: rust_decimal::Decimal) -> nat;

/// Calls `rust_decimal::Decimal::mantissa`.  The result is taken to be a
/// function of the decimal alone, named `decimal_mantissa`; nothing else is
/// claimed of it.
#[verifier::external_body]
fn mantissa_of(d: &rust_decimal::Decimal) -> (m: i128)
    ensures
        m == decimal_mantissa(*d),
{
    d.mantissa()
}

/// Calls `rust_decimal::Decimal::scale`.  The result is taken to be a
/// function of the decimal alone, named `decimal_scale`; nothing else is
/// claimed of it.
#[verifier::external_body]
fn scale_of(d: &rust_decimal::Decimal) -> (s: u32)
    ensures
        s == decimal_scale(*d),
{
    d.scale()
}

/// Ten to the power `e`.
pub open spec fn pow10(e: nat) -> int
    decreases e,
{
    if e == 0 {
        1
    } else {
        10 * pow10((e - 1) as nat)
    }
}

/// The largest exponent whose power of ten fits in 128 bits.
pub const MAX_EXPONENT: u32 = 38;

/// Ten to the power `MAX_EXPONENT`.
pub const MAX_POWER: i128 = 100_000_000_000_000_000_000_000_000_000_000_000_000;

/// Powers of ten are positive and grow with the exponent, and the largest one
/// that fits is `MAX_POWER`.
pub proof fn lemma_pow10(a: nat, b: nat)
    requires
        a <= b,
    ensures
        0 < pow10(a) <= pow10(b),
        pow10(MAX_EXPONENT as nat) == MAX_POWER,
    decreases b,
{
    if a < b {
        lemma_pow10(a, (b - 1) as nat);
    } else if a > 0 {
        lemma_pow10((a - 1) as nat, (a - 1) as nat);
    }
    assert(pow10(38) == 100_000_000_000_000_000_000_000_000_000_000_000_000) by {
        reveal_with_fuel(pow10, 39);
    }
}

/// Ten to the power `e`.
pub fn power_of_ten(e: u32) -> (r: i128)
    requires
        e <= MAX_EXPONENT,
    ensures
        r == pow10(e as nat),
        0 < r <= MAX_POWER,
{
    let mut r: i128 = 1;
    let mut i: u32 = 0;
    while i < e
        invariant
            i <= e <= MAX_EXPONENT,
            r == pow10(i as nat),
        decreases e - i,
    {
        proof {
            lemma_pow10((i + 1) as nat, MAX_EXPONENT as nat);
        }
        r = r * 10;
        i = i + 1;
    }
    proof {
        lemma_pow10(e as nat, MAX_EXPONENT as nat);
    }
    r
}

/// The value `mantissa / 10^scale` in hundred-millionths, cut off toward
/// zero.
pub open spec fn rescaled(mantissa: int, scale: nat) -> int {
    if scale <= 8 {
        mantissa * pow10((8 - scale) as nat)
    } else {
        trunc_div(mantissa, pow10((scale - 8) as nat))
    }
}

/// A number smaller in magnitude than a positive divisor divides to zero.
pub proof fn lemma_small_dividend(n: int, d: int)
    requires
        d > 0,
        -d < n < d,
    ensures
        trunc_div(n, d) == 0,
{
    if n >= 0 {
        assert(n / d == 0) by (nonlinear_arith)
            requires
                0 <= n < d,
        ;
    } else {
        assert((-n) / d == 0) by (nonlinear_arith)
            requires
                0 < -n < d,
        ;
    }
}

/// The fixed-point number for a mantissa and a scale, or nothing when it does
/// not fit in 128 bits.
pub fn fixed_from_decimal_parts(mantissa: i128, scale: u32) -> (r: Option<Fixed>)
    ensures
        match r {
            Some(v) => v@ == rescaled(mantissa as int, scale as nat),
            None => !(i128::MIN <= rescaled(mantissa as int, scale as nat) <= i128::MAX),
        },
{
    if scale <= 8 {
        let factor: i128 = power_of_ten(8 - scale);
        match mantissa.checked_mul(factor) {
            Some(raw) => Some(Fixed { raw }),
            None => None,
        }
    } else {
        let exponent: u32 = scale - 8;
        if exponent > MAX_EXPONENT {
            proof {
                lemma_pow10((MAX_EXPONENT + 1) as nat, exponent as nat);
                lemma_pow10(MAX_EXPONENT as nat, MAX_EXPONENT as nat);
                assert(pow10((MAX_EXPONENT + 1) as nat) == 10 * pow10(MAX_EXPONENT as nat));
                lemma_small_dividend(mantissa as int, pow10(exponent as nat));
            }
            Some(Fixed { raw: 0 })
        } else {
            Some(Fixed { raw: div_trunc(mantissa, power_of_ten(exponent)) })
        }
    }
}

/// The fixed-point number for a decimal, cut off toward zero after the eighth
/// decimal place, or nothing when it does not fit in 128 bits.
pub fn decimal_to_fixed(d: rust_decimal::Decimal) -> (r: Option<Fixed>)
    ensures
        match r {
            Some(v) => v@ == rescaled(decimal_mantissa(d), decimal_scale(d)),
            None => !(i128::MIN <= rescaled(decimal_mantissa(d), decimal_scale(d)) <= i128::MAX),
        },
{
    fixed_from_decimal_parts(mantissa_of(&d), scale_of(&d))
}

/// `raw` with everything after the first `places` decimal places dropped.
pub open spec fn truncated(raw: int, places: nat) -> int {
    if places >= 8 {
        raw
    } else {
        trunc_div(raw, pow10((8 - places) as nat)) * pow10((8 - places) as nat)
    }
}

/// Cuts a number off toward zero after `decimal_places` decimal places.  A
/// fixed-point number has eight, so asking for eight or more changes nothing.
pub fn truncate_to_decimal(num: Fixed, decimal_places: u32) -> (r: Fixed)
    ensures
        r@ == truncated(num@, decimal_places as nat),
{
    if decimal_places >= 8 {
        return num;
    }
    let unit: i128 = power_of_ten(8 - decimal_places);
    let whole: i128 = div_trunc(num.raw, unit);
    proof {
        lemma_truncation_shrinks(num.raw as int, unit as int);
    }
    Fixed { raw: whole * unit }
}

/// Cutting off toward zero and scaling back gives a number between zero and
/// the number that was cut.
pub proof fn lemma_truncation_shrinks(n: int, d: int)
    requires
        d > 0,
    ensures
        n >= 0 ==> 0 <= trunc_div(n, d) * d <= n,
        n <= 0 ==> n <= trunc_div(n, d) * d <= 0,
{
    if n >= 0 {
        assert(0 <= (n / d) * d <= n) by (nonlinear_arith)
            requires
                n >= 0,
                d > 0,
        ;
    } else {
        assert(0 <= ((-n) / d) * d <= -n) by (nonlinear_arith)
            requires
                -n > 0,
                d > 0,
        ;
        assert((-((-n) / d)) * d == -(((-n) / d) * d)) by (nonlinear_arith);
    }
}

} // verus!
