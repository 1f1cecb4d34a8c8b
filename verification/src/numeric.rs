//! Fixed-point decimal numbers with eight fractional digits.
//!
//! Every quantity the feature engine reads or produces is a whole number of
//! hundred-millionths.  A quotient that is not such a whole number is cut off
//! toward zero, so a result is the exact value of its formula with everything
//! after the eighth decimal place dropped.

use vstd::prelude::*;

verus! {

/// Number of raw units in one whole unit: ten to the eighth.
pub const SCALE: i128 = 100_000_000;

/// Largest magnitude, in raw units, that a price, a size, a rate or an open
/// interest may have when it enters the engine (one hundred million whole
/// units).
pub const MAX_MAGNITUDE: i128 = 10_000_000_000_000_000;

/// Largest number of levels on one side of a book, and of trades or
/// liquidations in one snapshot.  With `MAX_MAGNITUDE` it keeps every
/// intermediate sum of products inside a 128-bit integer.
pub const MAX_ITEMS: usize = 500_000;

/// Largest magnitude of the product of two accepted values: the square of
/// `MAX_MAGNITUDE`.
pub const MAX_PRODUCT: i128 = 100_000_000_000_000_000_000_000_000_000_000;

/// Whether `n` is within the magnitude the engine accepts.
pub open spec fn in_range(n: int) -> bool {
    -MAX_MAGNITUDE <= n <= MAX_MAGNITUDE
}

/// Whether `n` is a size the engine accepts: in range and not negative.
pub open spec fn size_in_range(n: int) -> bool {
    0 <= n <= MAX_MAGNITUDE
}

/// A decimal number held as a count of hundred-millionths.
#[derive(Clone, Copy, Debug, PartialEq, Eq, Structural)]
pub struct Fixed {
    pub raw: i128,
}

impl View for Fixed {
    type V = int;

    /// The number of hundred-millionths.
    open spec fn view(&self) -> int {
        self.raw as int
    }
}

/// Quotient of `n` by a positive `d`, rounded toward zero.
pub open spec fn trunc_div(n: int, d: int) -> int
    recommends
        d > 0,
{
    if n >= 0 {
        n / d
    } else {
        -((-n) / d)
    }
}

/// Absolute value.
pub open spec fn magnitude(n: int) -> int {
    if n >= 0 {
        n
    } else {
        -n
    }
}

impl Fixed {
    /// Whether the magnitude is within `MAX_MAGNITUDE`.
    pub open spec fn bounded(&self) -> bool {
        in_range(self@)
    }

    /// Whether the value is within `MAX_MAGNITUDE` and not negative.
    pub open spec fn bounded_nonneg(&self) -> bool {
        size_in_range(self@)
    }

    /// The number with the given count of hundred-millionths.
    pub fn from_raw(raw: i128) -> (r: Fixed)
        ensures
            r@ == raw,
    {
        Fixed { raw }
    }

    /// The count of hundred-millionths.
    pub fn raw(&self) -> (r: i128)
        ensures
            r == self@,
    {
        self.raw
    }

    /// Zero.
    pub fn zero() -> (r: Fixed)
        ensures
            r@ == 0,
    {
        Fixed { raw: 0 }
    }

    /// The whole number `units`.
    pub fn from_int(units: i64) -> (r: Fixed)
        ensures
            r@ == units * SCALE,
    {
        let wide: i128 = units as i128;
        Fixed { raw: wide * SCALE }
    }

    /// Run-time test of `bounded`.
    pub fn is_bounded(&self) -> (b: bool)
        ensures
            b == self.bounded(),
    {
        -MAX_MAGNITUDE <= self.raw && self.raw <= MAX_MAGNITUDE
    }

    /// Run-time test of `bounded_nonneg`.
    pub fn is_bounded_nonneg(&self) -> (b: bool)
        ensures
            b == self.bounded_nonneg(),
    {
        0 <= self.raw && self.raw <= MAX_MAGNITUDE
    }
}

/// Division rounded toward zero, as `trunc_div` defines it.
pub fn div_trunc(n: i128, d: i128) -> (q: i128)
    requires
        d > 0,
    ensures
        q == trunc_div(n as int, d as int),
{
    n / d
}

/// Product of two accepted values.
pub fn mul_in_range(a: i128, b: i128) -> (r: i128)
    requires
        in_range(a as int),
        in_range(b as int),
    ensures
        r == a * b,
        -MAX_PRODUCT <= r <= MAX_PRODUCT,
        (a >= 0 && b >= 0) ==> r >= 0,
{
    proof {
        lemma_product_in_range(a as int, b as int);
    }
    a * b
}

/// The product of two accepted values is within `MAX_PRODUCT`, and is not
/// negative when neither factor is.
pub proof fn lemma_product_in_range(a: int, b: int)
    requires
        in_range(a),
        in_range(b),
    ensures
        -MAX_PRODUCT <= a * b <= MAX_PRODUCT,
        (a >= 0 && b >= 0) ==> a * b >= 0,
{
    assert(-100_000_000_000_000_000_000_000_000_000_000 <= a * b
        <= 100_000_000_000_000_000_000_000_000_000_000 && ((a >= 0 && b >= 0) ==> a * b >= 0))
        by (nonlinear_arith)
        requires
            -10_000_000_000_000_000 <= a <= 10_000_000_000_000_000,
            -10_000_000_000_000_000 <= b <= 10_000_000_000_000_000,
    ;
}

/// A quotient rounded toward zero lies between two whole numbers whenever the
/// exact quotient does.
pub proof fn lemma_trunc_div_between(n: int, d: int, lo: int, hi: int)
    requires
        d > 0,
        lo * d <= n,
        n <= hi * d,
    ensures
        lo <= trunc_div(n, d) <= hi,
{
    if n >= 0 {
        let q = n / d;
        assert(lo <= q && q <= hi) by (nonlinear_arith)
            requires
                d > 0,
                n >= 0,
                q == n / d,
                lo * d <= n,
                n <= hi * d,
        ;
    } else {
        let m = -n;
        let q = m / d;
        assert(lo <= -q && -q <= hi) by (nonlinear_arith)
            requires
                d > 0,
                m > 0,
                q == m / d,
                lo * d <= -m,
                -m <= hi * d,
        ;
    }
}

/// Rounding toward zero never moves a quotient across zero, and negating the
/// dividend negates the quotient.
pub proof fn lemma_trunc_div_sign(n: int, d: int)
    requires
        d > 0,
    ensures
        n >= 0 ==> trunc_div(n, d) >= 0,
        n <= 0 ==> trunc_div(n, d) <= 0,
        trunc_div(-n, d) == -trunc_div(n, d),
        n == 0 ==> trunc_div(n, d) == 0,
{
    assert(n >= 0 ==> n / d >= 0) by (nonlinear_arith)
        requires
            d > 0,
    ;
    assert(n <= 0 ==> (-n) / d >= 0) by (nonlinear_arith)
        requires
            d > 0,
    ;
    assert(0int / d == 0) by (nonlinear_arith)
        requires
            d > 0,
    ;
}

} // verus!
