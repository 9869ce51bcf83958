//! Saturating fixed-point arithmetic on `i64`.

use vstd::prelude::*;

verus! {

/// Raw units per whole unit of a value (six decimal places).
pub const SCALE: i64 = 1_000_000;

/// Raw units per whole unit of a regression weight (twelve decimal places).
pub const WEIGHT_SCALE: i64 = 1_000_000_000_000;

/// `v` limited to the closed interval `[lo, hi]`.
pub open spec fn clamp(v: int, lo: int, hi: int) -> int {
    if v < lo {
        lo
    } else if v > hi {
        hi
    } else {
        v
    }
}

/// `v` limited to what an `i64` holds.
pub open spec fn sat(v: int) -> int {
    clamp(v, i64::MIN as int, i64::MAX as int)
}

/// Quotient of `a` by a positive `b`, rounded toward zero.
pub open spec fn trunc_div(a: int, b: int) -> int {
    if a >= 0 {
        a / b
    } else {
        -((-a) / b)
    }
}

/// Saturated sum of two values.
pub open spec fn sum_of(a: int, b: int) -> int {
    sat(a + b)
}

/// Saturated difference of two values.
pub open spec fn difference(a: int, b: int) -> int {
    sat(a - b)
}

/// Product of a quantity (value or weight) and a value; the result has the
/// scale of the first factor.
pub open spec fn product(a: int, b: int) -> int {
    sat(trunc_div(a * b, SCALE as int))
}

/// A weight applied to a value: the result is a value.
pub open spec fn weighted(w: int, x: int) -> int {
    sat(trunc_div(w * x, WEIGHT_SCALE as int))
}

/// Quotient of two values as a value; zero where the divisor is not positive.
pub open spec fn quotient(a: int, b: int) -> int {
    if b > 0 {
        sat(trunc_div(a * SCALE, b))
    } else {
        0
    }
}

/// Quotient of two values as a weight; zero where the divisor is not positive.
pub open spec fn weight_quotient(a: int, b: int) -> int {
    if b > 0 {
        sat(trunc_div(a * WEIGHT_SCALE, b))
    } else {
        0
    }
}

/// Rounding toward zero loses less than one unit: the quotient times the
/// divisor lies on the side of zero of the dividend and less than the divisor
/// away from it.
pub proof fn lemma_trunc_div_error(a: int, b: int)
    requires
        b > 0,
    ensures
        a >= 0 ==> a - b < b * trunc_div(a, b) <= a,
        a <= 0 ==> a <= b * trunc_div(a, b) < a + b,
        trunc_div(-a, b) == -trunc_div(a, b),
{
    if a >= 0 {
        assert(a - b < b * (a / b) <= a) by (nonlinear_arith)
            requires
                b > 0,
                a >= 0,
        ;
    } else {
        assert((-a) - b < b * ((-a) / b) <= -a) by (nonlinear_arith)
            requires
                b > 0,
                -a >= 0,
        ;
        assert(b * (-((-a) / b)) == -(b * ((-a) / b))) by (nonlinear_arith);
    }
}

/// The distance between two integers.
pub open spec fn distance(a: int, b: int) -> int {
    if a >= b {
        a - b
    } else {
        b - a
    }
}

/// Where it does not saturate, a product is exact to within one raw unit of
/// its result.
pub proof fn lemma_product_error(a: int, b: int)
    requires
        i64::MIN <= trunc_div(a * b, SCALE as int) <= i64::MAX,
    ensures
        distance(product(a, b) * SCALE, a * b) < SCALE,
{
    lemma_trunc_div_error(a * b, SCALE as int);
}

/// Where it does not saturate, a weight applied to a value is exact to
/// within one raw unit of the result.
pub proof fn lemma_weighted_error(w: int, x: int)
    requires
        i64::MIN <= trunc_div(w * x, WEIGHT_SCALE as int) <= i64::MAX,
    ensures
        distance(weighted(w, x) * WEIGHT_SCALE, w * x) < WEIGHT_SCALE,
{
    lemma_trunc_div_error(w * x, WEIGHT_SCALE as int);
}

/// The product of two 64-bit integers lies within 2^126 of zero.
pub proof fn lemma_product_bounds(a: i64, b: i64)
    ensures
        -0x4000_0000_0000_0000_0000_0000_0000_0000 <= a * b
            <= 0x4000_0000_0000_0000_0000_0000_0000_0000,
{
    assert(-0x4000_0000_0000_0000_0000_0000_0000_0000 <= a * b
        <= 0x4000_0000_0000_0000_0000_0000_0000_0000) by (nonlinear_arith)
        requires
            -0x8000_0000_0000_0000 <= a <= 0x7fff_ffff_ffff_ffff,
            -0x8000_0000_0000_0000 <= b <= 0x7fff_ffff_ffff_ffff,
    ;
}

/// Limits a wide integer to the range of `i64`.
pub fn saturate(v: i128) -> (r: i64)
    ensures
        r == sat(v as int),
{
    if v < i64::MIN as i128 {
        i64::MIN
    } else if v > i64::MAX as i128 {
        i64::MAX
    } else {
        v as i64
    }
}

/// Divides by a positive divisor, rounding toward zero.
pub fn divide_trunc(a: i128, b: i128) -> (r: i128)
    requires
        b > 0,
    ensures
        r == trunc_div(a as int, b as int),
{
    a / b
}

/// Adds two values, saturating.
pub fn add_values(a: i64, b: i64) -> (r: i64)
    ensures
        r == sum_of(a as int, b as int),
{
    saturate(a as i128 + b as i128)
}

/// Subtracts two values, saturating.
pub fn subtract(a: i64, b: i64) -> (r: i64)
    ensures
        r == difference(a as int, b as int),
{
    saturate(a as i128 - b as i128)
}

/// Multiplies a quantity by a value, saturating.
pub fn multiply(a: i64, b: i64) -> (r: i64)
    ensures
        r == product(a as int, b as int),
{
    proof {
        lemma_product_bounds(a, b);
    }
    let wide: i128 = (a as i128) * (b as i128);
    saturate(divide_trunc(wide, SCALE as i128))
}

/// Applies a weight to a value, saturating.
pub fn apply_weight(w: i64, x: i64) -> (r: i64)
    ensures
        r == weighted(w as int, x as int),
{
    proof {
        lemma_product_bounds(w, x);
    }
    let wide: i128 = (w as i128) * (x as i128);
    saturate(divide_trunc(wide, WEIGHT_SCALE as i128))
}

/// Divides two values, saturating; zero where the divisor is not positive.
pub fn divide(a: i64, b: i64) -> (r: i64)
    ensures
        r == quotient(a as int, b as int),
{
    if b > 0 {
        proof {
            lemma_product_bounds(a, SCALE);
        }
        let wide: i128 = (a as i128) * (SCALE as i128);
        saturate(divide_trunc(wide, b as i128))
    } else {
        0
    }
}

/// Divides two values into a weight, saturating; zero where the divisor is
/// not positive.
pub fn divide_to_weight(a: i64, b: i64) -> (r: i64)
    ensures
        r == weight_quotient(a as int, b as int),
{
    if b > 0 {
        proof {
            lemma_product_bounds(a, WEIGHT_SCALE);
        }
        let wide: i128 = (a as i128) * (WEIGHT_SCALE as i128);
        saturate(divide_trunc(wide, b as i128))
    } else {
        0
    }
}

} // verus!
