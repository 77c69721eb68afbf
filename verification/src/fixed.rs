//! Fixed-point arithmetic on `i64` values that count millionths.
//!
//! A sum or a product that leaves the range of `i64` stays at the bound it
//! crossed. A product is rounded toward zero, so that a value and its
//! negation always scale alike.

use vstd::math::abs;
use vstd::prelude::*;

verus! {

/// The number 1.
pub const ONE: i64 = 1_000_000;

/// `v`, held to the range of `i64`.
pub open spec fn saturated(v: int) -> int {
    if v < i64::MIN {
        i64::MIN as int
    } else if v > i64::MAX {
        i64::MAX as int
    } else {
        v
    }
}

/// The quotient of `n` by a positive `d`, rounded toward zero.
pub open spec fn toward_zero(n: int, d: int) -> int {
    if n >= 0 {
        n / d
    } else {
        -((-n) / d)
    }
}

/// The sum of two fixed-point numbers.
pub open spec fn fixed_sum(a: int, b: int) -> int {
    saturated(a + b)
}

/// The product of two fixed-point numbers.
pub open spec fn fixed_product(a: int, b: int) -> int {
    saturated(toward_zero(a * b, ONE as int))
}

/// Brings a wide intermediate result back into `i64`.
pub fn saturate(v: i128) -> (r: i64)
    ensures
        r == saturated(v as int),
{
    if v < i64::MIN as i128 {
        i64::MIN
    } else if v > i64::MAX as i128 {
        i64::MAX
    } else {
        v as i64
    }
}

/// Adds two fixed-point numbers.
pub fn sum(a: i64, b: i64) -> (r: i64)
    ensures
        r == fixed_sum(a as int, b as int),
{
    saturate(a as i128 + b as i128)
}

/// Multiplies two fixed-point numbers.
pub fn product(a: i64, b: i64) -> (r: i64)
    ensures
        r == fixed_product(a as int, b as int),
{
    assert(-0x4000_0000_0000_0000_0000_0000_0000_0000 <= a * b
        <= 0x4000_0000_0000_0000_0000_0000_0000_0000) by (nonlinear_arith)
        requires
            -0x8000_0000_0000_0000 <= a <= 0x7fff_ffff_ffff_ffff,
            -0x8000_0000_0000_0000 <= b <= 0x7fff_ffff_ffff_ffff,
    ;
    let wide: i128 = (a as i128) * (b as i128);
    saturate(wide / (ONE as i128))
}

/// A product with zero is zero.
pub proof fn lemma_product_zero(a: int)
    ensures
        fixed_product(a, 0) == 0,
        fixed_product(0, a) == 0,
{
    assert(a * 0 == 0 && 0 * a == 0) by (nonlinear_arith);
}

/// A factor of magnitude at most one never enlarges: the product lies
/// between zero and `a` where the factor is not negative, and between zero
/// and `-a` where it is not positive.
pub proof fn lemma_product_shrinks(a: int, f: int)
    requires
        -ONE <= f <= ONE,
    ensures
        abs(fixed_product(a, f)) <= abs(a),
        a >= 0 && f >= 0 ==> 0 <= fixed_product(a, f) <= a,
        a <= 0 && f >= 0 ==> a <= fixed_product(a, f) <= 0,
        a >= 0 && f <= 0 ==> -a <= fixed_product(a, f) <= 0,
        a <= 0 && f <= 0 ==> 0 <= fixed_product(a, f) <= -a,
{
    let p: int = a * f;
    assert(a >= 0 && f >= 0 ==> 0 <= p <= a * 1_000_000) by (nonlinear_arith)
        requires
            p == a * f,
            -1_000_000 <= f <= 1_000_000,
    ;
    assert(a <= 0 && f >= 0 ==> a * 1_000_000 <= p <= 0) by (nonlinear_arith)
        requires
            p == a * f,
            -1_000_000 <= f <= 1_000_000,
    ;
    assert(a >= 0 && f <= 0 ==> -(a * 1_000_000) <= p <= 0) by (nonlinear_arith)
        requires
            p == a * f,
            -1_000_000 <= f <= 1_000_000,
    ;
    assert(a <= 0 && f <= 0 ==> 0 <= p <= -(a * 1_000_000)) by (nonlinear_arith)
        requires
            p == a * f,
            -1_000_000 <= f <= 1_000_000,
    ;
}

} // verus!
