//! Fixed-point arithmetic in millionths.
//!
//! A fractional quantity `q` is stored as the integer `q * ONE`: lengths in
//! millionths of a world unit, angles in microradians, sines and cosines in
//! millionths, cursor coordinates in millionths of a pixel. Times are whole
//! microseconds. Division rounds toward zero, so that a quantity and its
//! negation round alike, and a result that does not fit in an `i64` is
//! replaced by the nearest `i64`.

use vstd::prelude::*;

verus! {

/// The number one, in millionths.
pub const ONE: i64 = 1_000_000;

/// The `i64` nearest to `x`.
pub open spec fn saturate(x: int) -> i64 {
    if x < i64::MIN {
        i64::MIN
    } else if x > i64::MAX {
        i64::MAX
    } else {
        x as i64
    }
}

/// `x` moved into the interval from `lo` to `hi`.
pub open spec fn clamp(x: int, lo: int, hi: int) -> int {
    if x < lo {
        lo
    } else if x > hi {
        hi
    } else {
        x
    }
}

/// `a / b`, rounded toward zero.
pub open spec fn quotient(a: int, b: int) -> int
    recommends
        b > 0,
{
    if a >= 0 {
        a / b
    } else {
        -((-a) / b)
    }
}

/// The product of two quantities in millionths, itself in millionths.
pub open spec fn product(a: int, b: int) -> int {
    quotient(a * b, ONE as int)
}

/// The time from `since` to `now` in microseconds; zero where `now` is the earlier.
pub open spec fn elapsed(since: u64, now: u64) -> u64 {
    if now >= since {
        (now - since) as u64
    } else {
        0
    }
}

/// Narrows a wide intermediate result to the nearest `i64`.
pub fn saturating(x: i128) -> (r: i64)
    ensures
        r == saturate(x as int),
{
    if x > i64::MAX as i128 {
        i64::MAX
    } else if x < i64::MIN as i128 {
        i64::MIN
    } else {
        x as i64
    }
}

/// Divides by a positive number, rounding toward zero.
pub fn divide(a: i128, b: i128) -> (r: i128)
    requires
        b > 0,
    ensures
        r == quotient(a as int, b as int),
{
    a / b
}

/// Multiplies two quantities in millionths.
pub fn multiply(a: i64, b: i64) -> (r: i64)
    ensures
        r == saturate(product(a as int, b as int)),
{
    proof {
        lemma_product_fits(a as int, b as int);
    }
    let wide: i128 = (a as i128) * (b as i128);
    saturating(divide(wide, ONE as i128))
}

/// Microseconds from `since` to `now`; zero where the clock ran backwards.
pub fn elapsed_between(since: u64, now: u64) -> (r: u64)
    ensures
        r == elapsed(since, now),
{
    now.saturating_sub(since)
}

/// Rounding toward zero treats a number and its negation alike.
pub proof fn lemma_quotient_odd(a: int, b: int)
    requires
        b >= 1,
    ensures
        quotient(-a, b) == -quotient(a, b),
{
    if a == 0 {
        assert(0int / b == 0) by (nonlinear_arith)
            requires
                b >= 1,
        ;
    }
}

/// A quotient lies between zero and its dividend.
pub proof fn lemma_quotient_between(a: int, b: int)
    requires
        b >= 1,
    ensures
        a >= 0 ==> 0 <= quotient(a, b) <= a,
        a <= 0 ==> a <= quotient(a, b) <= 0,
{
    if a >= 0 {
        assert(0 <= a / b <= a) by (nonlinear_arith)
            requires
                a >= 0,
                b >= 1,
        ;
    } else {
        assert(0 <= (-a) / b <= -a) by (nonlinear_arith)
            requires
                -a >= 0,
                b >= 1,
        ;
    }
}

/// A signed 64-bit number times a 64-bit number of either kind fits in 128 bits.
pub proof fn lemma_product_fits(a: int, b: int)
    requires
        i64::MIN <= a <= i64::MAX,
        i64::MIN <= b <= u64::MAX,
    ensures
        i128::MIN < a * b < i128::MAX,
{
    assert(i128::MIN < a * b < i128::MAX) by (nonlinear_arith)
        requires
            -0x8000_0000_0000_0000 <= a <= 0x7fff_ffff_ffff_ffff,
            -0x8000_0000_0000_0000 <= b <= 0xffff_ffff_ffff_ffff,
    {
        if a >= 0 && b >= 0 {
            assert(a * b <= 0x7fff_ffff_ffff_ffff * 0xffff_ffff_ffff_ffff);
        } else if a >= 0 {
            assert(a * b >= 0x7fff_ffff_ffff_ffff * (-0x8000_0000_0000_0000));
        } else if b >= 0 {
            assert(a * b >= -0x8000_0000_0000_0000 * 0xffff_ffff_ffff_ffff);
        } else {
            assert(a * b <= (-0x8000_0000_0000_0000) * (-0x8000_0000_0000_0000));
        }
    }
}

} // verus!
