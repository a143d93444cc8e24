//! Fixed-point arithmetic for physical quantities.
//!
//! A quantity is an `i64` counting millionths of its unit, so `1_500_000`
//! stands for 1.5.  Multiplication of two quantities divides the raw product
//! by [`SCALE`], truncating towards zero, exactly as the executable code does.

use vstd::prelude::*;

verus! {

/// Fixed-point ticks per whole unit: quantities carry six decimal places.
pub const SCALE: i64 = 1_000_000;

/// Largest magnitude a physical quantity may have: one thousand whole units
/// (degrees, metres per second, cubic metres per second or square
/// centimetres), far beyond anything a building model holds.
pub const FIXED_ABS_MAX: i64 = 1_000_000_000;

/// A quantity within the representable physical range.
pub open spec fn in_range(x: int) -> bool {
    -FIXED_ABS_MAX <= x <= FIXED_ABS_MAX
}

/// Division of a raw product by [`SCALE`], truncating towards zero.
pub open spec fn scale_down(p: int) -> int {
    if p >= 0 {
        p / (SCALE as int)
    } else {
        -((-p) / (SCALE as int))
    }
}

/// The product of two fixed-point quantities, a fixed-point quantity again.
pub open spec fn fixed_mul(x: int, y: int) -> int {
    scale_down(x * y)
}

/// Magnitude of an integer.
pub open spec fn abs_of(x: int) -> int {
    if x >= 0 { x } else { -x }
}

proof fn lemma_mul_magnitude(x: int, y: int)
    ensures
        abs_of(x * y) == abs_of(x) * abs_of(y),
        (x >= 0 && y >= 0) ==> x * y >= 0,
        (x < 0 && y < 0) ==> x * y >= 0,
        (x >= 0 && y < 0) ==> x * y <= 0,
        (x < 0 && y >= 0) ==> x * y <= 0,
{
    assert(abs_of(x * y) == abs_of(x) * abs_of(y)
        && ((x >= 0 && y >= 0) ==> x * y >= 0)
        && ((x < 0 && y < 0) ==> x * y >= 0)
        && ((x >= 0 && y < 0) ==> x * y <= 0)
        && ((x < 0 && y >= 0) ==> x * y <= 0)) by (nonlinear_arith);
}

/// The magnitude of a scaled-down product never exceeds the scaled-down
/// product of the factors' magnitude bounds.
pub proof fn lemma_fixed_mul_bounded(x: int, y: int, bx: int, by: int, q: int)
    requires
        abs_of(x) <= bx,
        abs_of(y) <= by,
        0 <= q,
        bx * by <= q * (SCALE as int),
    ensures
        abs_of(fixed_mul(x, y)) <= q,
{
    lemma_mul_magnitude(x, y);
    let p = abs_of(x * y);
    assert(p <= bx * by) by (nonlinear_arith)
        requires
            p == abs_of(x) * abs_of(y),
            abs_of(x) <= bx,
            abs_of(y) <= by,
            0 <= abs_of(x),
            0 <= abs_of(y),
    ;
    vstd::arithmetic::div_mod::lemma_div_is_ordered(p, q * (SCALE as int), SCALE as int);
    vstd::arithmetic::div_mod::lemma_div_multiples_vanish(q, SCALE as int);
    vstd::arithmetic::div_mod::lemma_div_pos_is_pos(p, SCALE as int);
    assert(abs_of(fixed_mul(x, y)) == p / (SCALE as int));
}

/// A scaled-down product of non-negative quantities is non-negative.
pub proof fn lemma_fixed_mul_nonneg(x: int, y: int)
    requires
        x >= 0,
        y >= 0,
    ensures
        fixed_mul(x, y) >= 0,
{
    lemma_mul_magnitude(x, y);
    vstd::arithmetic::div_mod::lemma_div_pos_is_pos(x * y, SCALE as int);
}

/// A quantity scaled-down-multiplied by itself is non-negative.
pub proof fn lemma_fixed_square_nonneg(x: int)
    ensures
        fixed_mul(x, x) >= 0,
{
    assert(x * x >= 0) by (nonlinear_arith);
    vstd::arithmetic::div_mod::lemma_div_pos_is_pos(x * x, SCALE as int);
}

/// Fixed-point multiplication.
pub fn mul_fixed(x: i64, y: i64) -> (r: i64)
    requires
        -(i64::MAX as int) <= fixed_mul(x as int, y as int) <= i64::MAX as int,
    ensures
        r as int == fixed_mul(x as int, y as int),
{
    let negative: bool = (x < 0) != (y < 0);
    let mx: u128 = (if x < 0 { -(x as i128) } else { x as i128 }) as u128;
    let my: u128 = (if y < 0 { -(y as i128) } else { y as i128 }) as u128;
    proof {
        assert(mx == abs_of(x as int) && my == abs_of(y as int));
        lemma_mul_magnitude(x as int, y as int);
        assert(mx * my == abs_of((x as int) * (y as int))) by (nonlinear_arith)
            requires
                mx == abs_of(x as int),
                my == abs_of(y as int),
                abs_of((x as int) * (y as int)) == abs_of(x as int) * abs_of(y as int),
        ;
    }
    let q: u128 = (mx * my) / (SCALE as u128);
    proof {
        assert(q == abs_of((x as int) * (y as int)) / (SCALE as int));
        if negative {
            assert((x as int) * (y as int) <= 0);
            assert(scale_down((x as int) * (y as int)) == -(q as int));
        } else {
            assert((x as int) * (y as int) >= 0);
            assert(scale_down((x as int) * (y as int)) == q as int);
        }
    }
    if negative {
        -(q as i64)
    } else {
        q as i64
    }
}

/// Magnitude of a fixed-point quantity.
pub fn abs_fixed(x: i64) -> (r: i64)
    requires
        x != i64::MIN,
    ensures
        r as int == abs_of(x as int),
{
    if x < 0 { -x } else { x }
}

/// `r` is the integer square root of `x`, rounded down.
pub open spec fn is_sqrt_floor(x: int, r: int) -> bool {
    0 <= r && r * r <= x && x < (r + 1) * (r + 1)
}

/// The integer square root of a non-negative `x`, rounded down.
pub open spec fn sqrt_floor(x: int) -> int {
    choose|r: int| is_sqrt_floor(x, r)
}

/// No two integers can both be the rounded-down square root of `x`.
pub proof fn lemma_sqrt_floor_unique(x: int, r1: int, r2: int)
    requires
        is_sqrt_floor(x, r1),
        is_sqrt_floor(x, r2),
    ensures
        r1 == r2,
{
    assert(r1 == r2) by (nonlinear_arith)
        requires
            0 <= r1 && r1 * r1 <= x && x < (r1 + 1) * (r1 + 1),
            0 <= r2 && r2 * r2 <= x && x < (r2 + 1) * (r2 + 1),
    ;
}

/// Every non-negative `x` has a rounded-down square root, and [`sqrt_floor`]
/// denotes it.
pub proof fn lemma_sqrt_floor_exists(x: int)
    requires
        0 <= x,
    ensures
        is_sqrt_floor(x, sqrt_floor(x)),
    decreases x,
{
    if x == 0 {
        assert(is_sqrt_floor(0, 0)) by (nonlinear_arith);
    } else {
        lemma_sqrt_floor_exists(x - 1);
        let r = sqrt_floor(x - 1);
        if x < (r + 1) * (r + 1) {
            assert(is_sqrt_floor(x, r));
        } else {
            assert(is_sqrt_floor(x, r + 1)) by (nonlinear_arith)
                requires
                    0 <= r && r * r <= x - 1 && x - 1 < (r + 1) * (r + 1),
                    x >= (r + 1) * (r + 1),
            ;
        }
    }
    let w = choose|w: int| is_sqrt_floor(x, w);
    lemma_sqrt_floor_unique(x, w, sqrt_floor(x));
}

/// Integer square root of `x`, rounded down, by bisection.
pub fn isqrt(x: u128) -> (r: u64)
    ensures
        is_sqrt_floor(x as int, r as int),
{
    let mut lo: u128 = 0;
    let mut hi: u128 = 0x1_0000_0000_0000_0000;
    proof {
        assert((0x1_0000_0000_0000_0000 as int) * (0x1_0000_0000_0000_0000 as int) > x as int)
            by (nonlinear_arith)
            requires x <= u128::MAX,
        ;
    }
    while hi - lo > 1
        invariant
            0 <= lo < hi <= 0x1_0000_0000_0000_0000,
            (lo as int) * (lo as int) <= x as int,
            (x as int) < (hi as int) * (hi as int),
        decreases hi - lo,
    {
        let mid: u128 = lo + (hi - lo) / 2;
        proof {
            assert((mid as int) * (mid as int) <= (0xffff_ffff_ffff_ffff as int) * (0xffff_ffff_ffff_ffff as int))
                by (nonlinear_arith)
                requires 0 <= mid <= 0xffff_ffff_ffff_ffff,
            ;
        }
        if mid * mid <= x {
            lo = mid;
        } else {
            hi = mid;
        }
    }
    proof {
        assert(hi == lo + 1);
    }
    lo as u64
}

} // verus!
