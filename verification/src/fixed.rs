//! Fixed-point arithmetic for the sandbox.
//!
//! World coordinates, cursor positions and angles are held as signed
//! 64-bit integers in micro-units: `SCALE` units stand for one world unit
//! (or one pixel, or one radian). All arithmetic is exact integer
//! arithmetic; products are truncated toward zero when divided, and sums
//! saturate at the `i64` range instead of wrapping.

use vstd::prelude::*;

verus! {

/// Fixed-point units per world unit (also per pixel and per radian).
pub const SCALE: i64 = 1_000_000;

/// A 2D fixed-point vector (screen-space: cursor positions, drag deltas).
#[derive(Clone, Copy, PartialEq, Eq, Structural, Debug)]
pub struct Vec2Fx {
    pub x: i64,
    pub y: i64,
}

/// A 3D fixed-point vector (world-space translations and directions).
#[derive(Clone, Copy, PartialEq, Eq, Structural, Debug)]
pub struct Vec3Fx {
    pub x: i64,
    pub y: i64,
    pub z: i64,
}

/// Division truncated toward zero (the way hardware integer division
/// rounds), for a positive divisor.
pub open spec fn div_trunc(a: int, d: int) -> int {
    if a >= 0 {
        a / d
    } else {
        -((-a) / d)
    }
}

/// Clamp an unbounded integer into the `i64` range.
pub open spec fn clamp_i64(a: int) -> int {
    if a > i64::MAX {
        i64::MAX as int
    } else if a < i64::MIN {
        i64::MIN as int
    } else {
        a
    }
}

/// The magnitude of an `i64`, wide enough to hold `|i64::MIN|`.
pub(crate) fn abs_mag(a: i64) -> (r: u128)
    ensures
        r == if a >= 0 { a as int } else { -(a as int) },
{
    if a >= 0 {
        a as u128
    } else {
        (-(a as i128)) as u128
    }
}

proof fn lemma_abs_mul(a: int, b: int, an: int, bn: int)
    by (nonlinear_arith)
    requires
        an == if a >= 0 { a } else { -a },
        bn == if b >= 0 { b } else { -b },
    ensures
        0 <= an,
        0 <= bn,
        an * bn == if (a < 0) != (b < 0) { -(a * b) } else { a * b },
{
}

/// Saturating addition: the exact sum where it fits, else the nearer
/// end of the `i64` range.
pub fn add_clamped(a: i64, b: i64) -> (r: i64)
    ensures
        r == clamp_i64(a + b),
{
    let s: i128 = a as i128 + b as i128;
    if s > i64::MAX as i128 {
        i64::MAX
    } else if s < i64::MIN as i128 {
        i64::MIN
    } else {
        s as i64
    }
}

/// Saturating subtraction, the mirror of [`add_clamped`].
pub fn sub_clamped(a: i64, b: i64) -> (r: i64)
    ensures
        r == clamp_i64(a - b),
{
    let s: i128 = a as i128 - b as i128;
    if s > i64::MAX as i128 {
        i64::MAX
    } else if s < i64::MIN as i128 {
        i64::MIN
    } else {
        s as i64
    }
}

/// `a * b / d` with the full product taken exactly, the quotient
/// truncated toward zero, and the result saturated at the `i64` range.
pub fn mul_div_clamped(a: i64, b: i64, d: u64) -> (r: i64)
    requires
        1 <= d,
    ensures
        r == clamp_i64(div_trunc(a * b, d as int)),
{
    let an: u128 = abs_mag(a);
    let bn: u128 = abs_mag(b);
    proof {
        lemma_abs_mul(a as int, b as int, an as int, bn as int);
        assert(an * bn <= 0x8000000000000000u128 * 0x8000000000000000u128) by (nonlinear_arith)
            requires
                0 <= an <= 0x8000000000000000u128,
                0 <= bn <= 0x8000000000000000u128,
        ;
    }
    let prod: u128 = an * bn;
    let q: u128 = prod / (d as u128);
    let neg: bool = (a < 0) != (b < 0);
    if !neg {
        if q > i64::MAX as u128 {
            i64::MAX
        } else {
            q as i64
        }
    } else {
        if q >= 9_223_372_036_854_775_808u128 {
            i64::MIN
        } else {
            -(q as i64)
        }
    }
}

/// `r` is the integer square root of `n` rounded down.
pub open spec fn is_sqrt_floor(n: int, r: int) -> bool {
    &&& 0 <= r
    &&& r * r <= n
    &&& n < (r + 1) * (r + 1)
}

/// The integer square root rounded down, as a recursive definition.
pub open spec fn sqrt_floor(n: int) -> int
    decreases n,
{
    if n <= 0 {
        0
    } else {
        let p = sqrt_floor(n - 1);
        if (p + 1) * (p + 1) <= n {
            p + 1
        } else {
            p
        }
    }
}

/// `sqrt_floor` satisfies its defining property.
pub proof fn lemma_sqrt_floor(n: int)
    requires
        0 <= n,
    ensures
        is_sqrt_floor(n, sqrt_floor(n)),
    decreases n,
{
    if n == 0 {
    } else {
        lemma_sqrt_floor(n - 1);
        let p = sqrt_floor(n - 1);
        if (p + 1) * (p + 1) <= n {
            assert(n == (p + 1) * (p + 1));
            assert((p + 1) * (p + 1) < (p + 2) * (p + 2)) by (nonlinear_arith)
                requires
                    0 <= p,
            ;
        }
    }
}

/// Only one integer is the floored square root of `n`.
pub proof fn lemma_sqrt_floor_unique(n: int, a: int, b: int)
    by (nonlinear_arith)
    requires
        is_sqrt_floor(n, a),
        is_sqrt_floor(n, b),
    ensures
        a == b,
{
}

/// The integer square root of `n`, rounded down.
pub fn isqrt(n: u128) -> (r: u64)
    ensures
        r == sqrt_floor(n as int),
        is_sqrt_floor(n as int, r as int),
{
    let mut lo: u128 = 0;
    let mut hi: u128 = 0x1_0000_0000_0000_0000;
    while hi - lo > 1
        invariant
            lo < hi <= 0x1_0000_0000_0000_0000u128,
            lo * lo <= n,
            n < hi * hi,
        decreases hi - lo,
    {
        let mid: u128 = lo + (hi - lo) / 2;
        proof {
            assert(mid * mid < 0x1_0000_0000_0000_0000u128 * 0x1_0000_0000_0000_0000u128)
                by (nonlinear_arith)
                requires
                    0 <= mid < 0x1_0000_0000_0000_0000u128,
            ;
        }
        let sq: u128 = mid * mid;
        if sq <= n {
            lo = mid;
        } else {
            hi = mid;
        }
    }
    proof {
        lemma_sqrt_floor(n as int);
        lemma_sqrt_floor_unique(n as int, lo as int, sqrt_floor(n as int));
    }
    lo as u64
}

} // verus!
