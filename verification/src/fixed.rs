//! Binary fixed-point scalars.
//!
//! A coordinate on one axis of the complex plane is carried as an `i64`
//! holding the real value times `SCALE` (a Q31.32 number). All engine
//! arithmetic saturates at `FIX_BOUND`, so every valid scalar keeps its
//! magnitude at most `FIX_BOUND` and no operation can overflow. Saturation
//! only matters to orbits that have already left every viewport of
//! interest: the escape test fires long before the bound is reached.

use vstd::prelude::*;

verus! {

/// One unit of the real axis, i.e. the fixed-point representation of 1.0
/// (two to the 32nd power).
pub const SCALE: i64 = 4294967296;

/// Largest magnitude a fixed-point scalar may take (two to the 52nd power,
/// i.e. the real value 1048576.0). Products of two in-bound scalars then fit
/// comfortably in a `u128` and sums in an `i64`.
pub const FIX_BOUND: i64 = 4503599627370496;

/// A scalar is valid when its magnitude is at most `FIX_BOUND`.
pub open spec fn fix_ok(v: int) -> bool {
    -(FIX_BOUND as int) <= v <= FIX_BOUND as int
}

/// Clamp a mathematical integer into the valid fixed-point range.
pub open spec fn sat_fix(v: int) -> int {
    if v > FIX_BOUND as int {
        FIX_BOUND as int
    } else if v < -(FIX_BOUND as int) {
        -(FIX_BOUND as int)
    } else {
        v
    }
}

/// Saturating fixed-point sum.
pub open spec fn add_fix(a: int, b: int) -> int {
    sat_fix(a + b)
}

/// Saturating fixed-point difference.
pub open spec fn sub_fix(a: int, b: int) -> int {
    sat_fix(a - b)
}

/// Divide a raw double-width product by `SCALE`, rounding the magnitude
/// down (truncation toward zero, as the machine division of magnitudes
/// does).
pub open spec fn scale_down(p: int) -> int {
    if p >= 0 {
        p / (SCALE as int)
    } else {
        -((-p) / (SCALE as int))
    }
}

/// Saturating fixed-point product: the exact integer product, rescaled and
/// clamped.
pub open spec fn mul_fix(a: int, b: int) -> int {
    sat_fix(scale_down(a * b))
}

/// Whole number embedded into fixed point.
pub open spec fn int_fix(n: int) -> int {
    n * (SCALE as int)
}

pub fn fix_add(a: i64, b: i64) -> (r: i64)
    requires
        fix_ok(a as int),
        fix_ok(b as int),
    ensures
        r as int == add_fix(a as int, b as int),
        fix_ok(r as int),
{
    let s: i64 = a + b;
    if s > FIX_BOUND {
        FIX_BOUND
    } else if s < -FIX_BOUND {
        -FIX_BOUND
    } else {
        s
    }
}

pub fn fix_sub(a: i64, b: i64) -> (r: i64)
    requires
        fix_ok(a as int),
        fix_ok(b as int),
    ensures
        r as int == sub_fix(a as int, b as int),
        fix_ok(r as int),
{
    let s: i64 = a - b;
    if s > FIX_BOUND {
        FIX_BOUND
    } else if s < -FIX_BOUND {
        -FIX_BOUND
    } else {
        s
    }
}

pub fn fix_mul(a: i64, b: i64) -> (r: i64)
    requires
        fix_ok(a as int),
        fix_ok(b as int),
    ensures
        r as int == mul_fix(a as int, b as int),
        fix_ok(r as int),
{
    let neg: bool = (a < 0) != (b < 0);
    let am: u64 = if a < 0 {
        (-a) as u64
    } else {
        a as u64
    };
    let bm: u64 = if b < 0 {
        (-b) as u64
    } else {
        b as u64
    };
    proof {
        assert((am as int) * (bm as int) <= 4503599627370496int * 4503599627370496int)
            by (nonlinear_arith)
            requires
                0 <= am as int <= 4503599627370496int,
                0 <= bm as int <= 4503599627370496int,
        ;
    }
    let m: u128 = (am as u128) * (bm as u128);
    proof {
        let p = (a as int) * (b as int);
        assert({
            &&& m as int == (if p >= 0 { p } else { -p })
            &&& (p > 0 ==> !neg)
            &&& (p < 0 ==> neg)
        })
            by (nonlinear_arith)
            requires
                p == (a as int) * (b as int),
                am as int == (if a < 0 { -(a as int) } else { a as int }),
                bm as int == (if b < 0 { -(b as int) } else { b as int }),
                m as int == (am as int) * (bm as int),
                neg == ((a < 0) != (b < 0)),
        ;
    }
    let q: u128 = m / (SCALE as u128);
    if q > FIX_BOUND as u128 {
        if neg {
            -FIX_BOUND
        } else {
            FIX_BOUND
        }
    } else {
        let q64: i64 = q as i64;
        if neg {
            -q64
        } else {
            q64
        }
    }
}

/// Embed a whole number of axis units into fixed point.
pub fn fix_from_int(n: i64) -> (r: i64)
    requires
        -1048576 <= n <= 1048576,
    ensures
        r as int == int_fix(n as int),
        fix_ok(r as int),
{
    n * SCALE
}

} // verus!
