//! Complex numbers over the fixed-point scalars.
//!
//! `Complex` is the executable value: two Q31.32 coordinates. `CpxView` is
//! its mathematical view, with unbounded integer coordinates, over which
//! every contract of the engine is stated.

use vstd::prelude::*;
use crate::fixed::{SCALE, add_fix, fix_add, fix_mul, fix_ok, fix_sub, mul_fix, sub_fix};

verus! {

/// A point of the complex plane, both coordinates in Q31.32 fixed point.
#[derive(Clone, Copy, Debug, PartialEq, Eq, Structural)]
pub struct Complex {
    pub re: i64,
    pub im: i64,
}

/// Mathematical view of a complex value: raw fixed-point coordinates as
/// unbounded integers.
pub struct CpxView {
    pub re: int,
    pub im: int,
}

impl View for Complex {
    type V = CpxView;

    open spec fn view(&self) -> CpxView {
        CpxView { re: self.re as int, im: self.im as int }
    }
}

/// Both coordinates within the valid fixed-point range.
pub open spec fn cpx_view_ok(z: CpxView) -> bool {
    fix_ok(z.re) && fix_ok(z.im)
}

/// Validity of an executable complex value.
pub open spec fn cpx_ok(z: Complex) -> bool {
    cpx_view_ok(z@)
}

/// Component-wise saturating sum.
pub open spec fn cadd_spec(a: CpxView, b: CpxView) -> CpxView {
    CpxView { re: add_fix(a.re, b.re), im: add_fix(a.im, b.im) }
}

/// Complex product over the saturating fixed-point operations:
/// `(a.re*b.re - a.im*b.im, a.re*b.im + a.im*b.re)`.
pub open spec fn cmul_spec(a: CpxView, b: CpxView) -> CpxView {
    CpxView {
        re: sub_fix(mul_fix(a.re, b.re), mul_fix(a.im, b.im)),
        im: add_fix(mul_fix(a.re, b.im), mul_fix(a.im, b.re)),
    }
}

/// `z` raised to the `n`th power by repeated complex multiplication
/// (left-associated, as the executable loop multiplies).
pub open spec fn cpow_spec(z: CpxView, n: nat) -> CpxView
    decreases n,
{
    if n <= 1 {
        z
    } else {
        cmul_spec(cpow_spec(z, (n - 1) as nat), z)
    }
}

/// Raw squared magnitude: `re*re + im*im`, in units of `SCALE` squared.
pub open spec fn norm_sq_raw(z: CpxView) -> int {
    z.re * z.re + z.im * z.im
}

/// The escape test. `threshold` is the squared-magnitude bound as a
/// fixed-point scalar, so the exact comparison at raw scale is against
/// `threshold * SCALE`.
pub open spec fn escaped_spec(z: CpxView, threshold: int) -> bool {
    norm_sq_raw(z) > threshold * (SCALE as int)
}

pub fn complex_add(a: Complex, b: Complex) -> (r: Complex)
    requires
        cpx_ok(a),
        cpx_ok(b),
    ensures
        r@ == cadd_spec(a@, b@),
        cpx_ok(r),
{
    Complex { re: fix_add(a.re, b.re), im: fix_add(a.im, b.im) }
}

pub fn complex_mul(a: Complex, b: Complex) -> (r: Complex)
    requires
        cpx_ok(a),
        cpx_ok(b),
    ensures
        r@ == cmul_spec(a@, b@),
        cpx_ok(r),
{
    Complex {
        re: fix_sub(fix_mul(a.re, b.re), fix_mul(a.im, b.im)),
        im: fix_add(fix_mul(a.re, b.im), fix_mul(a.im, b.re)),
    }
}

pub fn complex_pow(z: Complex, power: i32) -> (r: Complex)
    requires
        cpx_ok(z),
        power >= 1,
    ensures
        r@ == cpow_spec(z@, power as nat),
        cpx_ok(r),
{
    let mut acc = z;
    let mut k: i32 = 1;
    while k < power
        invariant
            1 <= k <= power,
            cpx_ok(z),
            cpx_ok(acc),
            acc@ == cpow_spec(z@, k as nat),
        decreases power - k,
    {
        acc = complex_mul(acc, z);
        k = k + 1;
    }
    acc
}

pub fn escaped(z: Complex, threshold: i64) -> (r: bool)
    requires
        cpx_ok(z),
        0 <= threshold,
        fix_ok(threshold as int),
    ensures
        r == escaped_spec(z@, threshold as int),
{
    let rm: u64 = if z.re < 0 {
        (-z.re) as u64
    } else {
        z.re as u64
    };
    let sm: u64 = if z.im < 0 {
        (-z.im) as u64
    } else {
        z.im as u64
    };
    proof {
        assert({
            &&& (rm as int) * (rm as int) == (z.re as int) * (z.re as int)
            &&& (sm as int) * (sm as int) == (z.im as int) * (z.im as int)
            &&& (rm as int) * (rm as int) <= 4503599627370496int * 4503599627370496int
            &&& (sm as int) * (sm as int) <= 4503599627370496int * 4503599627370496int
        })
            by (nonlinear_arith)
            requires
                rm as int == (if z.re < 0 { -(z.re as int) } else { z.re as int }),
                sm as int == (if z.im < 0 { -(z.im as int) } else { z.im as int }),
                0 <= rm as int <= 4503599627370496int,
                0 <= sm as int <= 4503599627370496int,
        ;
    }
    let rr: u128 = (rm as u128) * (rm as u128);
    let ii: u128 = (sm as u128) * (sm as u128);
    let ts: u128 = (threshold as u128) * (SCALE as u128);
    rr + ii > ts
}

} // verus!
