//! The viewport mapper.
//!
//! A `RenderBox` names the rectangle of the complex plane shown by the
//! output grid. Each pixel `(x, y)` of a `width` by `height` image is sent
//! to the point whose axis coordinates interpolate the rectangle's bounds
//! by `x / width` and `y / height`, computed in fixed point with the
//! fraction rounded down.
//!
//! The vertical direction is a parameter: sources of this engine disagree
//! on whether row zero shows the top or the bottom edge, so the caller
//! states the convention explicitly and both are specified exactly.

use vstd::prelude::*;
use vstd::arithmetic::div_mod::lemma_multiply_divide_lt;
use vstd::arithmetic::mul::lemma_mul_strict_inequality;
use crate::complex::{Complex, cpx_ok};
use crate::fixed::{SCALE, add_fix, fix_add, fix_mul, fix_ok, fix_sub, mul_fix, sub_fix};

verus! {

/// The rectangle of the complex plane under view, in fixed-point
/// coordinates.
#[derive(Clone, Copy, Debug)]
pub struct RenderBox {
    pub left: i64,
    pub right: i64,
    pub bottom: i64,
    pub top: i64,
}

/// A well-formed viewport: all bounds valid scalars, with positive extent
/// on both axes.
pub open spec fn render_box_ok(rb: RenderBox) -> bool {
    &&& fix_ok(rb.left as int)
    &&& fix_ok(rb.right as int)
    &&& fix_ok(rb.bottom as int)
    &&& fix_ok(rb.top as int)
    &&& rb.left < rb.right
    &&& rb.bottom < rb.top
}

/// Which edge of the viewport pixel row zero shows.
#[derive(Clone, Copy, Debug, PartialEq, Eq, Structural)]
pub enum VerticalMapping {
    TopAtRowZero,
    BottomAtRowZero,
}

/// The fraction `p / len` as a fixed-point scalar, rounded down.
pub open spec fn ratio_spec(p: int, len: int) -> int {
    (p * (SCALE as int)) / len
}

/// One axis of the mapping: `(p / len) * (far - near) + near`, where
/// `near` is the bound shown at `p == 0`.
pub open spec fn axis_spec(p: int, len: int, near: int, far: int) -> int {
    add_fix(mul_fix(ratio_spec(p, len), sub_fix(far, near)), near)
}

/// Real part of the sample for pixel column `x`.
pub open spec fn map_re_spec(x: int, width: int, rb: RenderBox) -> int {
    axis_spec(x, width, rb.left as int, rb.right as int)
}

/// Imaginary part of the sample for pixel row `y`, under the chosen
/// vertical convention.
pub open spec fn map_im_spec(y: int, height: int, rb: RenderBox, vm: VerticalMapping) -> int {
    match vm {
        VerticalMapping::TopAtRowZero => axis_spec(y, height, rb.top as int, rb.bottom as int),
        VerticalMapping::BottomAtRowZero => axis_spec(y, height, rb.bottom as int, rb.top as int),
    }
}

fn axis_point(p: u32, len: u32, near: i64, far: i64) -> (r: i64)
    requires
        p < len,
        fix_ok(near as int),
        fix_ok(far as int),
    ensures
        r as int == axis_spec(p as int, len as int, near as int, far as int),
        fix_ok(r as int),
{
    let num: u128 = (p as u128) * (SCALE as u128);
    let ratio: i64 = (num / (len as u128)) as i64;
    proof {
        lemma_mul_strict_inequality(p as int, len as int, SCALE as int);
        lemma_multiply_divide_lt(num as int, len as int, SCALE as int);
        assert(0 <= (ratio as int) < (SCALE as int));
    }
    fix_add(fix_mul(ratio, fix_sub(far, near)), near)
}

/// Send pixel `(x, y)` of a `width` by `height` grid to its sample point
/// of the complex plane.
pub fn map_point(x: u32, y: u32, width: u32, height: u32, rb: RenderBox, vm: VerticalMapping) -> (r:
    Complex)
    requires
        x < width,
        y < height,
        render_box_ok(rb),
    ensures
        r@.re == map_re_spec(x as int, width as int, rb),
        r@.im == map_im_spec(y as int, height as int, rb, vm),
        cpx_ok(r),
{
    let re = axis_point(x, width, rb.left, rb.right);
    let im = match vm {
        VerticalMapping::TopAtRowZero => axis_point(y, height, rb.top, rb.bottom),
        VerticalMapping::BottomAtRowZero => axis_point(y, height, rb.bottom, rb.top),
    };
    Complex { re, im }
}

/// Pixel `(0, 0)` is sent exactly to the near corner of the viewport: the
/// left edge, and — with row zero at the bottom — exactly the bottom edge
/// (with row zero at the top, exactly the top edge).
pub proof fn lemma_map_origin(width: int, height: int, rb: RenderBox)
    requires
        width > 0,
        height > 0,
        render_box_ok(rb),
    ensures
        map_re_spec(0, width, rb) == rb.left as int,
        map_im_spec(0, height, rb, VerticalMapping::BottomAtRowZero) == rb.bottom as int,
        map_im_spec(0, height, rb, VerticalMapping::TopAtRowZero) == rb.top as int,
{
    assert(ratio_spec(0, width) == 0);
    assert(ratio_spec(0, height) == 0);
    assert(mul_fix(0, sub_fix(rb.right as int, rb.left as int)) == 0);
    assert(mul_fix(0, sub_fix(rb.top as int, rb.bottom as int)) == 0);
    assert(mul_fix(0, sub_fix(rb.bottom as int, rb.top as int)) == 0);
}

} // verus!
