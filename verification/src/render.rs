//! The raster driver.
//!
//! Every linear index `i` of a flat row-major buffer is an independent
//! unit of work: derive `(x, y) = (i mod width, i div width)`, map the
//! pixel to its sample point, count its escape iterations, pack the
//! grayscale pixel, and store it at `i`. No pixel reads another, so the
//! sequential loop and the rayon fan-out fill the buffer with the same
//! contents, pinned by `pixel_spec`.

use vstd::prelude::*;
use vstd::arithmetic::div_mod::lemma_multiply_divide_lt;
use rayon::iter::{IndexedParallelIterator, IntoParallelRefMutIterator, ParallelIterator};
use crate::color::{encode, encode_spec};
use crate::complex::CpxView;
use crate::escape::{Fractal, escape_count_spec, evaluate, fractal_ok};
use crate::fixed::fix_ok;
use crate::viewport::{RenderBox, VerticalMapping, map_im_spec, map_point, map_re_spec, render_box_ok};

verus! {

/// The packed pixel for grid position `(x, y)`: the sample point under the
/// viewport, its escape count, and that count's grayscale encoding.
pub open spec fn colored_spec(
    x: int,
    y: int,
    width: int,
    height: int,
    fractal: Fractal,
    render_box: RenderBox,
    vm: VerticalMapping,
    max_iterations: int,
    threshold: int,
) -> int {
    let sample = CpxView {
        re: map_re_spec(x, width, render_box),
        im: map_im_spec(y, height, render_box, vm),
    };
    encode_spec(
        escape_count_spec(fractal, sample, max_iterations as nat, threshold) as int,
        max_iterations,
    )
}

/// The packed pixel for linear index `i` of a row-major buffer.
pub open spec fn pixel_spec(
    i: int,
    width: int,
    height: int,
    fractal: Fractal,
    render_box: RenderBox,
    vm: VerticalMapping,
    max_iterations: int,
    threshold: int,
) -> int {
    colored_spec(
        i % width,
        i / width,
        width,
        height,
        fractal,
        render_box,
        vm,
        max_iterations,
        threshold,
    )
}

/// Shared validity of the per-render configuration.
pub open spec fn config_ok(
    fractal: Fractal,
    render_box: RenderBox,
    max_iterations: int,
    threshold: int,
) -> bool {
    &&& fractal_ok(fractal)
    &&& render_box_ok(render_box)
    &&& max_iterations >= 1
    &&& 0 <= threshold
    &&& fix_ok(threshold)
}

/// Compute the packed pixel of grid position `(x, y)`: viewport mapping,
/// escape-time evaluation and color encoding in composition.
pub fn colored(
    x: usize,
    y: usize,
    width: u32,
    height: u32,
    fractal: Fractal,
    render_box: RenderBox,
    vm: VerticalMapping,
    max_iterations: u32,
    threshold: i64,
) -> (r: u32)
    requires
        x < width,
        y < height,
        config_ok(fractal, render_box, max_iterations as int, threshold as int),
    ensures
        r == colored_spec(
            x as int,
            y as int,
            width as int,
            height as int,
            fractal,
            render_box,
            vm,
            max_iterations as int,
            threshold as int,
        ),
        r <= 0xFFFFFF,
{
    let sample = map_point(x as u32, y as u32, width, height, render_box, vm);
    let iters = evaluate(fractal, sample, max_iterations, threshold);
    encode(iters, max_iterations)
}

/// Compute the packed pixel of linear index `i` of a `width` by `height`
/// row-major buffer.
pub fn pixel_at(
    i: usize,
    width: u32,
    height: u32,
    fractal: Fractal,
    render_box: RenderBox,
    vm: VerticalMapping,
    max_iterations: u32,
    threshold: i64,
) -> (r: u32)
    requires
        i < (width as int) * (height as int),
        width >= 1,
        height >= 1,
        config_ok(fractal, render_box, max_iterations as int, threshold as int),
    ensures
        r == pixel_spec(
            i as int,
            width as int,
            height as int,
            fractal,
            render_box,
            vm,
            max_iterations as int,
            threshold as int,
        ),
        r <= 0xFFFFFF,
{
    let w = width as usize;
    let x = i % w;
    let y = i / w;
    proof {
        lemma_multiply_divide_lt(i as int, width as int, height as int);
    }
    colored(x, y, width, height, fractal, render_box, vm, max_iterations, threshold)
}

/// Fill the whole buffer: after the call, slot `i` holds exactly
/// `pixel_spec(i, ...)` for every index — each slot written once, none
/// skipped.
pub fn render(
    buffer: &mut Vec<u32>,
    width: u32,
    height: u32,
    fractal: Fractal,
    render_box: RenderBox,
    vm: VerticalMapping,
    max_iterations: u32,
    threshold: i64,
)
    requires
        old(buffer).len() == (width as int) * (height as int),
        width >= 1,
        height >= 1,
        config_ok(fractal, render_box, max_iterations as int, threshold as int),
    ensures
        final(buffer).len() == old(buffer).len(),
        forall|i: int|
            0 <= i < final(buffer).len() ==> final(buffer)[i] == pixel_spec(
                i,
                width as int,
                height as int,
                fractal,
                render_box,
                vm,
                max_iterations as int,
                threshold as int,
            ),
{
    let n = buffer.len();
    let mut i: usize = 0;
    while i < n
        invariant
            i <= n,
            n == buffer.len(),
            buffer.len() == (width as int) * (height as int),
            width >= 1,
            height >= 1,
            config_ok(fractal, render_box, max_iterations as int, threshold as int),
            forall|j: int|
                0 <= j < i ==> buffer[j] == pixel_spec(
                    j,
                    width as int,
                    height as int,
                    fractal,
                    render_box,
                    vm,
                    max_iterations as int,
                    threshold as int,
                ),
        decreases n - i,
    {
        let v = pixel_at(i, width, height, fractal, render_box, vm, max_iterations, threshold);
        buffer[i] = v;
        i = i + 1;
    }
}

/// Relies on rayon's `par_iter_mut` over a `Vec` paired with `enumerate`
/// and `for_each`: the parallel iterator hands out exactly one mutable
/// reference to each element together with its index, and runs the closure
/// once on each pair. The closure only stores the verified per-pixel
/// value, so every slot ends up holding `pixel_spec` of its own index.
#[verifier::external_body]
fn fill_parallel(
    buffer: &mut Vec<u32>,
    width: u32,
    height: u32,
    fractal: Fractal,
    render_box: RenderBox,
    vm: VerticalMapping,
    max_iterations: u32,
    threshold: i64,
)
    requires
        old(buffer).len() == (width as int) * (height as int),
        width >= 1,
        height >= 1,
        config_ok(fractal, render_box, max_iterations as int, threshold as int),
    ensures
        final(buffer).len() == old(buffer).len(),
        forall|i: int|
            0 <= i < final(buffer).len() ==> final(buffer)[i] == pixel_spec(
                i,
                width as int,
                height as int,
                fractal,
                render_box,
                vm,
                max_iterations as int,
                threshold as int,
            ),
{
    buffer.par_iter_mut().enumerate().for_each(|(i, slot)| {
        *slot = pixel_at(i, width, height, fractal, render_box, vm, max_iterations, threshold);
    });
}

/// `render`, with the independent pixels fanned out across rayon's worker
/// pool. The buffer contents after the call are the same as after the
/// sequential `render`.
pub fn render_parallel(
    buffer: &mut Vec<u32>,
    width: u32,
    height: u32,
    fractal: Fractal,
    render_box: RenderBox,
    vm: VerticalMapping,
    max_iterations: u32,
    threshold: i64,
)
    requires
        old(buffer).len() == (width as int) * (height as int),
        width >= 1,
        height >= 1,
        config_ok(fractal, render_box, max_iterations as int, threshold as int),
    ensures
        final(buffer).len() == old(buffer).len(),
        forall|i: int|
            0 <= i < final(buffer).len() ==> final(buffer)[i] == pixel_spec(
                i,
                width as int,
                height as int,
                fractal,
                render_box,
                vm,
                max_iterations as int,
                threshold as int,
            ),
{
    fill_parallel(buffer, width, height, fractal, render_box, vm, max_iterations, threshold);
}

} // verus!
