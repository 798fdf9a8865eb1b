//! The color encoder.
//!
//! An escape count is turned into a grayscale intensity — the count's
//! share of the budget, scaled to 255 and rounded down — and the same
//! intensity is packed into the red, green and blue bytes of a
//! `0x00RRGGBB` pixel.

use vstd::prelude::*;
use vstd::arithmetic::div_mod::{lemma_div_is_ordered, lemma_div_multiples_vanish};
use vstd::arithmetic::mul::lemma_mul_inequality;

verus! {

/// Brightness of an escape count: `floor(iterations * 255 / max_iterations)`.
pub open spec fn intensity_spec(iterations: int, max_iterations: int) -> int {
    (iterations * 255) / max_iterations
}

/// The packed pixel: the intensity repeated in the blue, green and red
/// byte fields.
pub open spec fn encode_spec(iterations: int, max_iterations: int) -> int {
    let t = intensity_spec(iterations, max_iterations);
    t + t * 256 + t * 65536
}

/// For a count within the budget the intensity is a byte value.
pub proof fn lemma_intensity_bounds(iterations: int, max_iterations: int)
    requires
        1 <= iterations,
        iterations <= max_iterations,
    ensures
        0 <= intensity_spec(iterations, max_iterations) <= 255,
{
    lemma_mul_inequality(iterations, max_iterations, 255);
    lemma_div_is_ordered(iterations * 255, max_iterations * 255, max_iterations);
    lemma_div_multiples_vanish(255, max_iterations);
}

/// Every encoded pixel is monochrome: the three byte channels hold the
/// same value and the high byte is clear.
pub proof fn lemma_encode_monochrome(pixel: u32, iterations: u32, max_iterations: u32)
    requires
        1 <= iterations,
        iterations <= max_iterations,
        pixel == encode_spec(iterations as int, max_iterations as int),
    ensures
        pixel & 0xFF == (pixel >> 8) & 0xFF,
        (pixel >> 8) & 0xFF == (pixel >> 16) & 0xFF,
        pixel >> 24 == 0,
{
    lemma_intensity_bounds(iterations as int, max_iterations as int);
    let t = intensity_spec(iterations as int, max_iterations as int);
    let tu = t as u32;
    assert({
        &&& pixel & 0xFF == (pixel >> 8) & 0xFF
        &&& (pixel >> 8) & 0xFF == (pixel >> 16) & 0xFF
        &&& pixel >> 24 == 0
    })
        by (bit_vector)
        requires
            tu <= 255,
            pixel == tu + tu * 256 + tu * 65536,
    ;
}

/// Pack an escape count into its grayscale pixel.
pub fn encode(iterations: u32, max_iterations: u32) -> (r: u32)
    requires
        1 <= iterations,
        iterations <= max_iterations,
    ensures
        r == encode_spec(iterations as int, max_iterations as int),
        r <= 0xFFFFFF,
{
    let t64: u64 = (iterations as u64) * 255 / (max_iterations as u64);
    proof {
        lemma_intensity_bounds(iterations as int, max_iterations as int);
    }
    let t: u32 = t64 as u32;
    let packed: u32 = t | (t << 8u32) | (t << 16u32);
    proof {
        assert(packed == t + t * 256 + t * 65536) by (bit_vector)
            requires
                t <= 255,
                packed == (t | (t << 8u32) | (t << 16u32)),
        ;
    }
    packed
}

} // verus!
