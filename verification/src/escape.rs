//! The escape-time evaluator.
//!
//! For a sample point and a fractal variant the evaluator iterates
//! `z = z^power + c` up to an iteration budget, counting each step taken,
//! and stops as soon as the squared magnitude of `z` crosses the escape
//! threshold. The count is incremented before the test, so the result is
//! always at least 1 and at most the budget.

use vstd::prelude::*;
use crate::complex::{
    Complex, CpxView, cadd_spec, cmul_spec, complex_add, complex_pow, cpow_spec, cpx_ok, escaped,
    escaped_spec,
};
use crate::fixed::fix_ok;

verus! {

/// The fractal variant: Mandelbrot with an integer exponent, or Julia with
/// the same exponent plus a fixed complex constant.
#[derive(Clone, Copy, Debug)]
pub enum Fractal {
    Mandelbrot(i32),
    Julia(i32, Complex),
}

/// The exponent of the recurrence.
pub open spec fn power_of(f: Fractal) -> int {
    match f {
        Fractal::Mandelbrot(p) => p as int,
        Fractal::Julia(p, _) => p as int,
    }
}

/// A well-formed variant: exponent at least 2, and a valid Julia constant.
pub open spec fn fractal_ok(f: Fractal) -> bool {
    match f {
        Fractal::Mandelbrot(p) => p >= 2,
        Fractal::Julia(p, k) => p >= 2 && cpx_ok(k),
    }
}

/// The origin of the complex plane.
pub open spec fn cpx_zero() -> CpxView {
    CpxView { re: 0, im: 0 }
}

/// Initial `z` of the recurrence: the origin for Mandelbrot, the sample
/// itself for Julia.
pub open spec fn init_z(f: Fractal, sample: CpxView) -> CpxView {
    match f {
        Fractal::Mandelbrot(_) => cpx_zero(),
        Fractal::Julia(_, _) => sample,
    }
}

/// Additive constant of the recurrence: the sample for Mandelbrot, the
/// fixed Julia constant for Julia.
pub open spec fn init_c(f: Fractal, sample: CpxView) -> CpxView {
    match f {
        Fractal::Mandelbrot(_) => sample,
        Fractal::Julia(_, k) => k@,
    }
}

/// One recurrence step: `z^power + c`.
pub open spec fn step_spec(z: CpxView, c: CpxView, power: nat) -> CpxView {
    cadd_spec(cpow_spec(z, power), c)
}

/// Number of recurrence steps taken from `z` before escape, with at most
/// `fuel` steps available. Each available step is counted as soon as it is
/// taken; the recursion stops after the first step whose result has
/// escaped. With no fuel the count is 0; the evaluator always starts with
/// positive fuel.
pub open spec fn eval_spec(z: CpxView, c: CpxView, power: nat, threshold: int, fuel: nat) -> nat
    decreases fuel,
{
    if fuel == 0 {
        0
    } else {
        let z2 = step_spec(z, c, power);
        if escaped_spec(z2, threshold) {
            1
        } else {
            1 + eval_spec(z2, c, power, threshold, (fuel - 1) as nat)
        }
    }
}

/// Escape count of a sample under a variant: the recurrence starting from
/// the variant's initial state, with the whole iteration budget as fuel.
pub open spec fn escape_count_spec(
    f: Fractal,
    sample: CpxView,
    max_iterations: nat,
    threshold: int,
) -> nat {
    eval_spec(
        init_z(f, sample),
        init_c(f, sample),
        power_of(f) as nat,
        threshold,
        max_iterations,
    )
}

/// Determinism of the evaluator: the contract of `evaluate` pins its
/// result to `escape_count_spec` of the inputs alone, so any two calls on
/// the same variant, sample, budget and threshold return the identical
/// count.
pub proof fn lemma_evaluator_deterministic(
    r1: u32,
    r2: u32,
    f: Fractal,
    sample: CpxView,
    max_iterations: nat,
    threshold: int,
)
    requires
        r1 == escape_count_spec(f, sample, max_iterations, threshold),
        r2 == escape_count_spec(f, sample, max_iterations, threshold),
    ensures
        r1 == r2,
{
}

/// The escape count is bounded by the fuel, and positive whenever any fuel
/// is available.
pub proof fn lemma_eval_spec_bounds(z: CpxView, c: CpxView, power: nat, threshold: int, fuel: nat)
    ensures
        eval_spec(z, c, power, threshold, fuel) <= fuel,
        fuel >= 1 ==> 1 <= eval_spec(z, c, power, threshold, fuel),
    decreases fuel,
{
    if fuel > 0 {
        let z2 = step_spec(z, c, power);
        if !escaped_spec(z2, threshold) {
            lemma_eval_spec_bounds(z2, c, power, threshold, (fuel - 1) as nat);
        }
    }
}

/// Any complex power of the origin is the origin.
pub proof fn lemma_cpow_zero(power: nat)
    requires
        power >= 1,
    ensures
        cpow_spec(cpx_zero(), power) == cpx_zero(),
    decreases power,
{
    if power > 1 {
        lemma_cpow_zero((power - 1) as nat);
        assert(cpow_spec(cpx_zero(), power) == cmul_spec(cpx_zero(), cpx_zero()));
    }
}

/// The orbit of the origin under a zero constant never moves, so it never
/// escapes a nonnegative threshold and the whole budget is always spent.
pub proof fn lemma_zero_orbit_exhausts_budget(power: nat, threshold: int, fuel: nat)
    requires
        power >= 1,
        threshold >= 0,
    ensures
        eval_spec(cpx_zero(), cpx_zero(), power, threshold, fuel) == fuel,
    decreases fuel,
{
    if fuel > 0 {
        lemma_cpow_zero(power);
        assert(step_spec(cpx_zero(), cpx_zero(), power) == cpx_zero());
        assert(!escaped_spec(cpx_zero(), threshold));
        lemma_zero_orbit_exhausts_budget(power, threshold, (fuel - 1) as nat);
    }
}

/// Count the recurrence steps taken from `z` with additive constant `c`
/// before the orbit escapes `threshold`, or `max_iterations` if it never
/// does. The result is a function of the arguments alone, so two calls on
/// the same inputs return the same count.
pub fn iterations(z: Complex, c: Complex, max_iterations: u32, power: i32, threshold: i64) -> (r:
    u32)
    requires
        cpx_ok(z),
        cpx_ok(c),
        max_iterations >= 1,
        power >= 2,
        0 <= threshold,
        fix_ok(threshold as int),
    ensures
        r == eval_spec(z@, c@, power as nat, threshold as int, max_iterations as nat),
        1 <= r <= max_iterations,
{
    let ghost full = eval_spec(z@, c@, power as nat, threshold as int, max_iterations as nat);
    let mut cur = z;
    let mut count: u32 = 0;
    while count < max_iterations
        invariant
            count <= max_iterations,
            max_iterations >= 1,
            power >= 2,
            0 <= threshold,
            fix_ok(threshold as int),
            cpx_ok(cur),
            cpx_ok(c),
            full == eval_spec(z@, c@, power as nat, threshold as int, max_iterations as nat),
            full == count + eval_spec(
                cur@,
                c@,
                power as nat,
                threshold as int,
                (max_iterations - count) as nat,
            ),
        decreases max_iterations - count,
    {
        let znew = complex_add(complex_pow(cur, power), c);
        proof {
            assert(znew@ == step_spec(cur@, c@, power as nat));
        }
        count = count + 1;
        if escaped(znew, threshold) {
            return count;
        }
        cur = znew;
    }
    count
}

/// Escape count of a sample under a fractal variant: initializes `(z, c)`
/// from the variant and runs the counting recurrence. Deterministic — the
/// result is pinned to a spec-level function of the inputs alone — and
/// always in `[1, max_iterations]`.
pub fn evaluate(fractal: Fractal, sample: Complex, max_iterations: u32, threshold: i64) -> (r: u32)
    requires
        fractal_ok(fractal),
        cpx_ok(sample),
        max_iterations >= 1,
        0 <= threshold,
        fix_ok(threshold as int),
    ensures
        r == escape_count_spec(fractal, sample@, max_iterations as nat, threshold as int),
        1 <= r <= max_iterations,
{
    match fractal {
        Fractal::Mandelbrot(power) => {
            let z = Complex { re: 0, im: 0 };
            iterations(z, sample, max_iterations, power, threshold)
        },
        Fractal::Julia(power, k) => iterations(sample, k, max_iterations, power, threshold),
    }
}

} // verus!
