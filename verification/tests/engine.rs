use fractal_engine::color::encode;
use fractal_engine::complex::{Complex, complex_mul, complex_pow};
use fractal_engine::escape::{Fractal, evaluate, iterations};
use fractal_engine::fixed::{FIX_BOUND, SCALE, fix_add, fix_from_int, fix_mul, fix_sub};
use fractal_engine::render::{colored, pixel_at, render, render_parallel};
use fractal_engine::viewport::{RenderBox, VerticalMapping, map_point};

/// Fixed-point representation of a real value.
fn fix(x: f64) -> i64 {
    (x * 4294967296.0) as i64
}

/// Real value of a fixed-point scalar.
fn unfix(v: i64) -> f64 {
    (v as f64) / 4294967296.0
}

fn wide_box() -> RenderBox {
    RenderBox { left: fix(-2.5), right: fix(1.0), bottom: fix(-1.0), top: fix(1.0) }
}

const MAX_ITER: u32 = 1000;

fn threshold() -> i64 {
    fix(4.0)
}

#[test]
fn fix_arithmetic_exact() {
    assert_eq!(fix_add(fix(1.5), fix(2.25)), fix(3.75));
    assert_eq!(fix_sub(fix(1.0), fix(2.5)), fix(-1.5));
    assert_eq!(fix_mul(fix(1.5), fix(2.0)), fix(3.0));
    assert_eq!(fix_mul(fix(-1.5), fix(2.0)), fix(-3.0));
    assert_eq!(fix_mul(fix(-0.5), fix(-0.5)), fix(0.25));
    assert_eq!(fix_from_int(3), 3 * SCALE);
}

#[test]
fn fix_arithmetic_saturates() {
    assert_eq!(fix_add(FIX_BOUND, FIX_BOUND), FIX_BOUND);
    assert_eq!(fix_sub(-FIX_BOUND, FIX_BOUND), -FIX_BOUND);
    assert_eq!(fix_mul(FIX_BOUND, FIX_BOUND), FIX_BOUND);
    assert_eq!(fix_mul(FIX_BOUND, -FIX_BOUND), -FIX_BOUND);
}

#[test]
fn complex_product_matches_formula() {
    // (1 + 2i) * (3 - i) = 5 + 5i
    let a = Complex { re: fix(1.0), im: fix(2.0) };
    let b = Complex { re: fix(3.0), im: fix(-1.0) };
    let p = complex_mul(a, b);
    assert_eq!(p, Complex { re: fix(5.0), im: fix(5.0) });
}

#[test]
fn complex_cube_matches_formula() {
    // (1 + i)^3 = -2 + 2i
    let z = Complex { re: fix(1.0), im: fix(1.0) };
    let c = complex_pow(z, 3);
    assert_eq!(c, Complex { re: fix(-2.0), im: fix(2.0) });
}

#[test]
fn map_sends_first_pixel_to_near_corner() {
    let rb = wide_box();
    let s = map_point(0, 0, 700, 400, rb, VerticalMapping::BottomAtRowZero);
    assert_eq!(s.re, fix(-2.5));
    assert_eq!(s.im, fix(-1.0));
}

#[test]
fn map_sends_last_pixel_short_of_far_corner() {
    let rb = wide_box();
    let (w, h) = (700u32, 400u32);
    let s = map_point(w - 1, h - 1, w, h, rb, VerticalMapping::BottomAtRowZero);
    let expect_re = 1.0 - 3.5 / (w as f64);
    let expect_im = 1.0 - 2.0 / (h as f64);
    assert!((unfix(s.re) - expect_re).abs() < 1e-6);
    assert!((unfix(s.im) - expect_im).abs() < 1e-6);
}

#[test]
fn map_vertical_convention_is_explicit() {
    let rb = wide_box();
    let top = map_point(0, 0, 700, 400, rb, VerticalMapping::TopAtRowZero);
    let bottom = map_point(0, 0, 700, 400, rb, VerticalMapping::BottomAtRowZero);
    assert_eq!(top.im, fix(1.0));
    assert_eq!(bottom.im, fix(-1.0));
}

#[test]
fn origin_sample_never_escapes() {
    let origin = Complex { re: 0, im: 0 };
    let r = evaluate(Fractal::Mandelbrot(2), origin, MAX_ITER, threshold());
    assert_eq!(r, MAX_ITER);
}

#[test]
fn sample_three_escapes_on_first_iteration() {
    let s = Complex { re: fix(3.0), im: 0 };
    let r = evaluate(Fractal::Mandelbrot(2), s, MAX_ITER, threshold());
    assert_eq!(r, 1);
}

#[test]
fn cubic_sample_two_escapes_on_second_iteration() {
    // z1 = 0^3 + 2 = 2 with |z1|^2 = 4, not over the threshold;
    // z2 = 2^3 + 2 = 10 escapes.
    let s = Complex { re: fix(2.0), im: 0 };
    let r = evaluate(Fractal::Mandelbrot(3), s, MAX_ITER, threshold());
    assert_eq!(r, 2);
}

#[test]
fn julia_orbit_follows_its_constant() {
    // With constant 0 the Julia recurrence squares the sample: from 3 it
    // escapes at once, from 0 it never does.
    let k = Complex { re: 0, im: 0 };
    let hot = Complex { re: fix(3.0), im: 0 };
    let cold = Complex { re: 0, im: 0 };
    assert_eq!(evaluate(Fractal::Julia(2, k), hot, MAX_ITER, threshold()), 1);
    assert_eq!(evaluate(Fractal::Julia(2, k), cold, MAX_ITER, threshold()), MAX_ITER);
}

#[test]
fn evaluator_is_deterministic() {
    let s = Complex { re: fix(-0.75), im: fix(0.1) };
    let a = evaluate(Fractal::Mandelbrot(2), s, MAX_ITER, threshold());
    let b = evaluate(Fractal::Mandelbrot(2), s, MAX_ITER, threshold());
    assert_eq!(a, b);
    let z = Complex { re: fix(0.3), im: fix(0.3) };
    let c = Complex { re: fix(-0.4), im: fix(0.6) };
    let x = iterations(z, c, MAX_ITER, 2, threshold());
    let y = iterations(z, c, MAX_ITER, 2, threshold());
    assert_eq!(x, y);
}

#[test]
fn evaluator_result_within_budget() {
    let rb = wide_box();
    for col in 0..16u32 {
        for row in 0..16u32 {
            let s = map_point(col, row, 16, 16, rb, VerticalMapping::TopAtRowZero);
            let r = evaluate(Fractal::Mandelbrot(2), s, 50, threshold());
            assert!(1 <= r && r <= 50);
        }
    }
}

#[test]
fn evaluator_budget_of_one() {
    let s = Complex { re: fix(0.1), im: fix(0.1) };
    assert_eq!(evaluate(Fractal::Mandelbrot(2), s, 1, threshold()), 1);
}

#[test]
fn encode_exact_values() {
    assert_eq!(encode(1000, 1000), 0xFFFFFF);
    assert_eq!(encode(1, 1000), 0);
    assert_eq!(encode(500, 1000), 0x7F7F7F);
    assert_eq!(encode(1, 1), 0xFFFFFF);
}

#[test]
fn encode_is_monochrome() {
    for m in [1u32, 2, 7, 255, 1000] {
        for i in 1..=m.min(64) {
            let p = encode(i, m);
            assert!(p <= 0xFFFFFF);
            assert_eq!(p & 0xFF, (p >> 8) & 0xFF);
            assert_eq!((p >> 8) & 0xFF, (p >> 16) & 0xFF);
        }
    }
}

#[test]
fn render_covers_every_slot() {
    let (w, h) = (4u32, 4u32);
    let sentinel: u32 = 0xFF00_0000;
    let mut buffer = vec![sentinel; (w * h) as usize];
    render(
        &mut buffer,
        w,
        h,
        Fractal::Mandelbrot(2),
        wide_box(),
        VerticalMapping::TopAtRowZero,
        MAX_ITER,
        threshold(),
    );
    assert_eq!(buffer.len(), 16);
    for (i, &p) in buffer.iter().enumerate() {
        assert_ne!(p, sentinel);
        let expect = pixel_at(
            i,
            w,
            h,
            Fractal::Mandelbrot(2),
            wide_box(),
            VerticalMapping::TopAtRowZero,
            MAX_ITER,
            threshold(),
        );
        assert_eq!(p, expect);
    }
}

#[test]
fn parallel_render_matches_sequential() {
    let (w, h) = (8u32, 5u32);
    let sentinel: u32 = 0xFF00_0000;
    let mut seq = vec![sentinel; (w * h) as usize];
    let mut par = vec![sentinel; (w * h) as usize];
    let rb = wide_box();
    render(&mut seq, w, h, Fractal::Mandelbrot(2), rb, VerticalMapping::TopAtRowZero, 100, threshold());
    render_parallel(
        &mut par,
        w,
        h,
        Fractal::Mandelbrot(2),
        rb,
        VerticalMapping::TopAtRowZero,
        100,
        threshold(),
    );
    assert_eq!(seq, par);
    assert!(par.iter().all(|&p| p != sentinel));
}

#[test]
fn rendered_pixels_are_monochrome() {
    let (w, h) = (6u32, 6u32);
    let mut buffer = vec![0u32; (w * h) as usize];
    render_parallel(
        &mut buffer,
        w,
        h,
        Fractal::Mandelbrot(2),
        wide_box(),
        VerticalMapping::TopAtRowZero,
        40,
        threshold(),
    );
    for &p in &buffer {
        assert_eq!(p >> 24, 0);
        assert_eq!(p & 0xFF, (p >> 8) & 0xFF);
        assert_eq!((p >> 8) & 0xFF, (p >> 16) & 0xFF);
    }
}

#[test]
fn colored_matches_composition() {
    let rb = wide_box();
    let (w, h) = (10u32, 10u32);
    let x = 3usize;
    let y = 7usize;
    let s = map_point(x as u32, y as u32, w, h, rb, VerticalMapping::TopAtRowZero);
    let iters = evaluate(Fractal::Mandelbrot(2), s, MAX_ITER, threshold());
    let direct = colored(
        x,
        y,
        w,
        h,
        Fractal::Mandelbrot(2),
        rb,
        VerticalMapping::TopAtRowZero,
        MAX_ITER,
        threshold(),
    );
    assert_eq!(direct, encode(iters, MAX_ITER));
}
