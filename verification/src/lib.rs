//! An escape-time fractal render engine.
//!
//! The engine maps each pixel of a flat row-major buffer to a point of the
//! complex plane, iterates a complex recurrence (Mandelbrot or Julia) until
//! the orbit escapes or an iteration budget runs out, and packs the escape
//! count into a grayscale pixel. Complex coordinates are carried as binary
//! fixed-point numbers so that every arithmetic step has an exact meaning.

pub mod color;
pub mod complex;
pub mod escape;
pub mod fixed;
pub mod render;
pub mod viewport;
