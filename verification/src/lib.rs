//! The deciding core of a path tracer.
//!
//! A renderer of this kind spends its time on arithmetic over real numbers,
//! and its correctness on a handful of decisions: which root of a quadratic
//! is the hit, which of many hits is the nearest, whether a surface absorbs,
//! reflects or refracts, when a path has bounced often enough, and where in
//! the output a finished pixel belongs.  This crate holds those decisions and
//! the text of the image file.  Numbers enter it as [`math::scalar::Scalar`],
//! the bit pattern of a binary64 value, on which comparison, negation and
//! selection are exact integer operations.  Sums, products and square roots
//! are the caller's work.

pub mod material;
pub mod math;
pub mod renderer;
pub mod save;
pub mod shapes;
