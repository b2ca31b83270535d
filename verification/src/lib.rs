//! Core of a CPU path tracer: the pixel/color model, the image buffer with
//! its plain-text serialization, and the depth-budgeted decision rule that
//! drives the recursive radiance estimator.

pub mod color;
pub mod ppm;
pub mod text;
pub mod trace;
