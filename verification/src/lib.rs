//! Viewport engine of an interactive fractal viewer.
//!
//! The crate holds the discrete half of the viewer: the input reducer that
//! turns keyboard, pointer and scroll events into state changes and into
//! instructions for the numeric transform, the iteration budget and its
//! bounds, the byte layout of the parameter block handed to the per-pixel
//! evaluator, the assembly of the status line, and the decisions taken by the
//! frame loop.  Real-valued quantities cross the crate as IEEE 754 bit
//! patterns or as already-formatted decimal text.

pub mod block;
pub mod double;
pub mod frame;
pub mod status;
pub mod view;
