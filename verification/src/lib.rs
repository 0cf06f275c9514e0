//! A verified model of a small GPU rendering demo: two drawable objects (an
//! animated triangle and a textured quad), the draw-parameter configuration
//! passed to each draw call, the per-frame render loop decisions, and the
//! image-format gate of the texture loader.
//!
//! The library describes every draw call as plain data (a [`frame::DrawCall`]):
//! the unverified front end executes those descriptions against the real
//! graphics backend.

use vstd::prelude::*;

pub mod driver;
pub mod frame;
pub mod image_load;
pub mod params;
pub mod quad;
pub mod shaders;
pub mod triangle;
pub mod vertex;

verus! {

/// Nanoseconds between scheduled frames: a 60 Hz target cadence.
pub const FRAME_INTERVAL_NS: u64 = 16_666_667;

} // verus!
