//! Rasterizer state passed to a single draw call: an optional viewport
//! rectangle and a back-face culling mode. A value of [`DrawParams`] is
//! constructed per frame and never persisted.

use vstd::prelude::*;

verus! {

/// A viewport rectangle in pixels, measured from the lower-left corner of the
/// render target.
#[derive(Clone, Copy, Debug, PartialEq, Eq)]
pub struct Viewport {
    pub left: u32,
    pub bottom: u32,
    pub width: u32,
    pub height: u32,
}

/// Which winding order of triangle faces, if any, the rasterizer discards.
#[derive(Clone, Copy, Debug, PartialEq, Eq)]
pub enum CullMode {
    /// Draw faces of both winding orders.
    Disabled,
    /// Discard faces whose vertices appear in clockwise order.
    Clockwise,
    /// Discard faces whose vertices appear in counter-clockwise order.
    CounterClockwise,
}

/// Rasterizer state applied to one draw call.
#[derive(Clone, Copy, Debug, PartialEq, Eq)]
pub struct DrawParams {
    /// Restrict rendering to this rectangle; `None` covers the whole target.
    pub viewport: Option<Viewport>,
    /// Back-face culling mode.
    pub culling: CullMode,
}

/// The draw parameters used when a caller supplies none: no viewport
/// restriction and no face culling.
pub open spec fn default_params() -> DrawParams {
    DrawParams { viewport: None, culling: CullMode::Disabled }
}

impl Default for DrawParams {
    /// A default-constructed parameter set: full-target viewport, culling off.
    fn default() -> (r: DrawParams)
        ensures
            r == default_params(),
    {
        DrawParams { viewport: None, culling: CullMode::Disabled }
    }
}

} // verus!
