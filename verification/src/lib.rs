//! A retained-mode GUI toolkit core: widgets with layout, hit-testing and
//! event dispatch, plus a text subsystem that shapes strings into glyph
//! geometry and packs rasterized glyphs into a shared texture atlas.
//!
//! All geometry is kept in whole-pixel coordinates; conversions to the GPU's
//! clip space are exact rationals, so every transform here is lossless. The
//! GPU itself (textures, buffers, render passes) and the window system are
//! external collaborators: this crate computes what to draw and where, and
//! hands out vertex lists and pending texture uploads as plain data.

use vstd::prelude::*;

pub mod atlas;
pub mod button;
pub mod color;
pub mod events;
pub mod font;
pub mod graphics;
pub mod layout;
pub mod math;
pub mod text_layout;
pub mod ui;
pub mod window;

verus! {

/// The shared render-target configuration that every widget reads when it
/// turns pixel geometry into clip-space geometry: the size of the surface
/// being drawn to, in pixels.
#[derive(Clone, Copy, Debug)]
pub struct Context {
    pub width: i64,
    pub height: i64,
}

impl Context {
    /// A usable render target: positive dimensions, small enough that all
    /// coordinate arithmetic in the crate stays within `i64`.
    pub open spec fn wf(self) -> bool {
        &&& 0 < self.width <= math::MAX_DIM
        &&& 0 < self.height <= math::MAX_DIM
    }

    pub fn new(width: i64, height: i64) -> (c: Context)
        requires
            0 < width <= math::MAX_DIM,
            0 < height <= math::MAX_DIM,
        ensures
            c.wf(),
            c.width == width,
            c.height == height,
    {
        Context { width, height }
    }
}

} // verus!
