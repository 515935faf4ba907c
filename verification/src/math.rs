//! Pixel-space geometry and the exact pixel-to-clip-space transform.
//!
//! Pixel space has its origin at the top-left corner, y growing downward.
//! Clip space is the GPU's normalized coordinate system: x and y in
//! `[-1, 1]`, y growing upward. A clip coordinate of a pixel is a rational
//! number, so it is represented exactly as a numerator/denominator pair and
//! the round trip back to pixels is lossless.

use vstd::prelude::*;

verus! {

/// Bound on render-target and texture dimensions (a gigapixel on a side,
/// far beyond what any GPU accepts).
pub const MAX_DIM: i64 = 0x4000_0000;

/// Bound on every stored pixel position and size in the crate: small enough
/// that the sums and products in the geometry arithmetic stay in `i64`.
pub const MAX_COORD: i64 = 0x1000_0000_0000;

/// Bound on the pixel values fed to the clip transform; covers any sum of a
/// stored position and a stored size.
pub const MAX_PIX: i64 = 0x4000_0000_0000;

/// Bound on the positions top-level widgets can be moved to; sums of such
/// a position with sizes and paddings stay within `MAX_COORD`.
pub const WIDGET_POS_LIMIT: i64 = 0x100_0000_0000;

/// Bound on the positions of widgets nested inside other widgets, which
/// sit at a top-level position plus bounded part sizes.
pub const INNER_POS_LIMIT: i64 = 0x800_0000_0000;

/// Bound on paddings, spacings and the sizes of window parts.
pub const PAD_LIMIT: i64 = 0x40_0000_0000;

/// A stored coordinate the crate's arithmetic can handle without overflow.
pub open spec fn coord_in_range(v: int) -> bool {
    -MAX_COORD <= v <= MAX_COORD
}

/// Saturate a value into the stored coordinate range.
pub open spec fn spec_clamp_coord(v: int) -> int {
    if v < -MAX_COORD {
        -MAX_COORD as int
    } else if v > MAX_COORD {
        MAX_COORD as int
    } else {
        v
    }
}

pub fn clamp_coord(v: i64) -> (r: i64)
    ensures
        r == spec_clamp_coord(v as int),
        coord_in_range(r as int),
{
    if v < -MAX_COORD {
        -MAX_COORD
    } else if v > MAX_COORD {
        MAX_COORD
    } else {
        v
    }
}

/// Half of a difference, rounded toward zero: the centering offset used
/// when one extent is laid inside another.
pub open spec fn spec_half_toward_zero(d: int) -> int {
    if d >= 0 {
        d / 2
    } else {
        -((-d) / 2)
    }
}

pub fn half_toward_zero(d: i64) -> (r: i64)
    requires
        -MAX_PIX <= d <= MAX_PIX,
    ensures
        r == spec_half_toward_zero(d as int),
{
    if d >= 0 {
        d / 2
    } else {
        -((-d) / 2)
    }
}

/// A 2-D position or size in whole pixels.
#[derive(Clone, Copy, Debug, PartialEq, Eq, Structural)]
pub struct Vec2 {
    pub x: i64,
    pub y: i64,
}

impl Vec2 {
    pub open spec fn in_range(self) -> bool {
        coord_in_range(self.x as int) && coord_in_range(self.y as int)
    }

    pub fn new(x: i64, y: i64) -> (v: Vec2)
        ensures
            v.x == x,
            v.y == y,
    {
        Vec2 { x, y }
    }
}

/// An exact rational value `num / den`, with `den > 0`.
#[derive(Clone, Copy, Debug, PartialEq, Eq, Structural)]
pub struct Frac {
    pub num: i64,
    pub den: i64,
}

impl Frac {
    pub open spec fn wf(self) -> bool {
        0 < self.den
    }
}

/// Mathematical image of a `Frac`.
pub struct FracModel {
    pub num: int,
    pub den: int,
}

impl View for Frac {
    type V = FracModel;

    open spec fn view(&self) -> FracModel {
        FracModel { num: self.num as int, den: self.den as int }
    }
}

/// The exact clip-space x of pixel x on a `width` wide target.
pub open spec fn spec_clip_x(x: int, width: int) -> FracModel {
    FracModel { num: 2 * x - width, den: width }
}

/// The exact clip-space y of pixel y on a `height` tall target.
pub open spec fn spec_clip_y(y: int, height: int) -> FracModel {
    FracModel { num: height - 2 * y, den: height }
}

/// The exact texture coordinate of pixel v in a `dim` sized texture.
pub open spec fn spec_tex_coord(v: int, dim: int) -> FracModel {
    FracModel { num: v, den: dim }
}

/// An axis-aligned rectangle in pixel space, top-left origin.
/// Invariant: `width` and `height` are nonnegative.
#[derive(Clone, Copy, Debug, PartialEq, Eq, Structural)]
pub struct Rect {
    pub x: i64,
    pub y: i64,
    pub width: i64,
    pub height: i64,
}

impl Rect {
    /// The rectangle's basic invariant: nonnegative extent.
    pub open spec fn wf(self) -> bool {
        self.width >= 0 && self.height >= 0
    }

    /// All four coordinates small enough for overflow-free arithmetic.
    pub open spec fn in_range(self) -> bool {
        &&& coord_in_range(self.x as int)
        &&& coord_in_range(self.y as int)
        &&& coord_in_range(self.width as int)
        &&& coord_in_range(self.height as int)
    }

    /// What it means for a point to be contained in this rectangle:
    /// inside or on the boundary, on all four edges.
    pub open spec fn spec_contains(self, point: Vec2) -> bool {
        &&& self.x <= point.x <= self.x + self.width
        &&& self.y <= point.y <= self.y + self.height
    }

    /// Get the position of the rectangle's top-left corner.
    pub fn position(&self) -> (p: Vec2)
        ensures
            p.x == self.x,
            p.y == self.y,
    {
        Vec2 { x: self.x, y: self.y }
    }

    /// Check if a point is contained by `Rect`, inclusively on both ends of
    /// both axes.
    ///
    /// # Arguments
    ///
    /// * `point` - The point to test
    pub fn contains(&self, point: Vec2) -> (r: bool)
        requires
            self.in_range(),
        ensures
            r == self.spec_contains(point),
    {
        point.x >= self.x && point.x <= self.x + self.width && point.y >= self.y
            && point.y <= self.y + self.height
    }
}

/// Containment in a rectangle is exactly the conjunction of the two closed
/// interval tests, `point.x` in `[x, x + width]` and `point.y` in
/// `[y, y + height]`.
pub proof fn lemma_contains_is_closed_interval_test(r: Rect, p: Vec2)
    ensures
        r.spec_contains(p) <==> (r.x <= p.x <= r.x + r.width && r.y <= p.y <= r.y + r.height),
{
}

/// Map a pixel position to clip space, exactly.
///
/// The clip x of pixel x is `2 * x / width - 1`, kept as the rational
/// `(2 * x - width) / width`; the clip y of pixel y is `1 - 2 * y / height`,
/// kept as `(height - 2 * y) / height`.
pub fn pixels_to_clip(x: i64, y: i64, ctx: &crate::Context) -> (c: (Frac, Frac))
    requires
        ctx.wf(),
        -MAX_PIX <= x <= MAX_PIX,
        -MAX_PIX <= y <= MAX_PIX,
    ensures
        c.0.num == 2 * x - ctx.width,
        c.0.den == ctx.width,
        c.1.num == ctx.height - 2 * y,
        c.1.den == ctx.height,
        c.0.wf(),
        c.1.wf(),
{
    (
        Frac { num: 2 * x - ctx.width, den: ctx.width },
        Frac { num: ctx.height - 2 * y, den: ctx.height },
    )
}

/// Map a pixel position to texture coordinates in a `width` by `height`
/// texture, exactly: `(x / width, y / height)`.
pub fn pixels_to_texture_coord(x: i64, y: i64, width: i64, height: i64) -> (c: (Frac, Frac))
    requires
        0 < width,
        0 < height,
    ensures
        c.0.num == x && c.0.den == width,
        c.1.num == y && c.1.den == height,
        c.0.wf(),
        c.1.wf(),
{
    (Frac { num: x, den: width }, Frac { num: y, den: height })
}

/// Map a clip-space position back to pixels on a `ctx.width` by `ctx.height`
/// target. For clip x the pixel is `(cx + 1) * width / 2`, and symmetrically
/// `(1 - cy) * height / 2` for clip y; both are computed exactly on the
/// rational representation, rounding the final division toward zero.
pub fn clip_to_pixels(cx: Frac, cy: Frac, ctx: &crate::Context) -> (p: (i64, i64))
    requires
        ctx.wf(),
        cx.wf(),
        cy.wf(),
        cx.den <= MAX_DIM,
        cy.den <= MAX_DIM,
        -cx.den <= cx.num <= 3 * cx.den,
        -3 * cy.den <= cy.num <= cy.den,
    ensures
        p.0 == (cx.num + cx.den) * ctx.width / (2 * cx.den),
        p.1 == (cy.den - cy.num) * ctx.height / (2 * cy.den),
{
    proof {
        assert(0 <= (cx.num + cx.den) * ctx.width <= (4 * MAX_DIM) * MAX_DIM)
            by (nonlinear_arith)
            requires
                0 <= cx.num + cx.den <= 4 * MAX_DIM,
                0 < ctx.width <= MAX_DIM,
        {
        }
        assert(0 <= (cy.den - cy.num) * ctx.height <= (4 * MAX_DIM) * MAX_DIM)
            by (nonlinear_arith)
            requires
                0 <= cy.den - cy.num <= 4 * MAX_DIM,
                0 < ctx.height <= MAX_DIM,
        {
        }
    }
    let px = (cx.num + cx.den) * ctx.width / (2 * cx.den);
    let py = (cy.den - cy.num) * ctx.height / (2 * cy.den);
    (px, py)
}

/// Round trip: a pixel position inside the render target maps to clip space
/// and back to exactly the same pixel position.
pub proof fn lemma_pixel_clip_round_trip(x: i64, y: i64, width: int, height: int)
    requires
        0 < width <= MAX_DIM,
        0 < height <= MAX_DIM,
        0 <= x <= width,
        0 <= y <= height,
    ensures
        ((2 * x - width) + width) * width / (2 * width) == x,
        (height - (height - 2 * y)) * height / (2 * height) == y,
{
    assert(((2 * x - width) + width) * width == x * (2 * width)) by (nonlinear_arith);
    assert((height - (height - 2 * y)) * height == y * (2 * height)) by (nonlinear_arith);
    assert(x * (2 * width) / (2 * width) == x) by (nonlinear_arith)
        requires 0 < width, 0 <= x,
    {
    }
    assert(y * (2 * height) / (2 * height) == y) by (nonlinear_arith)
        requires 0 < height, 0 <= y,
    {
    }
}

} // verus!
