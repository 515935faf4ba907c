//! A positioned, sized, colored quad: the primitive behind widget
//! backgrounds, titlebars and buttons.
//!
//! Every mutation — position, size or fill color — eagerly recomputes the
//! four vertices (top-left, bottom-left, bottom-right, top-right, as two
//! indexed triangles) through the exact pixel-to-clip transform. There is
//! no dirty tracking: each call resynchronizes the whole quad, O(1) work on
//! four vertices.

use vstd::prelude::*;

use crate::color::{white, Color};
use crate::graphics::{spec_untextured, vertex_models, Vertex, VertexModel};
use crate::math::{pixels_to_clip, spec_clip_x, spec_clip_y, Frac, Rect, Vec2};
use crate::Context;

verus! {

/// The four corner points of a `width` by `height` rectangle, relative to
/// its position: the order the quad's vertices are emitted in.
pub open spec fn spec_rect_point(size: Vec2, i: int) -> (int, int) {
    if i == 1 {
        (0, size.y as int)
    } else if i == 2 {
        (size.x as int, size.y as int)
    } else if i == 3 {
        (size.x as int, 0)
    } else {
        (0, 0)
    }
}

/// The four vertices of a rectangle at `position` of size `size` filled
/// with `color`, in corner order, untextured.
pub open spec fn spec_rect_vertices(ctx: Context, position: Vec2, size: Vec2, color: Color)
    -> Seq<VertexModel> {
    Seq::new(4, |i: int| {
        let p = spec_rect_point(size, i);
        VertexModel {
            pos_x: spec_clip_x(position.x + p.0, ctx.width as int),
            pos_y: spec_clip_y(position.y + p.1, ctx.height as int),
            color,
            tex_x: spec_untextured(),
            tex_y: spec_untextured(),
        }
    })
}

/// An axis-aligned filled quad.
pub struct RectangleShape {
    pub position: Vec2,
    pub size: Vec2,
    pub color: Color,
    pub vertices: Vec<Vertex>,
}

impl RectangleShape {
    /// Geometry in range and nonnegative, and exactly four vertices.
    pub open spec fn wf(self) -> bool {
        &&& self.position.in_range()
        &&& self.size.in_range()
        &&& self.size.x >= 0
        &&& self.size.y >= 0
        &&& self.vertices@.len() == 4
    }

    /// The vertices are exactly the quad of the current position, size and
    /// color on the given render target.
    pub open spec fn synced(self, ctx: Context) -> bool {
        vertex_models(self.vertices@) == spec_rect_vertices(
            ctx,
            self.position,
            self.size,
            self.color,
        )
    }

    /// A white rectangle of the given size at the origin.
    pub fn new(ctx: &Context, size: Vec2) -> (s: RectangleShape)
        requires
            ctx.wf(),
            size.in_range(),
            size.x >= 0,
            size.y >= 0,
        ensures
            s.wf(),
            s.synced(*ctx),
            s.position == (Vec2 { x: 0, y: 0 }),
            s.size == size,
            s.color == crate::color::spec_white(),
    {
        let mut s = RectangleShape {
            position: Vec2 { x: 0, y: 0 },
            size,
            color: white(),
            vertices: Vec::new(),
        };
        s.update(ctx);
        s
    }

    /// Recompute all four vertices from the current position, size and
    /// color: the whole quad is resynchronized on every mutation.
    fn update(&mut self, ctx: &Context)
        requires
            ctx.wf(),
            old(self).position.in_range(),
            old(self).size.in_range(),
        ensures
            final(self).position == old(self).position,
            final(self).size == old(self).size,
            final(self).color == old(self).color,
            final(self).vertices@.len() == 4,
            final(self).synced(*ctx),
    {
        let mut vertices: Vec<Vertex> = Vec::new();
        let color = self.color;
        let untextured = Frac { num: -1, den: 1 };
        let c0 = pixels_to_clip(self.position.x, self.position.y, ctx);
        vertices.push(
            Vertex { pos_x: c0.0, pos_y: c0.1, color, tex_x: untextured, tex_y: untextured },
        );
        let c1 = pixels_to_clip(self.position.x, self.position.y + self.size.y, ctx);
        vertices.push(
            Vertex { pos_x: c1.0, pos_y: c1.1, color, tex_x: untextured, tex_y: untextured },
        );
        let c2 = pixels_to_clip(self.position.x + self.size.x, self.position.y + self.size.y, ctx);
        vertices.push(
            Vertex { pos_x: c2.0, pos_y: c2.1, color, tex_x: untextured, tex_y: untextured },
        );
        let c3 = pixels_to_clip(self.position.x + self.size.x, self.position.y, ctx);
        vertices.push(
            Vertex { pos_x: c3.0, pos_y: c3.1, color, tex_x: untextured, tex_y: untextured },
        );
        self.vertices = vertices;
        proof {
            assert(vertex_models(self.vertices@) =~= spec_rect_vertices(
                *ctx,
                self.position,
                self.size,
                self.color,
            ));
        }
    }

    /// The rectangle's bounds in pixel space.
    pub fn bounds(&self) -> (r: Rect)
        ensures
            r.x == self.position.x,
            r.y == self.position.y,
            r.width == self.size.x,
            r.height == self.size.y,
    {
        Rect {
            x: self.position.x,
            y: self.position.y,
            width: self.size.x,
            height: self.size.y,
        }
    }

    /// Resize the rectangle, resynchronizing its vertices.
    pub fn set_size(&mut self, ctx: &Context, size: Vec2)
        requires
            ctx.wf(),
            old(self).wf(),
            size.in_range(),
            size.x >= 0,
            size.y >= 0,
        ensures
            final(self).wf(),
            final(self).size == size,
            final(self).position == old(self).position,
            final(self).color == old(self).color,
            final(self).synced(*ctx),
    {
        self.size = size;
        self.update(ctx);
    }

    /// The rectangle's size.
    pub fn size(&self) -> (s: Vec2)
        ensures
            s == self.size,
    {
        self.size
    }

    /// Fill all vertices with the specified color, resynchronizing.
    ///
    /// # Arguments
    ///
    /// * `color` - Shape color
    pub fn set_fill_color(&mut self, ctx: &Context, color: Color)
        requires
            ctx.wf(),
            old(self).wf(),
        ensures
            final(self).wf(),
            final(self).color == color,
            final(self).position == old(self).position,
            final(self).size == old(self).size,
            final(self).synced(*ctx),
    {
        self.color = color;
        self.update(ctx);
    }

    /// Move the rectangle, resynchronizing its vertices.
    pub fn set_position(&mut self, ctx: &Context, position: Vec2)
        requires
            ctx.wf(),
            old(self).wf(),
            position.in_range(),
        ensures
            final(self).wf(),
            final(self).position == position,
            final(self).size == old(self).size,
            final(self).color == old(self).color,
            final(self).synced(*ctx),
    {
        self.position = position;
        self.update(ctx);
    }

    /// The rectangle's position.
    pub fn position(&self) -> (p: Vec2)
        ensures
            p == self.position,
    {
        self.position
    }

    /// Returns the position of a point of the shape relative to its
    /// position: the corners in vertex order; any other index gives the
    /// top-left corner.
    ///
    /// # Arguments
    ///
    /// * `index` - Index of the point whose position we want
    pub fn get_point(&self, index: usize) -> (p: Vec2)
        ensures
            (p.x as int, p.y as int) == spec_rect_point(self.size, index as int),
    {
        if index == 1 {
            Vec2 { x: 0, y: self.size.y }
        } else if index == 2 {
            self.size
        } else if index == 3 {
            Vec2 { x: self.size.x, y: 0 }
        } else {
            Vec2 { x: 0, y: 0 }
        }
    }

    /// Returns the number of points of the shape.
    pub fn get_point_count(&self) -> (n: usize)
        ensures
            n == 4,
    {
        4
    }

    /// The vertex list the renderer draws, four corners as two indexed
    /// triangles.
    pub fn vertices(&self) -> (v: &Vec<Vertex>)
        ensures
            v == self.vertices,
    {
        &self.vertices
    }
}

} // verus!
