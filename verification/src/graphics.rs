//! Vertices and the geometry that widgets hand to the renderer.
//!
//! A vertex carries an exact clip-space position, an RGB color and a
//! texture coordinate. Texture coordinates are exact rationals over the
//! atlas texture size; the pair `-1/1, -1/1` marks an untextured vertex, as
//! solid shapes use. Each glyph with a packed atlas rectangle becomes a
//! six-vertex quad — two triangles covering its screen rectangle and its
//! texture rectangle.

use vstd::prelude::*;

use crate::atlas::{spec_lookup, AtlasCache, AtlasEntry};
use crate::color::{spec_white, white, Color};
use crate::math::{
    pixels_to_clip, pixels_to_texture_coord, spec_clip_x, spec_clip_y, spec_tex_coord, Frac,
    FracModel, Vec2,
};
use crate::text_layout::{placement_in_coord_range, placements, GlyphPlacement, PlacedGlyph};
use crate::Context;

pub mod shape;
pub mod text;

verus! {

/// One vertex: exact clip-space position, color, texture coordinates.
#[derive(Clone, Copy, Debug, PartialEq, Eq, Structural)]
pub struct Vertex {
    pub pos_x: Frac,
    pub pos_y: Frac,
    pub color: Color,
    pub tex_x: Frac,
    pub tex_y: Frac,
}

/// Mathematical image of a `Vertex`.
pub struct VertexModel {
    pub pos_x: FracModel,
    pub pos_y: FracModel,
    pub color: Color,
    pub tex_x: FracModel,
    pub tex_y: FracModel,
}

impl View for Vertex {
    type V = VertexModel;

    open spec fn view(&self) -> VertexModel {
        VertexModel {
            pos_x: self.pos_x@,
            pos_y: self.pos_y@,
            color: self.color,
            tex_x: self.tex_x@,
            tex_y: self.tex_y@,
        }
    }
}

/// The vertices of a vertex list as their mathematical images.
pub open spec fn vertex_models(vs: Seq<Vertex>) -> Seq<VertexModel> {
    vs.map_values(|v: Vertex| v@)
}

/// The texture coordinate that marks an untextured vertex.
pub open spec fn spec_untextured() -> FracModel {
    FracModel { num: -1, den: 1 }
}

/// One draw call's worth of geometry, as a widget emits it: a vertex list
/// and which pipeline draws it. Untextured commands are quads drawn as two
/// indexed triangles over four corner vertices; textured commands are glyph
/// quads drawn six vertices at a time against the emitting text's atlas
/// texture.
pub struct DrawCommand {
    pub textured: bool,
    pub vertices: Vec<Vertex>,
}

/// The observable content of a draw command list: pipeline flag and vertex
/// views, in order. Widgets state their `draw` methods over this model.
pub open spec fn draw_models(cmds: Seq<DrawCommand>) -> Seq<(bool, Seq<Vertex>)> {
    cmds.map_values(|c: DrawCommand| (c.textured, c.vertices@))
}

/// Copy a vertex list.
pub fn copy_vertices(v: &Vec<Vertex>) -> (r: Vec<Vertex>)
    ensures
        r@ == v@,
{
    let n = v.len();
    let mut r: Vec<Vertex> = Vec::new();
    let mut i: usize = 0;
    while i < n
        invariant
            n == v@.len(),
            i <= n,
            r@ == v@.take(i as int),
        decreases n - i,
    {
        r.push(v[i]);
        proof {
            assert(r@ =~= v@.take(i + 1));
        }
        i = i + 1;
    }
    proof {
        assert(v@.take(n as int) =~= v@);
    }
    r
}

/// The six vertices of one glyph quad: two counterclockwise triangles over
/// the screen rectangle `(x0, y0)..(x1, y1)` and the atlas rectangle
/// `(tx0, ty0)..(tx1, ty1)`, drawn white.
pub open spec fn spec_glyph_quad(
    ctx: Context,
    x0: int,
    y0: int,
    x1: int,
    y1: int,
    tx0: int,
    ty0: int,
    tx1: int,
    ty1: int,
    aw: int,
    ah: int,
) -> Seq<VertexModel> {
    let ax = spec_clip_x(x0, ctx.width as int);
    let ay = spec_clip_y(y0, ctx.height as int);
    let bx = spec_clip_x(x1, ctx.width as int);
    let by = spec_clip_y(y1, ctx.height as int);
    let uax = spec_tex_coord(tx0, aw);
    let uay = spec_tex_coord(ty0, ah);
    let ubx = spec_tex_coord(tx1, aw);
    let uby = spec_tex_coord(ty1, ah);
    seq![
        VertexModel { pos_x: ax, pos_y: by, color: spec_white(), tex_x: uax, tex_y: uby },
        VertexModel { pos_x: ax, pos_y: ay, color: spec_white(), tex_x: uax, tex_y: uay },
        VertexModel { pos_x: bx, pos_y: ay, color: spec_white(), tex_x: ubx, tex_y: uay },
        VertexModel { pos_x: bx, pos_y: ay, color: spec_white(), tex_x: ubx, tex_y: uay },
        VertexModel { pos_x: bx, pos_y: by, color: spec_white(), tex_x: ubx, tex_y: uby },
        VertexModel { pos_x: ax, pos_y: by, color: spec_white(), tex_x: uax, tex_y: uby },
    ]
}

/// The vertex list of a laid-out text: for each placed glyph that has a
/// pixel bounding box and a packed atlas rectangle, in order, the quad over
/// its bounding box offset by the text position. Glyphs without a box (such
/// as a space) or without an atlas rectangle (dropped by the packer)
/// contribute nothing.
pub open spec fn spec_text_vertices(
    ctx: Context,
    pos_x: int,
    pos_y: int,
    font_id: u32,
    placed: Seq<GlyphPlacement>,
    entries: Seq<AtlasEntry>,
    aw: int,
    ah: int,
) -> Seq<VertexModel>
    decreases placed.len(),
{
    if placed.len() == 0 {
        Seq::empty()
    } else {
        let rest = spec_text_vertices(
            ctx,
            pos_x,
            pos_y,
            font_id,
            placed.drop_last(),
            entries,
            aw,
            ah,
        );
        let g = placed.last();
        match g.bounds {
            Some(bb) => match spec_lookup(entries, font_id, g.id) {
                Some(r) => rest + spec_glyph_quad(
                    ctx,
                    pos_x + bb.min_x,
                    pos_y + bb.min_y,
                    pos_x + bb.max_x,
                    pos_y + bb.max_y,
                    r.x as int,
                    r.y as int,
                    r.x + r.width,
                    r.y + r.height,
                    aw,
                    ah,
                ),
                None => rest,
            },
            None => rest,
        }
    }
}

/// Build the vertex list of a laid-out text from its placed glyphs and the
/// atlas holding their rectangles.
pub fn generate_text_vertices(
    ctx: &Context,
    position: Vec2,
    font_id: u32,
    placed: &Vec<PlacedGlyph>,
    atlas: &AtlasCache,
) -> (v: Vec<Vertex>)
    requires
        ctx.wf(),
        atlas.wf(),
        position.in_range(),
        forall|k: int|
            0 <= k < placed@.len() ==> placement_in_coord_range(
                #[trigger] placements(placed@)[k],
            ),
    ensures
        vertex_models(v@) == spec_text_vertices(
            *ctx,
            position.x as int,
            position.y as int,
            font_id,
            placements(placed@),
            atlas.entries@,
            atlas.width as int,
            atlas.height as int,
        ),
{
    let n = placed.len();
    let mut out: Vec<Vertex> = Vec::new();
    let mut i: usize = 0;
    proof {
        assert(placements(placed@).take(0) =~= Seq::<GlyphPlacement>::empty());
        assert(vertex_models(out@) =~= Seq::<VertexModel>::empty());
    }
    while i < n
        invariant
            ctx.wf(),
            atlas.wf(),
            position.in_range(),
            n == placed@.len(),
            i <= n,
            forall|k: int|
                0 <= k < placed@.len() ==> placement_in_coord_range(
                    #[trigger] placements(placed@)[k],
                ),
            vertex_models(out@) == spec_text_vertices(
                *ctx,
                position.x as int,
                position.y as int,
                font_id,
                placements(placed@).take(i as int),
                atlas.entries@,
                atlas.width as int,
                atlas.height as int,
            ),
        decreases n - i,
    {
        proof {
            assert(placements(placed@).take(i + 1).drop_last() =~= placements(placed@).take(
                i as int,
            ));
            assert(placements(placed@).take(i + 1).last() == placements(placed@)[i as int]);
            assert(placement_in_coord_range(placements(placed@)[i as int]));
        }
        let g = placed[i];
        if let Some(bb) = g.bounds {
            if let Some(r) = atlas.lookup(font_id, g.id) {
                proof {
                    crate::atlas::lemma_lookup_is_entry(atlas.entries@, font_id, g.id);
                }
                let a = pixels_to_clip(position.x + bb.min_x, position.y + bb.min_y, ctx);
                let b = pixels_to_clip(position.x + bb.max_x, position.y + bb.max_y, ctx);
                let ta = pixels_to_texture_coord(r.x, r.y, atlas.width, atlas.height);
                let tb = pixels_to_texture_coord(
                    r.x + r.width,
                    r.y + r.height,
                    atlas.width,
                    atlas.height,
                );
                let color = white();
                out.push(Vertex { pos_x: a.0, pos_y: b.1, color, tex_x: ta.0, tex_y: tb.1 });
                out.push(Vertex { pos_x: a.0, pos_y: a.1, color, tex_x: ta.0, tex_y: ta.1 });
                out.push(Vertex { pos_x: b.0, pos_y: a.1, color, tex_x: tb.0, tex_y: ta.1 });
                out.push(Vertex { pos_x: b.0, pos_y: a.1, color, tex_x: tb.0, tex_y: ta.1 });
                out.push(Vertex { pos_x: b.0, pos_y: b.1, color, tex_x: tb.0, tex_y: tb.1 });
                out.push(Vertex { pos_x: a.0, pos_y: b.1, color, tex_x: ta.0, tex_y: tb.1 });
            }
        }
        i = i + 1;
        proof {
            assert(vertex_models(out@) =~= spec_text_vertices(
                *ctx,
                position.x as int,
                position.y as int,
                font_id,
                placements(placed@).take(i as int),
                atlas.entries@,
                atlas.width as int,
                atlas.height as int,
            ));
        }
    }
    proof {
        assert(placements(placed@).take(n as int) =~= placements(placed@));
    }
    out
}

} // verus!
