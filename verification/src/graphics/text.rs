//! The text element: a measured string, laid out, packed and turned into
//! glyph quads.
//!
//! A `Text` owns a glyph atlas cache over its own texture and keeps four
//! things synchronized with its string, character size and position: the
//! laid-out glyphs, the atlas entries, the vertex list, and the list of
//! pending texture uploads (newly packed glyphs whose bitmaps the renderer
//! must still rasterize and write — each upload names the tight rectangle
//! to write, never the whole texture). Uploads must reach the texture
//! before the vertex list referencing their coordinates is drawn.
//!
//! Rebuilding with unchanged content only hits the cache: the atlas is
//! untouched and nothing new is uploaded.

use vstd::prelude::*;
use vstd::string::StringExecFns;

use crate::atlas::{has_entry, request_accounted, AtlasCache, AtlasEntry, PackRequest};
use crate::font::TextMeasure;
use crate::graphics::{generate_text_vertices, spec_text_vertices, vertex_models, Vertex};
use crate::math::{Rect, Vec2};
use crate::text_layout::{
    layout_paragraph, layout_run, placement_in_coord_range, placements, GlyphPlacement,
    LayoutState, PlacedGlyph,
};
use crate::Context;

verus! {

/// Side of the atlas texture each text element packs its glyphs into.
pub const TEXTURE_WIDTH: i64 = 512;

/// Height of the atlas texture.
pub const TEXTURE_HEIGHT: i64 = 512;

/// The font identifier under which a text's glyphs are cached in its own
/// atlas. Each text owns its atlas, so a single identifier suffices.
pub const TEXT_FONT_ID: u32 = 0;

/// The pack requests of a glyph sequence: one per glyph that has a pixel
/// bounding box, sized by that box, in order.
pub open spec fn spec_pack_requests(placed: Seq<GlyphPlacement>) -> Seq<PackRequest>
    decreases placed.len(),
{
    if placed.len() == 0 {
        Seq::empty()
    } else {
        let rest = spec_pack_requests(placed.drop_last());
        let g = placed.last();
        match g.bounds {
            Some(b) => rest.push(
                PackRequest {
                    font_id: TEXT_FONT_ID,
                    glyph_id: g.id,
                    width: (b.max_x - b.min_x) as i64,
                    height: (b.max_y - b.min_y) as i64,
                },
            ),
            None => rest,
        }
    }
}

/// Build the pack requests of a laid-out glyph list.
fn build_pack_requests(glyphs: &Vec<PlacedGlyph>) -> (r: Vec<PackRequest>)
    requires
        forall|k: int|
            0 <= k < glyphs@.len() ==> placement_in_coord_range(
                #[trigger] placements(glyphs@)[k],
            ),
    ensures
        r@ == spec_pack_requests(placements(glyphs@)),
        forall|k: int| 0 <= k < r@.len() ==> (#[trigger] r@[k]).wf(),
{
    let n = glyphs.len();
    let mut out: Vec<PackRequest> = Vec::new();
    let mut i: usize = 0;
    proof {
        assert(placements(glyphs@).take(0) =~= Seq::<GlyphPlacement>::empty());
    }
    while i < n
        invariant
            n == glyphs@.len(),
            i <= n,
            forall|k: int|
                0 <= k < glyphs@.len() ==> placement_in_coord_range(
                    #[trigger] placements(glyphs@)[k],
                ),
            out@ == spec_pack_requests(placements(glyphs@).take(i as int)),
            forall|k: int| 0 <= k < out@.len() ==> (#[trigger] out@[k]).wf(),
        decreases n - i,
    {
        proof {
            assert(placements(glyphs@).take(i + 1).drop_last() =~= placements(glyphs@).take(
                i as int,
            ));
            assert(placements(glyphs@).take(i + 1).last() == placements(glyphs@)[i as int]);
            assert(placement_in_coord_range(placements(glyphs@)[i as int]));
        }
        let g = glyphs[i];
        if let Some(b) = g.bounds {
            out.push(
                PackRequest {
                    font_id: TEXT_FONT_ID,
                    glyph_id: g.id,
                    width: b.max_x - b.min_x,
                    height: b.max_y - b.min_y,
                },
            );
        }
        i = i + 1;
    }
    proof {
        assert(placements(glyphs@).take(n as int) =~= placements(glyphs@));
    }
    out
}

/// A string shaped into glyph geometry; see the module documentation.
pub struct Text {
    pub text: String,
    pub character_size: u32,
    pub position: Vec2,
    pub measure: TextMeasure,
    pub glyphs: Vec<PlacedGlyph>,
    pub bounds: Rect,
    pub atlas: AtlasCache,
    pub vertices: Vec<Vertex>,
    pub pending_uploads: Vec<AtlasEntry>,
}

impl Text {
    /// The structural invariant: the measure describes the string, the
    /// atlas is a well-formed cache over this text's texture, and position
    /// and bounds are in coordinate range.
    pub open spec fn wf(self) -> bool {
        &&& self.measure.wf()
        &&& self.measure.measures(self.text@)
        &&& self.position.in_range()
        &&& self.atlas.wf()
        &&& self.atlas.width == TEXTURE_WIDTH
        &&& self.atlas.height == TEXTURE_HEIGHT
        &&& self.bounds.wf()
        &&& self.bounds.in_range()
        &&& self.bounds.width <= crate::text_layout::LAYOUT_EXTENT_LIMIT
        &&& self.bounds.height <= crate::text_layout::LAYOUT_EXTENT_LIMIT
    }

    /// The layout this text's measure and the render target prescribe.
    pub open spec fn spec_layout(self, ctx: Context) -> LayoutState {
        layout_run(self.measure.vm, ctx.width as int, self.measure.glyphs@)
    }

    /// Geometry fully derived from the current content: the glyphs are the
    /// layout of the measure at the render target's wrap width, the bounds
    /// are the layout bounds moved to the text position, and the vertices
    /// are the quads of the glyphs against the current atlas.
    pub open spec fn synced(self, ctx: Context) -> bool {
        &&& placements(self.glyphs@) == self.spec_layout(ctx).placed
        &&& self.bounds.x == self.position.x
        &&& self.bounds.y == self.position.y
        &&& self.bounds.width == (if self.spec_layout(ctx).width_sum >= 0 {
            self.spec_layout(ctx).width_sum
        } else {
            0
        })
        &&& self.bounds.height == self.spec_layout(ctx).height_max
        &&& vertex_models(self.vertices@) == spec_text_vertices(
            ctx,
            self.position.x as int,
            self.position.y as int,
            TEXT_FONT_ID,
            placements(self.glyphs@),
            self.atlas.entries@,
            TEXTURE_WIDTH as int,
            TEXTURE_HEIGHT as int,
        )
    }

    /// Every glyph the current layout wants packed is accounted for: it is
    /// cached in the atlas, or it is larger than the whole atlas, or the
    /// atlas is genuinely out of room for it. This is what a rebuild
    /// leaves behind: no packable glyph is silently skipped.
    pub open spec fn glyphs_resident(self, ctx: Context) -> bool {
        forall|i: int|
            0 <= i < spec_pack_requests(self.spec_layout(ctx).placed).len() ==> request_accounted(
                self.atlas,
                #[trigger] spec_pack_requests(self.spec_layout(ctx).placed)[i],
            )
    }

    /// Whether every glyph the layout wants packed is already cached.
    pub open spec fn fully_cached(self, ctx: Context) -> bool {
        forall|i: int|
            0 <= i < spec_pack_requests(self.spec_layout(ctx).placed).len() ==> has_entry(
                self.atlas.entries@,
                (#[trigger] spec_pack_requests(self.spec_layout(ctx).placed)[i]).font_id,
                spec_pack_requests(self.spec_layout(ctx).placed)[i].glyph_id,
            )
    }

    /// Relayout, pack and regenerate vertices from the current content.
    ///
    /// When every needed glyph is already cached this only hits the cache:
    /// the atlas and the pending uploads are left exactly as they were.
    fn rebuild(&mut self, ctx: &Context)
        requires
            ctx.wf(),
            old(self).wf(),
        ensures
            final(self).wf(),
            final(self).synced(*ctx),
            final(self).glyphs_resident(*ctx),
            final(self).text == old(self).text,
            final(self).character_size == old(self).character_size,
            final(self).position == old(self).position,
            final(self).measure == old(self).measure,
            old(self).fully_cached(*ctx) ==> {
                &&& final(self).atlas == old(self).atlas
                &&& final(self).pending_uploads@ == old(self).pending_uploads@
            },
    {
        let tl = layout_paragraph(&self.measure, ctx.width);
        let reqs = build_pack_requests(&tl.glyphs);
        proof {
            if old(self).fully_cached(*ctx) {
                let spec_reqs = spec_pack_requests(old(self).spec_layout(*ctx).placed);
                assert(reqs@ == spec_reqs);
                assert forall|i: int| 0 <= i < reqs@.len() implies has_entry(
                    self.atlas.entries@,
                    (#[trigger] reqs@[i]).font_id,
                    reqs@[i].glyph_id,
                ) by {
                    assert(has_entry(
                        self.atlas.entries@,
                        spec_reqs[i].font_id,
                        spec_reqs[i].glyph_id,
                    ));
                }
            }
        }
        let pack = self.atlas.pack_all(&reqs);
        proof {
            if old(self).fully_cached(*ctx) {
                assert(pack.uploads@.len() == 0);
                assert(!pack.repacked);
            }
        }
        if pack.repacked {
            // The atlas was invalidated and repacked from scratch: every
            // previously pending upload is stale; the fresh uploads rewrite
            // everything that is packed.
            self.pending_uploads = pack.uploads;
        } else {
            let mut uploads = pack.uploads;
            proof {
                assert(old(self).fully_cached(*ctx) ==> self.pending_uploads@ + uploads@
                    =~= old(self).pending_uploads@);
            }
            self.pending_uploads.append(&mut uploads);
        }
        self.vertices = generate_text_vertices(
            ctx,
            self.position,
            TEXT_FONT_ID,
            &tl.glyphs,
            &self.atlas,
        );
        self.glyphs = tl.glyphs;
        self.bounds = Rect {
            x: self.position.x,
            y: self.position.y,
            width: tl.bounds.width,
            height: tl.bounds.height,
        };
        proof {
            let spec_reqs = spec_pack_requests(self.spec_layout(*ctx).placed);
            assert(reqs@ == spec_reqs);
            assert forall|i: int| 0 <= i < spec_reqs.len() implies request_accounted(
                self.atlas,
                #[trigger] spec_reqs[i],
            ) by {
                assert(request_accounted(self.atlas, reqs@[i]));
            }
        }
    }

    /// A text at the origin from a measured string.
    pub fn new(ctx: &Context, text: &str, measure: TextMeasure, character_size: u32) -> (t: Text)
        requires
            ctx.wf(),
            measure.wf(),
            measure.measures(text@),
        ensures
            t.wf(),
            t.synced(*ctx),
            t.glyphs_resident(*ctx),
            t.text@ == text@,
            t.character_size == character_size,
            t.position == (Vec2 { x: 0, y: 0 }),
            t.measure == measure,
    {
        let mut t = Text {
            text: String::from_str(text),
            character_size,
            position: Vec2 { x: 0, y: 0 },
            measure,
            glyphs: Vec::new(),
            bounds: Rect { x: 0, y: 0, width: 0, height: 0 },
            atlas: AtlasCache::new(TEXTURE_WIDTH, TEXTURE_HEIGHT),
            vertices: Vec::new(),
            pending_uploads: Vec::new(),
        };
        t.rebuild(ctx);
        t
    }

    /// The bounds of the laid-out text: at the text's position, as wide as
    /// the sum of all advances and as tall as the lowest bounding-box edge.
    pub fn bounds(&self) -> (r: Rect)
        ensures
            r == self.bounds,
    {
        self.bounds
    }

    /// Change the character size, invalidating the atlas — glyph bitmaps of
    /// the old size are useless — and rebuilding from the new measure.
    pub fn set_character_size(&mut self, ctx: &Context, character_size: u32, measure: TextMeasure)
        requires
            ctx.wf(),
            old(self).wf(),
            measure.wf(),
            measure.measures(old(self).text@),
        ensures
            final(self).wf(),
            final(self).synced(*ctx),
            final(self).glyphs_resident(*ctx),
            final(self).text == old(self).text,
            final(self).character_size == character_size,
            final(self).position == old(self).position,
            final(self).measure == measure,
    {
        self.character_size = character_size;
        self.measure = measure;
        self.atlas.clear();
        self.pending_uploads = Vec::new();
        self.rebuild(ctx);
    }

    /// Change the string, rebuilding from the new measure. Glyphs already
    /// in the atlas are reused: only characters never packed before are
    /// uploaded.
    pub fn set_text(&mut self, ctx: &Context, text: &str, measure: TextMeasure)
        requires
            ctx.wf(),
            old(self).wf(),
            measure.wf(),
            measure.measures(text@),
        ensures
            final(self).wf(),
            final(self).synced(*ctx),
            final(self).glyphs_resident(*ctx),
            final(self).text@ == text@,
            final(self).character_size == old(self).character_size,
            final(self).position == old(self).position,
            final(self).measure == measure,
    {
        self.text = String::from_str(text);
        self.measure = measure;
        self.rebuild(ctx);
    }

    /// Move the text, regenerating its geometry at the new position. The
    /// glyph set is unchanged, so a fully cached text uploads nothing.
    pub fn set_position(&mut self, ctx: &Context, position: Vec2)
        requires
            ctx.wf(),
            old(self).wf(),
            position.in_range(),
        ensures
            final(self).wf(),
            final(self).synced(*ctx),
            final(self).glyphs_resident(*ctx),
            final(self).text == old(self).text,
            final(self).character_size == old(self).character_size,
            final(self).position == position,
            final(self).measure == old(self).measure,
            old(self).fully_cached(*ctx) ==> {
                &&& final(self).atlas == old(self).atlas
                &&& final(self).pending_uploads@ == old(self).pending_uploads@
            },
    {
        self.position = position;
        proof {
            if old(self).fully_cached(*ctx) {
                let spec_reqs = spec_pack_requests(self.spec_layout(*ctx).placed);
                assert(spec_reqs == spec_pack_requests(old(self).spec_layout(*ctx).placed));
                assert forall|i: int| 0 <= i < spec_reqs.len() implies has_entry(
                    self.atlas.entries@,
                    (#[trigger] spec_reqs[i]).font_id,
                    spec_reqs[i].glyph_id,
                ) by {
                    assert(has_entry(
                        old(self).atlas.entries@,
                        spec_pack_requests(old(self).spec_layout(*ctx).placed)[i].font_id,
                        spec_pack_requests(old(self).spec_layout(*ctx).placed)[i].glyph_id,
                    ));
                }
            }
        }
        self.rebuild(ctx);
    }

    /// The text's position.
    pub fn position(&self) -> (p: Vec2)
        ensures
            p == self.position,
    {
        self.position
    }

    /// Resynchronize the geometry with the render target; call once per
    /// frame. With unchanged content this only hits the atlas cache: the
    /// same glyph rectangles come back and nothing new is uploaded.
    pub fn update(&mut self, ctx: &Context)
        requires
            ctx.wf(),
            old(self).wf(),
        ensures
            final(self).wf(),
            final(self).synced(*ctx),
            final(self).glyphs_resident(*ctx),
            final(self).text == old(self).text,
            final(self).character_size == old(self).character_size,
            final(self).position == old(self).position,
            final(self).measure == old(self).measure,
            old(self).fully_cached(*ctx) ==> {
                &&& final(self).atlas == old(self).atlas
                &&& final(self).pending_uploads@ == old(self).pending_uploads@
            },
            (old(self).fully_cached(*ctx) && old(self).synced(*ctx)) ==> final(self).vertices@
                == old(self).vertices@,
    {
        self.rebuild(ctx);
        proof {
            if old(self).fully_cached(*ctx) && old(self).synced(*ctx) {
                assert(vertex_models(self.vertices@) == vertex_models(old(self).vertices@));
                assert forall|k: int| 0 <= k < self.vertices@.len() implies self.vertices@[k]
                    == old(self).vertices@[k] by {
                    assert(vertex_models(self.vertices@)[k] == vertex_models(
                        old(self).vertices@,
                    )[k]);
                }
                assert(self.vertices@ =~= old(self).vertices@);
            }
        }
    }

    /// The vertex list the renderer draws: six vertices per packed glyph.
    pub fn vertices(&self) -> (v: &Vec<Vertex>)
        ensures
            v == self.vertices,
    {
        &self.vertices
    }

    /// Hand over the pending texture uploads and forget them. The caller
    /// must rasterize each glyph and write it to the named rectangle of the
    /// texture before drawing the current vertex list.
    pub fn take_pending_uploads(&mut self) -> (u: Vec<AtlasEntry>)
        ensures
            u@ == old(self).pending_uploads@,
            final(self).pending_uploads@.len() == 0,
            *final(self) == (Text { pending_uploads: final(self).pending_uploads, ..*old(self) }),
    {
        let mut u: Vec<AtlasEntry> = Vec::new();
        core::mem::swap(&mut u, &mut self.pending_uploads);
        u
    }
}

} // verus!
