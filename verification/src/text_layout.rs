//! Line-breaking text layout: from a measured string to positioned glyphs.
//!
//! The layout walks the measured characters with a caret that starts at
//! `(0, ascent)`. A carriage return moves the caret to the start of the next
//! line; a line feed is a no-op — carriage return is this toolkit's line
//! break character. Each printable character is first kerned against the previous
//! printable one, placed at the caret, and then — if its pixel bounding box
//! sticks out past the wrap width — relocated to the start of the next line,
//! with the kerning look-back reset so the first glyph of a line is never
//! kerned against the last glyph of the previous one.
//!
//! The whole walk is defined as a fold (`layout_run`) over the measured
//! glyphs, and the executable `layout_paragraph` is proved to compute
//! exactly that fold.

use vstd::prelude::*;

use crate::font::{GlyphBounds, GlyphMeasure, TextMeasure, VMetrics, METRIC_CLAMP, MAX_TEXT_LEN};
use crate::math::{Rect, MAX_COORD};

verus! {

/// A glyph placed by the layout: the caret position it was placed at and
/// its absolute pixel bounding box, if it has a shape.
#[derive(Clone, Copy, Debug, PartialEq, Eq, Structural)]
pub struct PlacedGlyph {
    pub ch: char,
    pub id: u16,
    pub x: i64,
    pub y: i64,
    pub bounds: Option<GlyphBounds>,
}

/// Mathematical image of a `PlacedGlyph`.
pub struct GlyphPlacement {
    pub ch: char,
    pub id: u16,
    pub x: int,
    pub y: int,
    pub bounds: Option<PlacementBox>,
}

/// Mathematical image of an absolute pixel bounding box.
pub struct PlacementBox {
    pub min_x: int,
    pub min_y: int,
    pub max_x: int,
    pub max_y: int,
}

impl View for PlacedGlyph {
    type V = GlyphPlacement;

    open spec fn view(&self) -> GlyphPlacement {
        GlyphPlacement {
            ch: self.ch,
            id: self.id,
            x: self.x as int,
            y: self.y as int,
            bounds: match self.bounds {
                Some(b) => Some(
                    PlacementBox {
                        min_x: b.min_x as int,
                        min_y: b.min_y as int,
                        max_x: b.max_x as int,
                        max_y: b.max_y as int,
                    },
                ),
                None => None,
            },
        }
    }
}

/// The layout state after some prefix of the measured string: the glyphs
/// placed so far, the caret, whether the kerning look-back is armed, and the
/// accumulated bounds (total advance and lowest bounding-box edge).
pub struct LayoutState {
    pub placed: Seq<GlyphPlacement>,
    pub caret_x: int,
    pub caret_y: int,
    pub armed: bool,
    pub width_sum: int,
    pub height_max: int,
}

/// The caret's line advance: ascent to ascent between consecutive lines.
pub open spec fn advance_height(vm: VMetrics) -> int {
    vm.ascent - vm.descent + vm.line_gap
}

/// The layout state before any character: caret at `(0, ascent)`, kerning
/// disarmed, empty bounds.
pub open spec fn layout_init(vm: VMetrics) -> LayoutState {
    LayoutState {
        placed: Seq::empty(),
        caret_x: 0,
        caret_y: vm.ascent as int,
        armed: false,
        width_sum: 0,
        height_max: 0,
    }
}

/// One step of the layout: consume one measured character.
pub open spec fn layout_step(vm: VMetrics, wrap: int, acc: LayoutState, g: GlyphMeasure)
    -> LayoutState {
    if g.control {
        if g.ch == '\r' {
            LayoutState { caret_x: 0, caret_y: acc.caret_y + advance_height(vm), ..acc }
        } else {
            acc
        }
    } else {
        let x = if acc.armed {
            acc.caret_x + g.kern_prev
        } else {
            acc.caret_x
        };
        match g.bounds {
            Some(ob) => {
                let pre = PlacementBox {
                    min_x: ob.min_x + x,
                    min_y: ob.min_y + acc.caret_y,
                    max_x: ob.max_x + x,
                    max_y: ob.max_y + acc.caret_y,
                };
                let height_max = if pre.max_y > acc.height_max {
                    pre.max_y
                } else {
                    acc.height_max
                };
                if pre.max_x > wrap {
                    let y = acc.caret_y + advance_height(vm);
                    LayoutState {
                        placed: acc.placed.push(
                            GlyphPlacement {
                                ch: g.ch,
                                id: g.id,
                                x: 0,
                                y,
                                bounds: Some(
                                    PlacementBox {
                                        min_x: ob.min_x as int,
                                        min_y: ob.min_y + y,
                                        max_x: ob.max_x as int,
                                        max_y: ob.max_y + y,
                                    },
                                ),
                            },
                        ),
                        caret_x: g.advance as int,
                        caret_y: y,
                        armed: false,
                        width_sum: acc.width_sum + g.advance,
                        height_max,
                    }
                } else {
                    LayoutState {
                        placed: acc.placed.push(
                            GlyphPlacement {
                                ch: g.ch,
                                id: g.id,
                                x,
                                y: acc.caret_y,
                                bounds: Some(pre),
                            },
                        ),
                        caret_x: x + g.advance,
                        caret_y: acc.caret_y,
                        armed: true,
                        width_sum: acc.width_sum + g.advance,
                        height_max,
                    }
                }
            },
            None => LayoutState {
                placed: acc.placed.push(
                    GlyphPlacement { ch: g.ch, id: g.id, x, y: acc.caret_y, bounds: None },
                ),
                caret_x: x + g.advance,
                caret_y: acc.caret_y,
                armed: true,
                width_sum: acc.width_sum + g.advance,
                height_max: acc.height_max,
            },
        }
    }
}

/// The layout of a whole measured string: the fold of `layout_step` from
/// `layout_init` over the measured glyphs, in order.
pub open spec fn layout_run(vm: VMetrics, wrap: int, gs: Seq<GlyphMeasure>) -> LayoutState
    decreases gs.len(),
{
    if gs.len() == 0 {
        layout_init(vm)
    } else {
        layout_step(vm, wrap, layout_run(vm, wrap, gs.drop_last()), gs.last())
    }
}

/// Bound on the caret's x after `n` characters.
pub open spec fn caret_x_bound(n: int) -> int {
    2 * METRIC_CLAMP * n
}

/// Bound on the caret's y after `n` characters.
pub open spec fn caret_y_bound(n: int) -> int {
    METRIC_CLAMP + 3 * METRIC_CLAMP * n
}

/// All coordinates of a placement bounded as after `n` characters.
pub open spec fn placement_bounded(p: GlyphPlacement, n: int) -> bool {
    &&& -caret_x_bound(n) <= p.x <= caret_x_bound(n)
    &&& -caret_y_bound(n) <= p.y <= caret_y_bound(n)
    &&& match p.bounds {
        Some(b) => {
            &&& -caret_x_bound(n) - METRIC_CLAMP <= b.min_x <= caret_x_bound(n) + METRIC_CLAMP
            &&& -caret_x_bound(n) - METRIC_CLAMP <= b.max_x <= caret_x_bound(n) + METRIC_CLAMP
            &&& -caret_y_bound(n) - METRIC_CLAMP <= b.min_y <= caret_y_bound(n) + METRIC_CLAMP
            &&& -caret_y_bound(n) - METRIC_CLAMP <= b.max_y <= caret_y_bound(n) + METRIC_CLAMP
            &&& 0 <= b.max_x - b.min_x <= 2 * METRIC_CLAMP
            &&& 0 <= b.max_y - b.min_y <= 2 * METRIC_CLAMP
        },
        None => true,
    }
}

/// A placement all of whose coordinates are in the crate's stored
/// coordinate range, so geometry derived from it cannot overflow.
pub open spec fn placement_in_coord_range(p: GlyphPlacement) -> bool {
    &&& -MAX_COORD <= p.x <= MAX_COORD
    &&& -MAX_COORD <= p.y <= MAX_COORD
    &&& match p.bounds {
        Some(b) => {
            &&& -MAX_COORD <= b.min_x <= MAX_COORD
            &&& -MAX_COORD <= b.max_x <= MAX_COORD
            &&& -MAX_COORD <= b.min_y <= MAX_COORD
            &&& -MAX_COORD <= b.max_y <= MAX_COORD
            &&& 0 <= b.max_x - b.min_x <= 2 * METRIC_CLAMP
            &&& 0 <= b.max_y - b.min_y <= 2 * METRIC_CLAMP
        },
        None => true,
    }
}

/// Well-formed measures keep every layout quantity within explicit bounds
/// that grow linearly with the string length; with the crate's length cap
/// they all stay far inside `i64`.
pub proof fn lemma_layout_run_bounded(vm: VMetrics, wrap: int, gs: Seq<GlyphMeasure>)
    requires
        vm.wf(),
        forall|i: int| 0 <= i < gs.len() ==> (#[trigger] gs[i]).wf(),
    ensures
        ({
            let acc = layout_run(vm, wrap, gs);
            let n = gs.len() as int;
            &&& -caret_x_bound(n) <= acc.caret_x <= caret_x_bound(n)
            &&& -caret_y_bound(n) <= acc.caret_y <= caret_y_bound(n)
            &&& -METRIC_CLAMP * n <= acc.width_sum <= METRIC_CLAMP * n
            &&& 0 <= acc.height_max <= caret_y_bound(n) + METRIC_CLAMP
            &&& acc.placed.len() <= n
            &&& forall|k: int|
                0 <= k < acc.placed.len() ==> placement_bounded(#[trigger] acc.placed[k], n)
        }),
    decreases gs.len(),
{
    if gs.len() > 0 {
        let prefix = gs.drop_last();
        let n1 = prefix.len() as int;
        let n = gs.len() as int;
        assert(forall|i: int| 0 <= i < prefix.len() ==> (#[trigger] prefix[i]).wf());
        lemma_layout_run_bounded(vm, wrap, prefix);
        let acc = layout_run(vm, wrap, prefix);
        assert(gs.last().wf());
        assert forall|k: int|
            0 <= k < acc.placed.len() implies placement_bounded(#[trigger] acc.placed[k], n) by {
            assert(placement_bounded(acc.placed[k], n1));
        }
    }
}

/// Bound on the width and height a layout's bounds rectangle can reach
/// with the crate's metric and length caps.
pub const LAYOUT_EXTENT_LIMIT: i64 = 0x400_0000_0000;

/// The result of laying a measured string out: the placed glyphs and the
/// accumulated bounds rectangle at the origin.
pub struct TextLayout {
    pub glyphs: Vec<PlacedGlyph>,
    pub bounds: Rect,
}

/// The placed glyphs of a layout as their mathematical images.
pub open spec fn placements(glyphs: Seq<PlacedGlyph>) -> Seq<GlyphPlacement> {
    glyphs.map_values(|p: PlacedGlyph| p@)
}

/// Lay a measured string out against a wrap width.
///
/// The returned glyph sequence is exactly `layout_run` of the measure; the
/// returned bounds rectangle sits at the origin, its width is the sum of
/// all advances (never negative; a degenerate all-negative-advance measure
/// saturates at zero) and its height is the lowest bounding-box edge seen.
pub fn layout_paragraph(measure: &TextMeasure, width: i64) -> (r: TextLayout)
    requires
        measure.wf(),
    ensures
        ({
            let acc = layout_run(measure.vm, width as int, measure.glyphs@);
            &&& placements(r.glyphs@) == acc.placed
            &&& r.bounds.x == 0
            &&& r.bounds.y == 0
            &&& r.bounds.width == (if acc.width_sum >= 0 { acc.width_sum } else { 0 })
            &&& r.bounds.height == acc.height_max
            &&& r.bounds.wf()
            &&& r.bounds.in_range()
            &&& 0 <= r.bounds.width <= LAYOUT_EXTENT_LIMIT
            &&& 0 <= r.bounds.height <= LAYOUT_EXTENT_LIMIT
            &&& forall|k: int|
                0 <= k < r.glyphs@.len() ==> placement_bounded(
                    #[trigger] placements(r.glyphs@)[k],
                    measure.glyphs@.len() as int,
                )
            &&& forall|k: int|
                0 <= k < r.glyphs@.len() ==> placement_in_coord_range(
                    #[trigger] placements(r.glyphs@)[k],
                )
        }),
{
    let vm = measure.vm;
    let n = measure.glyphs.len();
    let ghost gs = measure.glyphs@;

    let mut placed: Vec<PlacedGlyph> = Vec::new();
    let mut caret_x: i64 = 0;
    let mut caret_y: i64 = vm.ascent;
    let mut armed: bool = false;
    let mut width_sum: i64 = 0;
    let mut height_max: i64 = 0;

    let advance_h = vm.ascent - vm.descent + vm.line_gap;

    let mut i: usize = 0;
    while i < n
        invariant
            measure.wf(),
            vm == measure.vm,
            gs == measure.glyphs@,
            n == gs.len(),
            i <= n,
            advance_h == advance_height(vm),
            ({
                let acc = layout_run(vm, width as int, gs.take(i as int));
                &&& placements(placed@) == acc.placed
                &&& caret_x == acc.caret_x
                &&& caret_y == acc.caret_y
                &&& armed == acc.armed
                &&& width_sum == acc.width_sum
                &&& height_max == acc.height_max
            }),
        decreases n - i,
    {
        proof {
            assert(forall|j: int|
                0 <= j < gs.take(i as int).len() ==> (#[trigger] gs.take(i as int)[j]).wf());
            lemma_layout_run_bounded(vm, width as int, gs.take(i as int));
            assert(caret_x_bound(i as int) <= caret_x_bound(MAX_TEXT_LEN as int));
            assert(caret_y_bound(i as int) <= caret_y_bound(MAX_TEXT_LEN as int));
            assert(gs[i as int].wf());
            assert(gs.take(i + 1).drop_last() =~= gs.take(i as int));
            assert(gs.take(i + 1).last() == gs[i as int]);
        }
        let g = measure.glyphs[i];
        if g.control {
            if g.ch == '\r' {
                caret_x = 0;
                caret_y = caret_y + advance_h;
            }
        } else {
            let x = if armed {
                caret_x + g.kern_prev
            } else {
                caret_x
            };
            match g.bounds {
                Some(ob) => {
                    let pre_max_x = ob.max_x + x;
                    let pre_max_y = ob.max_y + caret_y;
                    if pre_max_y > height_max {
                        height_max = pre_max_y;
                    }
                    if pre_max_x > width {
                        let y = caret_y + advance_h;
                        placed.push(
                            PlacedGlyph {
                                ch: g.ch,
                                id: g.id,
                                x: 0,
                                y,
                                bounds: Some(
                                    GlyphBounds {
                                        min_x: ob.min_x,
                                        min_y: ob.min_y + y,
                                        max_x: ob.max_x,
                                        max_y: ob.max_y + y,
                                    },
                                ),
                            },
                        );
                        caret_x = g.advance;
                        caret_y = y;
                        armed = false;
                    } else {
                        placed.push(
                            PlacedGlyph {
                                ch: g.ch,
                                id: g.id,
                                x,
                                y: caret_y,
                                bounds: Some(
                                    GlyphBounds {
                                        min_x: ob.min_x + x,
                                        min_y: ob.min_y + caret_y,
                                        max_x: pre_max_x,
                                        max_y: pre_max_y,
                                    },
                                ),
                            },
                        );
                        caret_x = x + g.advance;
                        armed = true;
                    }
                },
                None => {
                    placed.push(
                        PlacedGlyph { ch: g.ch, id: g.id, x, y: caret_y, bounds: None },
                    );
                    caret_x = x + g.advance;
                    armed = true;
                },
            }
            width_sum = width_sum + g.advance;
        }
        i = i + 1;
        proof {
            let acc_old = layout_run(vm, width as int, gs.take(i - 1));
            let acc_new = layout_run(vm, width as int, gs.take(i as int));
            assert(acc_new == layout_step(vm, width as int, acc_old, gs[i - 1]));
            assert(placements(placed@) =~= acc_new.placed);
        }
    }

    proof {
        assert(gs.take(n as int) =~= gs);
        lemma_layout_run_bounded(vm, width as int, gs);
        assert forall|k: int| 0 <= k < placed@.len() implies placement_in_coord_range(
            #[trigger] placements(placed@)[k],
        ) by {
            assert(placement_bounded(placements(placed@)[k], gs.len() as int));
            assert(caret_x_bound(gs.len() as int) <= caret_x_bound(MAX_TEXT_LEN as int));
            assert(caret_y_bound(gs.len() as int) <= caret_y_bound(MAX_TEXT_LEN as int));
        }
    }
    let bounds_width = if width_sum >= 0 {
        width_sum
    } else {
        0
    };
    TextLayout {
        glyphs: placed,
        bounds: Rect { x: 0, y: 0, width: bounds_width, height: height_max },
    }
}

/// A glyph whose bounding box crosses the wrap width is relocated to the
/// start of the next line — placed at x zero, one line advance down — and
/// the kerning look-back is reset.
pub proof fn lemma_wrap_starts_new_line(vm: VMetrics, wrap: int, acc: LayoutState, g: GlyphMeasure)
    requires
        !g.control,
        g.bounds is Some,
        ({
            let x = if acc.armed { acc.caret_x + g.kern_prev } else { acc.caret_x };
            g.bounds->Some_0.max_x + x > wrap
        }),
    ensures
        ({
            let next = layout_step(vm, wrap, acc, g);
            &&& next.placed.len() == acc.placed.len() + 1
            &&& next.placed.last().x == 0
            &&& next.placed.last().y == acc.caret_y + advance_height(vm)
            &&& !next.armed
        }),
{
}

/// With the kerning look-back disarmed — as it is right after a wrap — the
/// next printable glyph is placed at the bare caret: no kerning adjustment
/// is applied to it.
pub proof fn lemma_unarmed_glyph_not_kerned(vm: VMetrics, wrap: int, acc: LayoutState, g:
    GlyphMeasure)
    requires
        !g.control,
        !acc.armed,
    ensures
        ({
            let next = layout_step(vm, wrap, acc, g);
            &&& next.placed.len() == acc.placed.len() + 1
            &&& next.placed.last().x == acc.caret_x || (g.bounds is Some
                && g.bounds->Some_0.max_x + acc.caret_x > wrap)
        }),
{
}

} // verus!
