//! Text measuring and layout: normalization, kerning, wrapping, bounds.

use wgpu_ui::font::{
    measure_from_raw, GlyphBounds, RawGlyphMetrics, TextMeasure, VMetrics, METRIC_CLAMP,
};
use wgpu_ui::text_layout::layout_paragraph;

fn raw_glyph(id: u16, advance: i64, kern_prev: i64) -> RawGlyphMetrics {
    RawGlyphMetrics {
        id,
        advance,
        kern_prev,
        bounds: Some(GlyphBounds { min_x: 0, min_y: -8, max_x: 8, max_y: 0 }),
    }
}

/// Six glyphs, advance 10, kerning 2 against the previous one, with an
/// 8 by 8 box hanging above the baseline.
fn six_glyph_measure() -> TextMeasure {
    let vm = VMetrics { ascent: 10, descent: -2, line_gap: 1 };
    let raw: Vec<RawGlyphMetrics> = (0..6).map(|i| raw_glyph(i as u16 + 1, 10, 2)).collect();
    measure_from_raw(vm, "abcdef", &raw)
}

#[test]
fn measure_normalizes_control_characters() {
    let vm = VMetrics { ascent: 10, descent: -2, line_gap: 1 };
    let raw = vec![raw_glyph(1, 10, 7), raw_glyph(2, 10, 7), raw_glyph(3, 10, 7)];
    let m = measure_from_raw(vm, "a\rb", &raw);
    assert_eq!(m.glyphs.len(), 3);
    assert!(!m.glyphs[0].control);
    assert!(m.glyphs[1].control);
    assert_eq!(m.glyphs[1].advance, 0);
    assert_eq!(m.glyphs[1].kern_prev, 0);
    assert!(m.glyphs[1].bounds.is_none());
    // The first printable character has nothing to kern against.
    assert_eq!(m.glyphs[0].kern_prev, 0);
    // The printable after the control character keeps its kerning.
    assert_eq!(m.glyphs[2].kern_prev, 7);
}

#[test]
fn measure_saturates_huge_metrics() {
    let vm = VMetrics { ascent: 10, descent: -2, line_gap: 1 };
    let raw = vec![RawGlyphMetrics {
        id: 1,
        advance: i64::MAX,
        kern_prev: i64::MIN,
        bounds: Some(GlyphBounds {
            min_x: -0x7000_0000,
            min_y: -0x7000_0000,
            max_x: 0x7000_0000,
            max_y: 0x7000_0000,
        }),
    }];
    let m = measure_from_raw(vm, "a", &raw);
    assert_eq!(m.glyphs[0].advance, METRIC_CLAMP);
    let b = m.glyphs[0].bounds.unwrap();
    assert_eq!(b.min_x, -METRIC_CLAMP);
    assert_eq!(b.max_x, METRIC_CLAMP);
}

#[test]
fn measure_drops_inverted_boxes() {
    let vm = VMetrics { ascent: 10, descent: -2, line_gap: 1 };
    let raw = vec![RawGlyphMetrics {
        id: 1,
        advance: 10,
        kern_prev: 0,
        bounds: Some(GlyphBounds { min_x: 5, min_y: 0, max_x: 0, max_y: 1 }),
    }];
    let m = measure_from_raw(vm, "a", &raw);
    assert!(m.glyphs[0].bounds.is_none());
}

#[test]
fn layout_places_kerned_glyphs_on_one_line() {
    let m = six_glyph_measure();
    // Wide enough that nothing wraps.
    let tl = layout_paragraph(&m, 1000);
    assert_eq!(tl.glyphs.len(), 6);
    // Caret: 0, then advance 10 + kerning 2 per following glyph.
    let xs: Vec<i64> = tl.glyphs.iter().map(|g| g.x).collect();
    assert_eq!(xs, vec![0, 12, 24, 36, 48, 60]);
    assert!(tl.glyphs.iter().all(|g| g.y == 10));
    // Width accumulates bare advances; height is the lowest box edge.
    assert_eq!(tl.bounds.width, 60);
    assert_eq!(tl.bounds.height, 10);
    assert_eq!((tl.bounds.x, tl.bounds.y), (0, 0));
}

#[test]
fn wrap_relocates_fifth_glyph_without_kerning() {
    let m = six_glyph_measure();
    // Glyph boxes stick out 8 past the caret; the fifth glyph's box ends
    // at 48 + 8 = 56, first to cross a wrap width of 45.
    let tl = layout_paragraph(&m, 45);
    // Glyphs 1..4 stay on the first line.
    assert_eq!(tl.glyphs[3].x, 36);
    assert_eq!(tl.glyphs[3].y, 10);
    // The fifth glyph is relocated to the start of the next line: x 0,
    // one line advance (10 - (-2) + 1 = 13) down, and receives no
    // kerning adjustment.
    assert_eq!(tl.glyphs[4].x, 0);
    assert_eq!(tl.glyphs[4].y, 23);
    // The reset look-back also leaves the following glyph unkerned: it
    // sits at the bare caret, the wrapped glyph's advance.
    assert_eq!(tl.glyphs[5].x, 10);
    assert_eq!(tl.glyphs[5].y, 23);
    // The wrap does not reset the accumulated advance width.
    assert_eq!(tl.bounds.width, 60);
}

#[test]
fn carriage_return_starts_a_new_line() {
    let vm = VMetrics { ascent: 10, descent: -2, line_gap: 1 };
    let raw = vec![raw_glyph(1, 10, 0), raw_glyph(2, 10, 0), raw_glyph(0, 0, 0), raw_glyph(
        3,
        10,
        2,
    )];
    let m = measure_from_raw(vm, "ab\rc", &raw);
    let tl = layout_paragraph(&m, 1000);
    // Control characters place no glyph.
    assert_eq!(tl.glyphs.len(), 3);
    assert_eq!((tl.glyphs[0].x, tl.glyphs[0].y), (0, 10));
    assert_eq!((tl.glyphs[1].x, tl.glyphs[1].y), (10, 10));
    // After the carriage return the caret restarts at x 0 one line down,
    // but the kerning look-back survives it: the first glyph of the new
    // line is still kerned against the last glyph of the previous one.
    assert_eq!((tl.glyphs[2].x, tl.glyphs[2].y), (2, 23));
}

#[test]
fn line_feed_is_a_no_op() {
    let vm = VMetrics { ascent: 10, descent: -2, line_gap: 1 };
    let raw = vec![raw_glyph(1, 10, 0), raw_glyph(0, 0, 0), raw_glyph(2, 10, 0)];
    let m = measure_from_raw(vm, "a\nb", &raw);
    let tl = layout_paragraph(&m, 1000);
    assert_eq!(tl.glyphs.len(), 2);
    // The glyph after the line feed continues on the same line.
    assert_eq!((tl.glyphs[1].x, tl.glyphs[1].y), (10, 10));
}

#[test]
fn layout_is_deterministic() {
    let m = six_glyph_measure();
    let a = layout_paragraph(&m, 45);
    let b = layout_paragraph(&m, 45);
    assert_eq!(a.glyphs, b.glyphs);
    assert_eq!(a.bounds, b.bounds);
}

#[test]
fn spaces_advance_without_quads() {
    let vm = VMetrics { ascent: 10, descent: -2, line_gap: 1 };
    let raw = vec![raw_glyph(1, 10, 0), RawGlyphMetrics {
        id: 2,
        advance: 5,
        kern_prev: 0,
        bounds: None,
    }, raw_glyph(3, 10, 0)];
    let m = measure_from_raw(vm, "a b", &raw);
    let tl = layout_paragraph(&m, 1000);
    assert_eq!(tl.glyphs.len(), 3);
    assert!(tl.glyphs[1].bounds.is_none());
    // The space still advances the caret.
    assert_eq!(tl.glyphs[2].x, 15);
    assert_eq!(tl.bounds.width, 25);
}
