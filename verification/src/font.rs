//! Font metrics as plain pixel values.
//!
//! The font backend parses font files and computes scaled glyph metrics in
//! floating point; that world stays outside this crate. What comes in is a
//! raw whole-pixel metric reading per character — advance, kerning against
//! the previous printable character, and the pixel bounding box of the glyph
//! placed at the origin. `measure_from_raw` normalizes such readings into a
//! well-formed `TextMeasure`: control characters are zeroed, kerning with no
//! previous printable character is dropped, and every metric is saturated at
//! `METRIC_CLAMP` (sixteen million pixels), so each later sum over a
//! measured string provably fits in `i64`.
//!
//! Everything downstream of the measure — line breaking, caret arithmetic,
//! atlas packing, vertex generation — is verified pure code over these
//! plain values.

use vstd::prelude::*;
use vstd::string::StrSliceExecFns;

verus! {

#[verifier::external_type_specification]
#[verifier::external_body]
pub struct ExFont<'a>(rusttype::Font<'a>);

/// Relies on rusttype's `IntoGlyphId` lookup for `char`: the font's glyph
/// identifier for a character. Characters the font does not map go to the
/// `.notdef` glyph, identifier 0, so the lookup returns for every
/// character. (The index lookup is used directly; `Font::glyph` would
/// additionally assert the identifier against the font's glyph count,
/// which a malformed character map can violate.)
#[verifier::external_body]
pub(crate) fn glyph_index(font: &rusttype::Font<'_>, c: char) -> (id: u16) {
    rusttype::IntoGlyphId::into_glyph_id(c, font).0
}

/// Largest magnitude a single glyph metric can take after saturation.
pub const METRIC_CLAMP: i64 = 0x100_0000;

/// Longest string a single measure accepts, in characters.
pub const MAX_TEXT_LEN: usize = 0x1_0000;

/// A metric that has been saturated into the range the layout arithmetic
/// is proved overflow-free for.
pub open spec fn metric_in_range(v: int) -> bool {
    -METRIC_CLAMP <= v <= METRIC_CLAMP
}

/// The font-wide vertical metrics at a given character size, in pixels:
/// how far glyphs extend above (`ascent`) and below (`descent`, normally
/// negative) the baseline, and the gap between consecutive lines.
#[derive(Clone, Copy, Debug, PartialEq, Eq, Structural)]
pub struct VMetrics {
    pub ascent: i64,
    pub descent: i64,
    pub line_gap: i64,
}

impl VMetrics {
    pub open spec fn wf(self) -> bool {
        &&& metric_in_range(self.ascent as int)
        &&& metric_in_range(self.descent as int)
        &&& metric_in_range(self.line_gap as int)
    }
}

/// A pixel-boundary bounding box, relative to the position the glyph was
/// laid out at (the origin, for the boxes stored in a `GlyphMeasure`).
#[derive(Clone, Copy, Debug, PartialEq, Eq, Structural)]
pub struct GlyphBounds {
    pub min_x: i64,
    pub min_y: i64,
    pub max_x: i64,
    pub max_y: i64,
}

impl GlyphBounds {
    pub open spec fn wf(self) -> bool {
        &&& metric_in_range(self.min_x as int)
        &&& metric_in_range(self.min_y as int)
        &&& metric_in_range(self.max_x as int)
        &&& metric_in_range(self.max_y as int)
        &&& self.min_x <= self.max_x
        &&& self.min_y <= self.max_y
    }
}

/// One character's raw metric reading from the font backend, in whole
/// pixels, not yet normalized.
#[derive(Clone, Copy, Debug, PartialEq, Eq, Structural)]
pub struct RawGlyphMetrics {
    /// The font's glyph identifier for the character.
    pub id: u16,
    /// Horizontal advance of the caret after this glyph.
    pub advance: i64,
    /// Kerning against the previous printable character of the string.
    pub kern_prev: i64,
    /// Pixel bounding box of the glyph placed at the origin; `None` for
    /// glyphs without a shape, such as a space.
    pub bounds: Option<GlyphBounds>,
}

/// Everything the text layout reads about one character of a string.
#[derive(Clone, Copy, Debug, PartialEq, Eq, Structural)]
pub struct GlyphMeasure {
    /// The character itself.
    pub ch: char,
    /// The font's glyph identifier for the character; the atlas cache key.
    pub id: u16,
    /// Whether the character is a Unicode control character.
    pub control: bool,
    /// Horizontal advance of the caret after this glyph, in pixels.
    pub advance: i64,
    /// Kerning against the previous printable character of the string,
    /// in pixels; zero when there is none.
    pub kern_prev: i64,
    /// Pixel bounding box of the glyph placed at the origin; `None` for
    /// glyphs without a shape, such as a space.
    pub bounds: Option<GlyphBounds>,
}

impl GlyphMeasure {
    pub open spec fn wf(self) -> bool {
        &&& metric_in_range(self.advance as int)
        &&& metric_in_range(self.kern_prev as int)
        &&& match self.bounds {
            Some(b) => b.wf(),
            None => true,
        }
    }
}

/// A whole string measured against a font at one character size.
#[derive(Debug)]
pub struct TextMeasure {
    pub vm: VMetrics,
    pub glyphs: Vec<GlyphMeasure>,
}

impl TextMeasure {
    pub open spec fn wf(self) -> bool {
        &&& self.vm.wf()
        &&& self.glyphs@.len() <= MAX_TEXT_LEN
        &&& forall|i: int| 0 <= i < self.glyphs@.len() ==> (#[trigger] self.glyphs@[i]).wf()
    }

    /// A measure that describes the given character sequence.
    pub open spec fn measures(self, s: Seq<char>) -> bool {
        &&& self.glyphs@.len() == s.len()
        &&& forall|i: int| 0 <= i < s.len() ==> (#[trigger] self.glyphs@[i]).ch == s[i]
    }
}

/// A Unicode control character (category Cc): `U+0000`..`U+001F` and
/// `U+007F`..`U+009F`.
pub open spec fn spec_is_control(c: char) -> bool {
    (c as u32) < 0x20 || (0x7f <= (c as u32) && (c as u32) <= 0x9f)
}

/// Whether some character before position `i` of the string is printable.
pub open spec fn has_printable_before(s: Seq<char>, i: int) -> bool {
    exists|j: int| 0 <= j < i && !spec_is_control(#[trigger] s[j])
}

fn is_control_char(c: char) -> (r: bool)
    ensures
        r == spec_is_control(c),
{
    let u = c as u32;
    u < 0x20 || (0x7f <= u && u <= 0x9f)
}

/// What normalization does to a raw bounding box: saturate each edge;
/// an absent or inverted box — one that describes no pixel area — becomes
/// `None`.
pub open spec fn spec_normalize_bounds(b: Option<GlyphBounds>) -> Option<GlyphBounds> {
    match b {
        Some(bb) => if bb.min_x <= bb.max_x && bb.min_y <= bb.max_y {
            Some(
                GlyphBounds {
                    min_x: spec_clamp_metric(bb.min_x as int) as i64,
                    min_y: spec_clamp_metric(bb.min_y as int) as i64,
                    max_x: spec_clamp_metric(bb.max_x as int) as i64,
                    max_y: spec_clamp_metric(bb.max_y as int) as i64,
                },
            )
        } else {
            None
        },
        None => None,
    }
}

/// Saturate a raw metric into `[-METRIC_CLAMP, METRIC_CLAMP]`.
pub open spec fn spec_clamp_metric(v: int) -> int {
    if v < -METRIC_CLAMP {
        -METRIC_CLAMP as int
    } else if v > METRIC_CLAMP {
        METRIC_CLAMP as int
    } else {
        v
    }
}

fn clamp_metric(v: i64) -> (r: i64)
    ensures
        r == spec_clamp_metric(v as int),
        metric_in_range(r as int),
{
    if v < -METRIC_CLAMP {
        -METRIC_CLAMP
    } else if v > METRIC_CLAMP {
        METRIC_CLAMP
    } else {
        v
    }
}

/// Normalize raw per-character metric readings for `text` into a
/// well-formed `TextMeasure`.
///
/// Control characters get a zeroed entry, so positions in the measure line
/// up with positions in the string; kerning is kept only for characters
/// that have a previous printable character; every metric is saturated at
/// `METRIC_CLAMP`.
pub fn measure_from_raw(vm: VMetrics, text: &str, raw: &Vec<RawGlyphMetrics>) -> (m: TextMeasure)
    requires
        text@.len() <= MAX_TEXT_LEN,
        raw@.len() == text@.len(),
    ensures
        m.wf(),
        m.measures(text@),
        forall|i: int|
            0 <= i < text@.len() ==> (#[trigger] m.glyphs@[i]).control == spec_is_control(
                text@[i],
            ),
        forall|i: int|
            0 <= i < text@.len() && spec_is_control(text@[i]) ==> {
                &&& (#[trigger] m.glyphs@[i]).id == 0
                &&& m.glyphs@[i].advance == 0
                &&& m.glyphs@[i].kern_prev == 0
                &&& m.glyphs@[i].bounds is None
            },
        forall|i: int|
            0 <= i < text@.len() && !spec_is_control(text@[i]) ==> {
                &&& (#[trigger] m.glyphs@[i]).id == raw@[i].id
                &&& m.glyphs@[i].advance == spec_clamp_metric(raw@[i].advance as int)
                &&& m.glyphs@[i].bounds == spec_normalize_bounds(raw@[i].bounds)
            },
        forall|i: int|
            0 <= i < text@.len() && !has_printable_before(text@, i) ==> (
            #[trigger] m.glyphs@[i]).kern_prev == 0,
        forall|i: int|
            0 <= i < text@.len() && !spec_is_control(text@[i]) && has_printable_before(text@, i)
                ==> (#[trigger] m.glyphs@[i]).kern_prev == spec_clamp_metric(
                raw@[i].kern_prev as int,
            ),
{
    let vm = VMetrics {
        ascent: clamp_metric(vm.ascent),
        descent: clamp_metric(vm.descent),
        line_gap: clamp_metric(vm.line_gap),
    };

    let n = text.unicode_len();
    let mut glyphs: Vec<GlyphMeasure> = Vec::new();
    let mut any_printable: bool = false;
    let mut i: usize = 0;
    while i < n
        invariant
            n == text@.len(),
            n <= MAX_TEXT_LEN,
            raw@.len() == n,
            i <= n,
            glyphs@.len() == i,
            any_printable <==> has_printable_before(text@, i as int),
            forall|j: int| 0 <= j < i ==> (#[trigger] glyphs@[j]).wf(),
            forall|j: int| 0 <= j < i ==> (#[trigger] glyphs@[j]).ch == text@[j],
            forall|j: int|
                0 <= j < i ==> (#[trigger] glyphs@[j]).control == spec_is_control(text@[j]),
            forall|j: int|
                0 <= j < i && spec_is_control(text@[j]) ==> {
                    &&& (#[trigger] glyphs@[j]).id == 0
                    &&& glyphs@[j].advance == 0
                    &&& glyphs@[j].kern_prev == 0
                    &&& glyphs@[j].bounds is None
                },
            forall|j: int|
                0 <= j < i && !spec_is_control(text@[j]) ==> {
                    &&& (#[trigger] glyphs@[j]).id == raw@[j].id
                    &&& glyphs@[j].advance == spec_clamp_metric(raw@[j].advance as int)
                    &&& glyphs@[j].bounds == spec_normalize_bounds(raw@[j].bounds)
                },
            forall|j: int|
                0 <= j < i && !has_printable_before(text@, j) ==> (
                #[trigger] glyphs@[j]).kern_prev == 0,
            forall|j: int|
                0 <= j < i && !spec_is_control(text@[j]) && has_printable_before(text@, j) ==> (
                #[trigger] glyphs@[j]).kern_prev == spec_clamp_metric(raw@[j].kern_prev as int),
        decreases n - i,
    {
        let ch = text.get_char(i);
        if is_control_char(ch) {
            glyphs.push(
                GlyphMeasure { ch, id: 0, control: true, advance: 0, kern_prev: 0, bounds: None },
            );
        } else {
            let r = raw[i];
            let kern_prev = if any_printable {
                clamp_metric(r.kern_prev)
            } else {
                0
            };
            // An inverted box describes no pixel area: treat it as shapeless.
            let bounds = match r.bounds {
                Some(bb) => if bb.min_x <= bb.max_x && bb.min_y <= bb.max_y {
                    Some(
                        GlyphBounds {
                            min_x: clamp_metric(bb.min_x),
                            min_y: clamp_metric(bb.min_y),
                            max_x: clamp_metric(bb.max_x),
                            max_y: clamp_metric(bb.max_y),
                        },
                    )
                } else {
                    None
                },
                None => None,
            };
            glyphs.push(
                GlyphMeasure {
                    ch,
                    id: r.id,
                    control: false,
                    advance: clamp_metric(r.advance),
                    kern_prev,
                    bounds,
                },
            );
            any_printable = true;
            proof {
                assert(!spec_is_control(text@[i as int]));
                assert(has_printable_before(text@, i + 1));
            }
        }
        i = i + 1;
        proof {
            if !any_printable {
                assert forall|j: int| 0 <= j < i implies spec_is_control(#[trigger] text@[j]) by {
                    if !spec_is_control(text@[j]) {
                        assert(has_printable_before(text@, i as int));
                    }
                }
            }
        }
    }
    TextMeasure { vm, glyphs }
}

/// Normalize raw metric readings as `measure_from_raw` does, but look each
/// printable character's glyph identifier up in the font itself rather
/// than taking it from the reading.
///
/// The scale-dependent metrics — advances, kerning, bounding boxes — are
/// floating-point on the font side and must still be read outside and
/// handed in; the identifier lookup is exact and is made here.
pub fn measure_with_font(
    font: &rusttype::Font<'_>,
    vm: VMetrics,
    text: &str,
    raw: &Vec<RawGlyphMetrics>,
) -> (m: TextMeasure)
    requires
        text@.len() <= MAX_TEXT_LEN,
        raw@.len() == text@.len(),
    ensures
        m.wf(),
        m.measures(text@),
        forall|i: int|
            0 <= i < text@.len() ==> (#[trigger] m.glyphs@[i]).control == spec_is_control(
                text@[i],
            ),
        forall|i: int|
            0 <= i < text@.len() && spec_is_control(text@[i]) ==> {
                &&& (#[trigger] m.glyphs@[i]).id == 0
                &&& m.glyphs@[i].advance == 0
                &&& m.glyphs@[i].kern_prev == 0
                &&& m.glyphs@[i].bounds is None
            },
        forall|i: int|
            0 <= i < text@.len() && !spec_is_control(text@[i]) ==> {
                &&& (#[trigger] m.glyphs@[i]).advance == spec_clamp_metric(raw@[i].advance as int)
                &&& m.glyphs@[i].bounds == spec_normalize_bounds(raw@[i].bounds)
            },
        forall|i: int|
            0 <= i < text@.len() && !has_printable_before(text@, i) ==> (
            #[trigger] m.glyphs@[i]).kern_prev == 0,
{
    let n = text.unicode_len();
    let mut resolved: Vec<RawGlyphMetrics> = Vec::new();
    let mut i: usize = 0;
    while i < n
        invariant
            n == text@.len(),
            raw@.len() == n,
            i <= n,
            resolved@.len() == i,
            forall|j: int|
                0 <= j < i ==> {
                    &&& (#[trigger] resolved@[j]).advance == raw@[j].advance
                    &&& resolved@[j].kern_prev == raw@[j].kern_prev
                    &&& resolved@[j].bounds == raw@[j].bounds
                },
        decreases n - i,
    {
        let ch = text.get_char(i);
        let r = raw[i];
        let id = if is_control_char(ch) {
            0
        } else {
            glyph_index(font, ch)
        };
        resolved.push(RawGlyphMetrics { id, ..r });
        i = i + 1;
    }
    measure_from_raw(vm, text, &resolved)
}

} // verus!
