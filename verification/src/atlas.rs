//! The glyph atlas cache: packing glyph bitmaps into one fixed-size texture.
//!
//! The cache maps `(font identifier, glyph identifier)` keys to rectangles
//! of a shared texture. Rectangles are allocated by a shelf packer: rows
//! grow left to right, shelves top to bottom. Two invariants are maintained
//! at every step: no two live entries' rectangles overlap, and every
//! rectangle lies inside the atlas.
//!
//! Packing a batch reuses the existing rectangle for every key already
//! present — a cache hit uploads nothing. When the packer runs out of room
//! the whole cache is invalidated and repacked from scratch; a glyph that
//! still cannot be placed (for instance, one larger than the atlas) is
//! dropped, never an error.

use vstd::prelude::*;

use crate::math::{Rect, MAX_DIM};

verus! {

/// A packed glyph: its cache key and its rectangle inside the atlas.
#[derive(Clone, Copy, Debug, PartialEq, Eq, Structural)]
pub struct AtlasEntry {
    pub font_id: u32,
    pub glyph_id: u16,
    pub rect: Rect,
}

/// A glyph bitmap waiting to be packed: its cache key and its size.
#[derive(Clone, Copy, Debug, PartialEq, Eq, Structural)]
pub struct PackRequest {
    pub font_id: u32,
    pub glyph_id: u16,
    pub width: i64,
    pub height: i64,
}

impl PackRequest {
    pub open spec fn wf(self) -> bool {
        0 <= self.width <= MAX_DIM && 0 <= self.height <= MAX_DIM
    }
}

/// Two rectangles that share no interior point: one lies fully to the left
/// of, right of, above, or below the other.
pub open spec fn rects_disjoint(a: Rect, b: Rect) -> bool {
    ||| a.x + a.width <= b.x
    ||| b.x + b.width <= a.x
    ||| a.y + a.height <= b.y
    ||| b.y + b.height <= a.y
}

/// The rectangle of the entry at `i`, if any, holding `key`; searched from
/// the front.
pub open spec fn spec_lookup(entries: Seq<AtlasEntry>, font_id: u32, glyph_id: u16) -> Option<
    Rect,
>
    decreases entries.len(),
{
    if entries.len() == 0 {
        None
    } else if entries[0].font_id == font_id && entries[0].glyph_id == glyph_id {
        Some(entries[0].rect)
    } else {
        spec_lookup(entries.drop_first(), font_id, glyph_id)
    }
}

/// Whether the cache holds an entry for the key.
pub open spec fn has_entry(entries: Seq<AtlasEntry>, font_id: u32, glyph_id: u16) -> bool {
    spec_lookup(entries, font_id, glyph_id) is Some
}

/// What an insertion attempt did.
#[derive(Clone, Copy, Debug, PartialEq, Eq, Structural)]
pub enum InsertOutcome {
    /// The glyph got this rectangle of the atlas.
    Placed(Rect),
    /// The packer is out of room; invalidating and repacking may help.
    NoRoom,
    /// The glyph is larger than the whole atlas; no repacking can help.
    TooBig,
}

/// The glyph atlas cache; see the module documentation.
pub struct AtlasCache {
    pub width: i64,
    pub height: i64,
    pub entries: Vec<AtlasEntry>,
    pub cursor_x: i64,
    pub cursor_y: i64,
    pub row_height: i64,
}

impl AtlasCache {
    /// An entry's rectangle lies inside the atlas.
    pub open spec fn entry_in_atlas(self, e: AtlasEntry) -> bool {
        &&& e.rect.width >= 0
        &&& e.rect.height >= 0
        &&& 0 <= e.rect.x
        &&& e.rect.x + e.rect.width <= self.width
        &&& 0 <= e.rect.y
        &&& e.rect.y + e.rect.height <= self.height
    }

    /// An entry sits either in the currently growing shelf — at the shelf's
    /// y, no taller than the shelf, fully left of the cursor — or in a
    /// closed shelf fully above the current one.
    pub open spec fn entry_in_shelves(self, e: AtlasEntry) -> bool {
        ||| (e.rect.y == self.cursor_y && e.rect.height <= self.row_height && e.rect.x
            + e.rect.width <= self.cursor_x)
        ||| e.rect.y + e.rect.height <= self.cursor_y
    }

    /// The cache invariant: a well-formed packer cursor, every entry inside
    /// the atlas and inside the shelf structure, keys unique, and no two
    /// entries' rectangles overlapping.
    pub open spec fn wf(self) -> bool {
        &&& 0 < self.width <= MAX_DIM
        &&& 0 < self.height <= MAX_DIM
        &&& 0 <= self.cursor_x <= self.width
        &&& 0 <= self.cursor_y
        &&& 0 <= self.row_height
        &&& self.cursor_y + self.row_height <= self.height
        &&& forall|i: int|
            0 <= i < self.entries@.len() ==> self.entry_in_atlas(#[trigger] self.entries@[i])
        &&& forall|i: int|
            0 <= i < self.entries@.len() ==> self.entry_in_shelves(#[trigger] self.entries@[i])
        &&& forall|i: int, j: int|
            0 <= i < self.entries@.len() && 0 <= j < self.entries@.len() && i != j
                ==> !(#[trigger] self.entries@[i].font_id == #[trigger] self.entries@[j].font_id
                && self.entries@[i].glyph_id == self.entries@[j].glyph_id)
        &&& forall|i: int, j: int|
            0 <= i < self.entries@.len() && 0 <= j < self.entries@.len() && i != j
                ==> rects_disjoint(
                (#[trigger] self.entries@[i]).rect,
                (#[trigger] self.entries@[j]).rect,
            )
    }

    /// An empty cache over a `width` by `height` texture.
    pub fn new(width: i64, height: i64) -> (c: AtlasCache)
        requires
            0 < width <= MAX_DIM,
            0 < height <= MAX_DIM,
        ensures
            c.wf(),
            c.width == width,
            c.height == height,
            c.entries@.len() == 0,
    {
        AtlasCache { width, height, entries: Vec::new(), cursor_x: 0, cursor_y: 0, row_height: 0 }
    }

    /// Drop every entry and reset the packer; the next packs start from a
    /// blank atlas.
    pub fn clear(&mut self)
        ensures
            final(self).width == old(self).width,
            final(self).height == old(self).height,
            final(self).entries@.len() == 0,
            final(self).cursor_x == 0,
            final(self).cursor_y == 0,
            final(self).row_height == 0,
            old(self).wf() ==> final(self).wf(),
    {
        self.entries.clear();
        self.cursor_x = 0;
        self.cursor_y = 0;
        self.row_height = 0;
    }

    /// The rectangle cached for a key, if any.
    pub fn lookup(&self, font_id: u32, glyph_id: u16) -> (r: Option<Rect>)
        ensures
            r == spec_lookup(self.entries@, font_id, glyph_id),
    {
        let n = self.entries.len();
        let mut i: usize = 0;
        proof {
            assert(self.entries@.skip(0) =~= self.entries@);
        }
        while i < n
            invariant
                n == self.entries@.len(),
                i <= n,
                spec_lookup(self.entries@, font_id, glyph_id) == spec_lookup(
                    self.entries@.skip(i as int),
                    font_id,
                    glyph_id,
                ),
            decreases n - i,
        {
            let e = self.entries[i];
            proof {
                assert(self.entries@.skip(i as int)[0] == self.entries@[i as int]);
                assert(self.entries@.skip(i as int).drop_first() =~= self.entries@.skip(i + 1));
            }
            if e.font_id == font_id && e.glyph_id == glyph_id {
                return Some(e.rect);
            }
            i = i + 1;
        }
        proof {
            assert(self.entries@.skip(n as int) =~= Seq::<AtlasEntry>::empty());
        }
        None
    }

    /// Whether the current shelf has room for a `w` by `h` rectangle.
    pub open spec fn fits_in_row(self, w: int, h: int) -> bool {
        self.cursor_x + w <= self.width && self.cursor_y + h <= self.height
    }

    /// Whether a fresh shelf below the current one would have room.
    pub open spec fn fits_in_new_row(self, w: int, h: int) -> bool {
        w <= self.width && self.cursor_y + self.row_height + h <= self.height
    }

    /// Whether the rectangle can never fit, whatever the packer state.
    pub open spec fn oversized(self, w: int, h: int) -> bool {
        w > self.width || h > self.height
    }

    /// Allocate a rectangle for a new key from the shelf packer.
    ///
    /// The key must not be cached yet. The outcome states exactly when each
    /// case happens: `Placed` if and only if the glyph fits in the current
    /// shelf or in a fresh one, `TooBig` if and only if it is larger than
    /// the whole atlas; otherwise `NoRoom`, and the cache is unchanged.
    pub fn insert(&mut self, font_id: u32, glyph_id: u16, w: i64, h: i64) -> (r: InsertOutcome)
        requires
            old(self).wf(),
            0 <= w <= MAX_DIM,
            0 <= h <= MAX_DIM,
            !has_entry(old(self).entries@, font_id, glyph_id),
        ensures
            final(self).wf(),
            final(self).width == old(self).width,
            final(self).height == old(self).height,
            r is Placed <==> !old(self).oversized(w as int, h as int) && (old(self).fits_in_row(
                w as int,
                h as int,
            ) || old(self).fits_in_new_row(w as int, h as int)),
            r is TooBig <==> old(self).oversized(w as int, h as int),
            final(self).cursor_y + final(self).row_height >= old(self).cursor_y + old(
                self,
            ).row_height,
            match r {
                InsertOutcome::Placed(rect) => {
                    &&& final(self).entries@ == old(self).entries@.push(
                        AtlasEntry { font_id, glyph_id, rect },
                    )
                    &&& rect.width == w
                    &&& rect.height == h
                    &&& (old(self).fits_in_row(w as int, h as int) ==> {
                        &&& rect.x == old(self).cursor_x
                        &&& rect.y == old(self).cursor_y
                        &&& final(self).cursor_x == old(self).cursor_x + w
                        &&& final(self).cursor_y == old(self).cursor_y
                        &&& final(self).row_height == (if h > old(self).row_height {
                            h as int
                        } else {
                            old(self).row_height as int
                        })
                    })
                    &&& (!old(self).fits_in_row(w as int, h as int) ==> {
                        &&& rect.x == 0
                        &&& rect.y == old(self).cursor_y + old(self).row_height
                        &&& final(self).cursor_x == w
                        &&& final(self).cursor_y == old(self).cursor_y + old(self).row_height
                        &&& final(self).row_height == h
                    })
                },
                InsertOutcome::NoRoom => *final(self) == *old(self),
                InsertOutcome::TooBig => *final(self) == *old(self),
            },
    {
        if w > self.width || h > self.height {
            return InsertOutcome::TooBig;
        }
        if self.cursor_x + w <= self.width && self.cursor_y + h <= self.height {
            let rect = Rect { x: self.cursor_x, y: self.cursor_y, width: w, height: h };
            let ghost pre = *self;
            self.entries.push(AtlasEntry { font_id, glyph_id, rect });
            self.cursor_x = self.cursor_x + w;
            if h > self.row_height {
                self.row_height = h;
            }
            proof {
                lemma_insert_preserves_wf(pre, *self, font_id, glyph_id, rect);
            }
            InsertOutcome::Placed(rect)
        } else if self.cursor_y + self.row_height + h <= self.height {
            // Close the current shelf and open a fresh one below it.
            self.cursor_y = self.cursor_y + self.row_height;
            self.cursor_x = 0;
            self.row_height = 0;
            let ghost shelved = *self;
            proof {
                assert forall|i: int|
                    0 <= i < shelved.entries@.len() implies shelved.entry_in_shelves(
                    #[trigger] shelved.entries@[i],
                ) by {
                    assert(old(self).entry_in_shelves(shelved.entries@[i]));
                }
            }
            let rect = Rect { x: 0, y: self.cursor_y, width: w, height: h };
            let ghost pre = *self;
            self.entries.push(AtlasEntry { font_id, glyph_id, rect });
            self.cursor_x = w;
            self.row_height = h;
            proof {
                lemma_insert_preserves_wf(pre, *self, font_id, glyph_id, rect);
            }
            InsertOutcome::Placed(rect)
        } else {
            InsertOutcome::NoRoom
        }
    }
}

/// A new entry placed at the packer cursor keeps the cache invariant: it is
/// disjoint from everything in the current shelf (all fully left of the
/// cursor) and from everything in closed shelves (all fully above).
proof fn lemma_insert_preserves_wf(
    pre: AtlasCache,
    post: AtlasCache,
    font_id: u32,
    glyph_id: u16,
    rect: Rect,
)
    requires
        pre.wf(),
        !has_entry(pre.entries@, font_id, glyph_id),
        rect.x == pre.cursor_x,
        rect.y == pre.cursor_y,
        0 <= rect.width,
        0 <= rect.height,
        rect.x + rect.width <= pre.width,
        rect.y + rect.height <= pre.height,
        post.width == pre.width,
        post.height == pre.height,
        post.entries@ == pre.entries@.push(AtlasEntry { font_id, glyph_id, rect }),
        post.cursor_y == pre.cursor_y,
        post.cursor_x == pre.cursor_x + rect.width,
        post.row_height == (if rect.height > pre.row_height {
            rect.height as int
        } else {
            pre.row_height as int
        }),
    ensures
        post.wf(),
{
    let n = pre.entries@.len() as int;
    let fresh = AtlasEntry { font_id, glyph_id, rect };
    lemma_absent_key_differs(pre.entries@, font_id, glyph_id);
    assert forall|i: int| 0 <= i < post.entries@.len() implies post.entry_in_atlas(
        #[trigger] post.entries@[i],
    ) by {
        if i < n {
            assert(pre.entry_in_atlas(pre.entries@[i]));
        }
    }
    assert forall|i: int| 0 <= i < post.entries@.len() implies post.entry_in_shelves(
        #[trigger] post.entries@[i],
    ) by {
        if i < n {
            assert(pre.entry_in_shelves(pre.entries@[i]));
        }
    }
    assert forall|i: int, j: int|
        0 <= i < post.entries@.len() && 0 <= j < post.entries@.len() && i != j
        implies rects_disjoint(
        (#[trigger] post.entries@[i]).rect,
        (#[trigger] post.entries@[j]).rect,
    ) by {
        if i < n && j < n {
            assert(rects_disjoint(pre.entries@[i].rect, pre.entries@[j].rect));
        } else if i < n {
            assert(pre.entry_in_shelves(pre.entries@[i]));
        } else if j < n {
            assert(pre.entry_in_shelves(pre.entries@[j]));
        }
    }
}

/// What a batch pack did: the entries that were newly placed — the ones
/// whose bitmaps must be rasterized and written to the texture — and
/// whether the whole cache was invalidated and repacked on the way.
pub struct PackResult {
    pub uploads: Vec<AtlasEntry>,
    pub repacked: bool,
}

/// An upload corresponds to some request: same key, same size.
pub open spec fn upload_matches_request(e: AtlasEntry, reqs: Seq<PackRequest>) -> bool {
    exists|i: int|
        0 <= i < reqs.len() && (#[trigger] reqs[i]).font_id == e.font_id && reqs[i].glyph_id
            == e.glyph_id && reqs[i].width == e.rect.width && reqs[i].height == e.rect.height
}

/// A request's fate against a cache state: its key is cached, or the glyph
/// is larger than the whole atlas, or the packer is genuinely out of room
/// for it — not even a fresh shelf could take it.
pub open spec fn request_accounted(c: AtlasCache, r: PackRequest) -> bool {
    ||| has_entry(c.entries@, r.font_id, r.glyph_id)
    ||| c.oversized(r.width as int, r.height as int)
    ||| !c.fits_in_new_row(r.width as int, r.height as int)
}

/// A key is cached in a concatenation exactly when it is cached in one of
/// the parts.
pub proof fn lemma_has_entry_append(a: Seq<AtlasEntry>, b: Seq<AtlasEntry>, font_id: u32,
    glyph_id: u16)
    ensures
        has_entry(a + b, font_id, glyph_id) <==> has_entry(a, font_id, glyph_id) || has_entry(
            b,
            font_id,
            glyph_id,
        ),
    decreases a.len(),
{
    if a.len() == 0 {
        assert(a + b =~= b);
    } else {
        assert((a + b)[0] == a[0]);
        assert((a + b).drop_first() =~= a.drop_first() + b);
        lemma_has_entry_append(a.drop_first(), b, font_id, glyph_id);
    }
}

impl AtlasCache {
    /// Pack a batch of glyphs, reusing the cache.
    ///
    /// Every request whose key is already cached is a hit and uploads
    /// nothing; in particular, packing a batch that is already fully cached
    /// leaves the cache untouched and uploads nothing at all. Misses are
    /// placed by the shelf packer and returned as uploads. If the packer
    /// runs out of room, the whole cache is invalidated and the batch is
    /// repacked from scratch; a glyph that still cannot be placed is
    /// dropped.
    pub fn pack_all(&mut self, reqs: &Vec<PackRequest>) -> (res: PackResult)
        requires
            old(self).wf(),
            forall|i: int| 0 <= i < reqs@.len() ==> (#[trigger] reqs@[i]).wf(),
        ensures
            final(self).wf(),
            final(self).width == old(self).width,
            final(self).height == old(self).height,
            (forall|i: int|
                0 <= i < reqs@.len() ==> has_entry(
                    old(self).entries@,
                    (#[trigger] reqs@[i]).font_id,
                    reqs@[i].glyph_id,
                )) ==> {
                &&& *final(self) == *old(self)
                &&& res.uploads@.len() == 0
                &&& !res.repacked
            },
            !res.repacked ==> final(self).entries@ == old(self).entries@ + res.uploads@,
            res.repacked ==> final(self).entries@ == res.uploads@,
            forall|k: int|
                0 <= k < res.uploads@.len() ==> upload_matches_request(
                    #[trigger] res.uploads@[k],
                    reqs@,
                ),
            forall|i: int|
                0 <= i < reqs@.len() ==> request_accounted(*final(self), #[trigger] reqs@[i]),
    {
        let ghost old_self = *old(self);
        let ghost old_entries = old(self).entries@;
        let n = reqs.len();
        let mut uploads: Vec<AtlasEntry> = Vec::new();
        let mut stuck = false;
        let mut i: usize = 0;
        proof {
            assert(self.entries@ =~= old_entries + uploads@);
        }
        while i < n && !stuck
            invariant
                self.wf(),
                self.width == old_self.width,
                self.height == old_self.height,
                forall|j: int| 0 <= j < reqs@.len() ==> (#[trigger] reqs@[j]).wf(),
                n == reqs@.len(),
                i <= n,
                self.entries@ == old_entries + uploads@,
                (forall|j: int|
                    0 <= j < i ==> has_entry(
                        old_entries,
                        (#[trigger] reqs@[j]).font_id,
                        reqs@[j].glyph_id,
                    )) ==> (*self == old_self && uploads@.len() == 0),
                stuck ==> exists|j: int|
                    0 <= j < n && !has_entry(
                        old_entries,
                        (#[trigger] reqs@[j]).font_id,
                        reqs@[j].glyph_id,
                    ),
                forall|k: int|
                    0 <= k < uploads@.len() ==> upload_matches_request(
                        #[trigger] uploads@[k],
                        reqs@,
                    ),
                forall|j: int| 0 <= j < i ==> request_accounted(*self, #[trigger] reqs@[j]),
            decreases n - i, (if stuck { 0int } else { 1int }),
        {
            let r = reqs[i];
            if self.lookup(r.font_id, r.glyph_id).is_none() {
                proof {
                    lemma_has_entry_append(old_entries, uploads@, r.font_id, r.glyph_id);
                }
                let ghost pre = *self;
                match self.insert(r.font_id, r.glyph_id, r.width, r.height) {
                    InsertOutcome::Placed(rect) => {
                        proof {
                            let e = AtlasEntry { font_id: r.font_id, glyph_id: r.glyph_id, rect };
                            assert(self.entries@ =~= pre.entries@ + seq![e]);
                            assert(seq![e][0] == e);
                            lemma_has_entry_append(pre.entries@, seq![e], r.font_id, r.glyph_id);
                            assert forall|j: int| 0 <= j < i implies request_accounted(
                                *self,
                                #[trigger] reqs@[j],
                            ) by {
                                if has_entry(pre.entries@, reqs@[j].font_id, reqs@[j].glyph_id) {
                                    lemma_has_entry_append(
                                        pre.entries@,
                                        seq![e],
                                        reqs@[j].font_id,
                                        reqs@[j].glyph_id,
                                    );
                                }
                            }
                        }
                        uploads.push(AtlasEntry { font_id: r.font_id, glyph_id: r.glyph_id, rect });
                        proof {
                            assert(self.entries@ =~= old_entries + uploads@);
                        }
                        i = i + 1;
                    },
                    InsertOutcome::NoRoom => {
                        stuck = true;
                    },
                    InsertOutcome::TooBig => {
                        i = i + 1;
                    },
                }
            } else {
                i = i + 1;
            }
        }
        if !stuck {
            return PackResult { uploads, repacked: false };
        }

        // The packer ran out of room: invalidate everything and repack the
        // whole batch into a blank atlas.
        self.clear();
        let mut uploads: Vec<AtlasEntry> = Vec::new();
        let mut i: usize = 0;
        proof {
            assert(self.entries@ =~= uploads@);
        }
        while i < n
            invariant
                self.wf(),
                self.width == old_self.width,
                self.height == old_self.height,
                forall|j: int| 0 <= j < reqs@.len() ==> (#[trigger] reqs@[j]).wf(),
                n == reqs@.len(),
                i <= n,
                self.entries@ == uploads@,
                forall|k: int|
                    0 <= k < uploads@.len() ==> upload_matches_request(
                        #[trigger] uploads@[k],
                        reqs@,
                    ),
                forall|j: int| 0 <= j < i ==> request_accounted(*self, #[trigger] reqs@[j]),
            decreases n - i,
        {
            let r = reqs[i];
            if self.lookup(r.font_id, r.glyph_id).is_none() {
                let ghost pre = *self;
                match self.insert(r.font_id, r.glyph_id, r.width, r.height) {
                    InsertOutcome::Placed(rect) => {
                        proof {
                            let e = AtlasEntry { font_id: r.font_id, glyph_id: r.glyph_id, rect };
                            assert(self.entries@ =~= pre.entries@ + seq![e]);
                            assert(seq![e][0] == e);
                            lemma_has_entry_append(pre.entries@, seq![e], r.font_id, r.glyph_id);
                            assert forall|j: int| 0 <= j < i implies request_accounted(
                                *self,
                                #[trigger] reqs@[j],
                            ) by {
                                if has_entry(pre.entries@, reqs@[j].font_id, reqs@[j].glyph_id) {
                                    lemma_has_entry_append(
                                        pre.entries@,
                                        seq![e],
                                        reqs@[j].font_id,
                                        reqs@[j].glyph_id,
                                    );
                                }
                            }
                        }
                        uploads.push(AtlasEntry { font_id: r.font_id, glyph_id: r.glyph_id, rect });
                        proof {
                            assert(self.entries@ =~= uploads@);
                        }
                    },
                    InsertOutcome::NoRoom => {},
                    InsertOutcome::TooBig => {},
                }
            }
            i = i + 1;
        }
        PackResult { uploads, repacked: true }
    }
}

/// A successful lookup returns the rectangle of an actual entry, so
/// everything the cache invariant says of entries — lying inside the atlas,
/// overlapping nothing — holds of it.
pub proof fn lemma_lookup_is_entry(entries: Seq<AtlasEntry>, font_id: u32, glyph_id: u16)
    ensures
        match spec_lookup(entries, font_id, glyph_id) {
            Some(r) => exists|i: int|
                0 <= i < entries.len() && #[trigger] entries[i] == AtlasEntry {
                    font_id,
                    glyph_id,
                    rect: r,
                },
            None => true,
        },
    decreases entries.len(),
{
    if entries.len() > 0 {
        if entries[0].font_id == font_id && entries[0].glyph_id == glyph_id {
            assert(entries[0] == AtlasEntry { font_id, glyph_id, rect: entries[0].rect });
        } else {
            lemma_lookup_is_entry(entries.drop_first(), font_id, glyph_id);
            if spec_lookup(entries, font_id, glyph_id) is Some {
                let i = choose|i: int|
                    0 <= i < entries.drop_first().len() && #[trigger] entries.drop_first()[i]
                        == AtlasEntry {
                        font_id,
                        glyph_id,
                        rect: spec_lookup(entries, font_id, glyph_id)->Some_0,
                    };
                assert(entries[i + 1] == entries.drop_first()[i]);
            }
        }
    }
}

/// If a key is absent from a cache, no entry of it carries that key.
proof fn lemma_absent_key_differs(entries: Seq<AtlasEntry>, font_id: u32, glyph_id: u16)
    requires
        !has_entry(entries, font_id, glyph_id),
    ensures
        forall|i: int|
            0 <= i < entries.len() ==> !((#[trigger] entries[i]).font_id == font_id
                && entries[i].glyph_id == glyph_id),
    decreases entries.len(),
{
    if entries.len() > 0 {
        lemma_absent_key_differs(entries.drop_first(), font_id, glyph_id);
        assert forall|i: int|
            0 <= i < entries.len() implies !((#[trigger] entries[i]).font_id == font_id
            && entries[i].glyph_id == glyph_id) by {
            if i > 0 {
                assert(entries.drop_first()[i - 1] == entries[i]);
            }
        }
    }
}

} // verus!
