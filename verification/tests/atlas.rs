//! Atlas packing: shelf placement, cache hits, invalidation, no overlap.

use wgpu_ui::atlas::{AtlasCache, InsertOutcome, PackRequest};
use wgpu_ui::math::Rect;

fn req(glyph_id: u16, width: i64, height: i64) -> PackRequest {
    PackRequest { font_id: 0, glyph_id, width, height }
}

#[test]
fn shelf_packer_places_left_to_right_top_to_bottom() {
    let mut cache = AtlasCache::new(32, 32);
    match cache.insert(0, 1, 10, 10) {
        InsertOutcome::Placed(r) => assert_eq!(r, Rect { x: 0, y: 0, width: 10, height: 10 }),
        _ => panic!("first glyph must be placed"),
    }
    match cache.insert(0, 2, 12, 6) {
        InsertOutcome::Placed(r) => assert_eq!(r, Rect { x: 10, y: 0, width: 12, height: 6 }),
        _ => panic!("second glyph must sit right of the first"),
    }
    // 20 wide no longer fits the 32-wide row next to 22 used: new shelf
    // below the tallest entry of the first row.
    match cache.insert(0, 3, 20, 8) {
        InsertOutcome::Placed(r) => assert_eq!(r, Rect { x: 0, y: 10, width: 20, height: 8 }),
        _ => panic!("third glyph must open a new shelf"),
    }
    assert_eq!(cache.lookup(0, 2), Some(Rect { x: 10, y: 0, width: 12, height: 6 }));
    assert_eq!(cache.lookup(0, 9), None);
}

#[test]
fn insert_reports_oversize_and_exhaustion() {
    let mut cache = AtlasCache::new(16, 16);
    assert!(matches!(cache.insert(0, 1, 17, 4), InsertOutcome::TooBig));
    assert!(matches!(cache.insert(0, 2, 4, 17), InsertOutcome::TooBig));
    assert!(matches!(cache.insert(0, 3, 16, 16), InsertOutcome::Placed(_)));
    // The atlas is now full.
    assert!(matches!(cache.insert(0, 4, 1, 1), InsertOutcome::NoRoom));
}

#[test]
fn pack_all_hits_upload_nothing() {
    let mut cache = AtlasCache::new(64, 64);
    let reqs = vec![req(1, 10, 10), req(2, 12, 6), req(1, 10, 10)];
    let first = cache.pack_all(&reqs);
    assert!(!first.repacked);
    // The duplicate request is a hit within the same batch.
    assert_eq!(first.uploads.len(), 2);

    // Packing the same batch again is pure cache hits: nothing uploaded,
    // the same rectangles come back.
    let r1 = cache.lookup(0, 1);
    let r2 = cache.lookup(0, 2);
    let second = cache.pack_all(&reqs);
    assert!(!second.repacked);
    assert_eq!(second.uploads.len(), 0);
    assert_eq!(cache.lookup(0, 1), r1);
    assert_eq!(cache.lookup(0, 2), r2);
}

#[test]
fn pack_all_repacks_when_out_of_room() {
    let mut cache = AtlasCache::new(16, 16);
    // Fill the whole atlas with one glyph.
    let first = cache.pack_all(&vec![req(1, 16, 16)]);
    assert!(!first.repacked);
    // A new glyph cannot be placed: the cache is invalidated and the
    // batch repacked from scratch, dropping what no longer fits.
    let second = cache.pack_all(&vec![req(2, 8, 8)]);
    assert!(second.repacked);
    assert_eq!(second.uploads.len(), 1);
    assert_eq!(cache.lookup(0, 2), Some(Rect { x: 0, y: 0, width: 8, height: 8 }));
    assert_eq!(cache.lookup(0, 1), None);
}

#[test]
fn pack_all_drops_oversized_glyphs() {
    let mut cache = AtlasCache::new(16, 16);
    let out = cache.pack_all(&vec![req(1, 20, 4), req(2, 4, 4)]);
    assert!(!out.repacked);
    assert_eq!(out.uploads.len(), 1);
    assert_eq!(cache.lookup(0, 1), None);
    assert!(cache.lookup(0, 2).is_some());
}

#[test]
fn live_entries_never_overlap() {
    let mut cache = AtlasCache::new(64, 64);
    let reqs: Vec<PackRequest> =
        (0..20).map(|i| req(i as u16, 7 + (i % 5), 5 + (i % 7))).collect();
    cache.pack_all(&reqs);
    let entries = &cache.entries;
    assert!(entries.len() > 1);
    for i in 0..entries.len() {
        let a = entries[i].rect;
        assert!(a.x >= 0 && a.y >= 0 && a.x + a.width <= 64 && a.y + a.height <= 64);
        for j in 0..i {
            let b = entries[j].rect;
            let disjoint = a.x + a.width <= b.x
                || b.x + b.width <= a.x
                || a.y + a.height <= b.y
                || b.y + b.height <= a.y;
            assert!(disjoint, "entries {} and {} overlap", i, j);
        }
    }
}

#[test]
fn clear_empties_the_cache() {
    let mut cache = AtlasCache::new(32, 32);
    cache.pack_all(&vec![req(1, 4, 4)]);
    assert!(cache.lookup(0, 1).is_some());
    cache.clear();
    assert_eq!(cache.lookup(0, 1), None);
    assert_eq!(cache.entries.len(), 0);
}
