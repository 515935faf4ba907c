//! Geometry: rectangle containment and the pixel/clip/texture transforms.

use wgpu_ui::math::{
    clip_to_pixels, pixels_to_clip, pixels_to_texture_coord, Frac, Rect, Vec2,
};
use wgpu_ui::Context;

#[test]
fn rect_contains_point() {
    let rect = Rect { x: 0, y: 0, width: 32, height: 32 };
    assert!(rect.contains(Vec2 { x: 10, y: 10 }))
}

#[test]
fn rect_contains_limits() {
    let rect = Rect { x: 32, y: 32, width: 32, height: 32 };
    assert!(rect.contains(Vec2 { x: 32, y: 32 }));

    assert!(rect.contains(Vec2 { x: 64, y: 64 }));
}

#[test]
fn rect_position() {
    let rect = Rect { x: 32, y: 32, width: 32, height: 32 };
    assert_eq!(rect.position(), Vec2 { x: 32, y: 32 });
    let rect = Rect { x: 300, y: 32, width: 32, height: 32 };
    assert_eq!(rect.position(), Vec2 { x: 300, y: 32 })
}

#[test]
fn rect_excludes_outside_points() {
    let rect = Rect { x: 0, y: 0, width: 100, height: 50 };
    assert!(!rect.contains(Vec2 { x: 101, y: 10 }));
    assert!(!rect.contains(Vec2 { x: 10, y: 51 }));
    assert!(!rect.contains(Vec2 { x: -1, y: 10 }));
    assert!(!rect.contains(Vec2 { x: 10, y: -1 }));
    assert!(rect.contains(Vec2 { x: 0, y: 0 }));
    assert!(rect.contains(Vec2 { x: 100, y: 50 }));
}

#[test]
fn pixel_to_clip_values() {
    let ctx = Context::new(800, 600);
    let (cx, cy) = pixels_to_clip(0, 0, &ctx);
    // The top-left pixel is clip (-1, 1).
    assert_eq!((cx.num, cx.den), (-800, 800));
    assert_eq!((cy.num, cy.den), (600, 600));

    let (cx, cy) = pixels_to_clip(800, 600, &ctx);
    // The bottom-right pixel is clip (1, -1).
    assert_eq!((cx.num, cx.den), (800, 800));
    assert_eq!((cy.num, cy.den), (-600, 600));

    let (cx, cy) = pixels_to_clip(400, 300, &ctx);
    // The center pixel is clip (0, 0).
    assert_eq!(cx.num, 0);
    assert_eq!(cy.num, 0);
}

#[test]
fn pixel_clip_round_trip_is_exact() {
    let ctx = Context::new(800, 600);
    for &(x, y) in &[(0i64, 0i64), (1, 1), (13, 57), (400, 300), (799, 599), (800, 600)] {
        let (cx, cy) = pixels_to_clip(x, y, &ctx);
        let (px, py) = clip_to_pixels(cx, cy, &ctx);
        assert_eq!((px, py), (x, y));
    }
}

#[test]
fn pixel_clip_round_trip_in_floating_point() {
    // The rational clip coordinates, evaluated in floating point, agree
    // with the floating-point transform within tolerance.
    let ctx = Context::new(800, 600);
    for &(x, y) in &[(0i64, 0i64), (10, 10), (321, 123), (800, 600)] {
        let (cx, cy) = pixels_to_clip(x, y, &ctx);
        let fx = cx.num as f32 / cx.den as f32;
        let fy = cy.num as f32 / cy.den as f32;
        let ex = (2.0 * x as f32 / 800.0) - 1.0;
        let ey = 1.0 - (2.0 * y as f32 / 600.0);
        assert!((fx - ex).abs() < 1e-6);
        assert!((fy - ey).abs() < 1e-6);
        let back_x = (fx + 1.0) * 800.0 / 2.0;
        let back_y = (1.0 - fy) * 600.0 / 2.0;
        assert!((back_x - x as f32).abs() < 1e-3);
        assert!((back_y - y as f32).abs() < 1e-3);
    }
}

#[test]
fn texture_coordinates_are_pixel_fractions() {
    let (u, v) = pixels_to_texture_coord(100, 50, 512, 512);
    assert_eq!((u.num, u.den), (100, 512));
    assert_eq!((v.num, v.den), (50, 512));
}

#[test]
fn clip_to_pixels_rounds_toward_zero() {
    let ctx = Context::new(100, 100);
    // Clip x of 1/3 on a 100-wide target: (1/3 + 1) * 50 = 66.67 -> 66.
    let (px, _) = clip_to_pixels(
        Frac { num: 1, den: 3 },
        Frac { num: 0, den: 1 },
        &ctx,
    );
    assert_eq!(px, 66);
}
