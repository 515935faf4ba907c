//! Widget state machines: button clicks, window dragging and closing,
//! layout stacking, the registry, and the text element's cache behavior.

use wgpu_ui::button::{Button, ButtonEvent, Paddings};
use wgpu_ui::color::Color;
use wgpu_ui::events::{ElementState, InputEvent, MouseButton};
use wgpu_ui::font::{measure_from_raw, GlyphBounds, RawGlyphMetrics, TextMeasure, VMetrics};
use wgpu_ui::graphics::text::Text;
use wgpu_ui::layout::{ChildWidget, Direction, Layout};
use wgpu_ui::math::Vec2;
use wgpu_ui::ui::{Ui, Widget};
use wgpu_ui::window::Window;
use wgpu_ui::Context;

/// A one-character measure whose glyph is `width` by `height`, hanging
/// above the baseline.
fn single_glyph_measure(text: &str, width: i64, height: i64) -> TextMeasure {
    let vm = VMetrics { ascent: height, descent: 0, line_gap: 0 };
    let raw = vec![RawGlyphMetrics {
        id: 1,
        advance: width,
        kern_prev: 0,
        bounds: Some(GlyphBounds { min_x: 0, min_y: -height, max_x: width, max_y: 0 }),
    }];
    measure_from_raw(vm, text, &raw)
}

fn move_to(x: i64, y: i64) -> InputEvent {
    InputEvent::CursorMoved { x, y }
}

fn left(state: ElementState) -> InputEvent {
    InputEvent::MouseInput { state, button: MouseButton::Left }
}

const GREEN: Color = Color { r: 0, g: 255, b: 0 };
const BLUE: Color = Color { r: 0, g: 0, b: 255 };
const RED: Color = Color { r: 255, g: 0, b: 0 };

#[test]
fn button_click_inside_bounds() {
    let ctx = Context::new(800, 600);
    let m = single_glyph_measure("A", 100, 50);
    let mut b = Button::new(&ctx, "A", m, 30);
    // The button's bounds are {0, 0, 100, 50}.
    assert_eq!(b.size(), Vec2 { x: 100, y: 50 });
    assert_eq!(b.position(), Vec2 { x: 0, y: 0 });

    b.process_events(&ctx, &move_to(10, 10));
    assert_eq!(b.rect.color, GREEN);
    b.process_events(&ctx, &left(ElementState::Pressed));
    // Exactly one click was emitted, and the button shows the pressed
    // color.
    assert_eq!(b.events, vec![ButtonEvent::Hover, ButtonEvent::Click]);
    assert_eq!(b.rect.color, BLUE);
    assert!(b.emitted(ButtonEvent::Click));
    // The query drained the whole queue.
    assert!(!b.emitted(ButtonEvent::Hover));
}

#[test]
fn button_click_outside_bounds() {
    let ctx = Context::new(800, 600);
    let m = single_glyph_measure("A", 100, 50);
    let mut b = Button::new(&ctx, "A", m, 30);

    b.process_events(&ctx, &move_to(200, 200));
    assert_eq!(b.rect.color, RED);
    b.process_events(&ctx, &left(ElementState::Pressed));
    assert!(b.events.is_empty());
    assert!(!b.emitted(ButtonEvent::Click));
}

#[test]
fn button_ignores_other_mouse_buttons() {
    let ctx = Context::new(800, 600);
    let m = single_glyph_measure("A", 100, 50);
    let mut b = Button::new(&ctx, "A", m, 30);
    b.process_events(&ctx, &move_to(10, 10));
    let color_before = b.rect.color;
    b.process_events(
        &ctx,
        &InputEvent::MouseInput { state: ElementState::Pressed, button: MouseButton::Right },
    );
    b.process_events(
        &ctx,
        &InputEvent::MouseInput { state: ElementState::Pressed, button: MouseButton::Middle },
    );
    assert_eq!(b.rect.color, color_before);
    assert_eq!(b.events, vec![ButtonEvent::Hover]);
}

#[test]
fn window_ignores_other_mouse_buttons() {
    let ctx = Context::new(800, 600);
    let mut w = test_window(&ctx);
    w.process_events(&ctx, &move_to(20, 5));
    w.process_events(
        &ctx,
        &InputEvent::MouseInput { state: ElementState::Pressed, button: MouseButton::Right },
    );
    assert_eq!(w.click_position, None);
    assert!(w.visible());
}

#[test]
fn button_release_restores_resting_color() {
    let ctx = Context::new(800, 600);
    let m = single_glyph_measure("A", 100, 50);
    let mut b = Button::new(&ctx, "A", m, 30);
    b.process_events(&ctx, &move_to(10, 10));
    b.process_events(&ctx, &left(ElementState::Pressed));
    assert_eq!(b.rect.color, BLUE);
    b.process_events(&ctx, &left(ElementState::Released));
    assert_eq!(b.rect.color, RED);
}

#[test]
fn button_paddings_grow_the_rectangle() {
    let ctx = Context::new(800, 600);
    let m = single_glyph_measure("A", 100, 50);
    let mut b = Button::new(&ctx, "A", m, 30);
    b.set_paddings(&ctx, Paddings { left: 10, top: 20, bottom: 20, right: 10 });
    assert_eq!(b.size(), Vec2 { x: 120, y: 90 });
    // The label is centered inside the padded rectangle.
    assert_eq!(b.label.position, Vec2 { x: 10, y: 20 });
}

#[test]
fn invisible_button_ignores_events() {
    let ctx = Context::new(800, 600);
    let m = single_glyph_measure("A", 100, 50);
    let mut b = Button::new(&ctx, "A", m, 30);
    b.set_visibility(false);
    b.process_events(&ctx, &move_to(10, 10));
    b.process_events(&ctx, &left(ElementState::Pressed));
    assert!(b.events.is_empty());
    let mut out = Vec::new();
    b.draw(&mut out);
    assert!(out.is_empty());
}

fn test_window(ctx: &Context) -> Window {
    let title = single_glyph_measure("T", 10, 8);
    let close = single_glyph_measure("x", 8, 8);
    Window::new(ctx, "T", title, close)
}

#[test]
fn window_drag_follows_the_pointer() {
    let ctx = Context::new(800, 600);
    let mut w = test_window(&ctx);
    assert_eq!(w.titlebar.position, Vec2 { x: 0, y: 0 });
    assert_eq!(w.titlebar.size, Vec2 { x: 150, y: 20 });

    // Press at (20, 5), inside the titlebar: the offset is captured.
    w.process_events(&ctx, &move_to(20, 5));
    w.process_events(&ctx, &left(ElementState::Pressed));
    assert_eq!(w.click_position, Some(Vec2 { x: 20, y: 5 }));

    // Moving to (120, 80) lands the titlebar at cursor minus offset.
    w.process_events(&ctx, &move_to(120, 80));
    assert_eq!(w.titlebar.position, Vec2 { x: 100, y: 75 });
    // The body follows, directly below the titlebar.
    assert_eq!(w.body.position, Vec2 { x: 100, y: 95 });

    // Releasing ends the drag: further moves reposition nothing.
    w.process_events(&ctx, &left(ElementState::Released));
    assert_eq!(w.click_position, None);
    w.process_events(&ctx, &move_to(500, 500));
    assert_eq!(w.titlebar.position, Vec2 { x: 100, y: 75 });
}

#[test]
fn window_press_outside_titlebar_does_not_drag() {
    let ctx = Context::new(800, 600);
    let mut w = test_window(&ctx);
    w.process_events(&ctx, &move_to(30, 100));
    w.process_events(&ctx, &left(ElementState::Pressed));
    assert_eq!(w.click_position, None);
    w.process_events(&ctx, &move_to(100, 100));
    assert_eq!(w.titlebar.position, Vec2 { x: 0, y: 0 });
}

#[test]
fn window_close_button_hides_it() {
    let ctx = Context::new(800, 600);
    let mut w = test_window(&ctx);
    // The close button sits five pixels in from the titlebar's right
    // edge, vertically centered: at (137, 6), sized 8 by 8.
    assert_eq!(w.close_btn.position(), Vec2 { x: 137, y: 6 });
    assert_eq!(w.close_btn.size(), Vec2 { x: 8, y: 8 });

    w.process_events(&ctx, &move_to(140, 10));
    assert!(w.visible());
    w.process_events(&ctx, &left(ElementState::Pressed));
    assert!(!w.visible());

    // Hidden: events no longer reach it — the captured drag offset does
    // not act — and it draws nothing.
    w.process_events(&ctx, &move_to(20, 5));
    assert_eq!(w.titlebar.position, Vec2 { x: 0, y: 0 });
    let mut out = Vec::new();
    w.draw(&mut out);
    assert!(out.is_empty());
}

fn child_position(c: &ChildWidget) -> Vec2 {
    match c {
        ChildWidget::Button(b) => b.position,
        ChildWidget::Window(w) => w.titlebar.position,
    }
}

#[test]
fn layout_stacks_children_into_uniform_slots() {
    let ctx = Context::new(800, 600);
    let mut l = Layout::new(Direction::Vertical);
    l.set_position(&ctx, Vec2 { x: 100, y: 100 });
    l.set_spacing(&ctx, 20);

    let m1 = single_glyph_measure("A", 100, 50);
    let m2 = single_glyph_measure("B", 60, 30);
    l.add_widget(&ctx, ChildWidget::Button(Button::new(&ctx, "A", m1, 30)));
    l.add_widget(&ctx, ChildWidget::Button(Button::new(&ctx, "B", m2, 30)));

    // The cell is the largest child (100 by 50); each child sits at
    // position + (spacing, i * (cell height + spacing)).
    assert_eq!(child_position(&l.widgets[0].1), Vec2 { x: 120, y: 100 });
    assert_eq!(child_position(&l.widgets[1].1), Vec2 { x: 120, y: 170 });
}

#[test]
fn layout_fit_checks_guard_relayout() {
    let ctx = Context::new(800, 600);
    let mut l = Layout::new(Direction::Vertical);
    l.set_position(&ctx, Vec2 { x: 100, y: 100 });
    let m = single_glyph_measure("A", 100, 50);
    let child = ChildWidget::Button(Button::new(&ctx, "A", m, 30));
    // The candidate fits before it is added, and the layout still fits
    // afterward.
    assert!(l.slots_would_fit_with(&child));
    l.add_widget(&ctx, child);
    assert!(l.slots_would_fit(Direction::Vertical, Vec2 { x: 100, y: 100 }, 20));
    // A position at the very edge of the widget range leaves no room for
    // the spacing offset: the check refuses it.
    assert!(!l.slots_would_fit(
        Direction::Vertical,
        Vec2 { x: wgpu_ui::math::WIDGET_POS_LIMIT, y: 0 },
        20
    ));
}

#[test]
fn layout_update_is_idempotent() {
    let ctx = Context::new(800, 600);
    let mut l = Layout::new(Direction::Horizontal);
    l.set_position(&ctx, Vec2 { x: 10, y: 10 });
    let m1 = single_glyph_measure("A", 100, 50);
    let m2 = single_glyph_measure("B", 60, 30);
    l.add_widget(&ctx, ChildWidget::Button(Button::new(&ctx, "A", m1, 30)));
    l.add_widget(&ctx, ChildWidget::Button(Button::new(&ctx, "B", m2, 30)));

    let first: Vec<Vec2> = l.widgets.iter().map(|w| child_position(&w.1)).collect();
    // With fixed children sizes, relaying out moves nothing, however
    // often it runs.
    l.update(&ctx);
    l.update(&ctx);
    let third: Vec<Vec2> = l.widgets.iter().map(|w| child_position(&w.1)).collect();
    assert_eq!(first, third);
    // Default spacing 3; cell width 100: slots at x = 10 + i * 103.
    assert_eq!(first, vec![Vec2 { x: 10, y: 13 }, Vec2 { x: 113, y: 13 }]);
}

#[test]
fn ui_registers_fans_out_and_draws_in_order() {
    let ctx = Context::new(800, 600);
    let mut ui = Ui::new();
    let m = single_glyph_measure("A", 100, 50);
    let button_id = ui.add(Widget::Button(Button::new(&ctx, "A", m, 30)));
    let window_id = ui.add(Widget::Window(test_window(&ctx)));
    assert_eq!(button_id, 1);
    assert_eq!(window_id, 2);
    assert!(ui.get(button_id).is_some());
    assert!(ui.get(3).is_none());

    // Fan-out: the move reaches both; the press clicks the button (the
    // cursor is inside it) without starting a window drag.
    ui.process_events(&ctx, &move_to(10, 10));
    ui.process_events(&ctx, &left(ElementState::Pressed));
    match ui.get(button_id).unwrap() {
        Widget::Button(b) => assert_eq!(b.rect.color, BLUE),
        _ => panic!("widget 1 is the button"),
    }

    let mut out = Vec::new();
    ui.draw(&mut out);
    // Button: rectangle + label. Window: titlebar, body, title, close
    // button rectangle + label.
    let flags: Vec<bool> = out.iter().map(|c| c.textured).collect();
    assert_eq!(flags, vec![false, true, false, false, true, false, true]);
}

#[test]
fn text_caches_glyphs_and_uploads_once() {
    let ctx = Context::new(800, 600);
    let m = single_glyph_measure("A", 100, 50);
    let mut t = Text::new(&ctx, "A", m, 30);

    // One glyph, packed once: one pending upload, six vertices.
    assert_eq!(t.pending_uploads.len(), 1);
    assert_eq!(t.pending_uploads[0].rect, wgpu_ui::math::Rect {
        x: 0,
        y: 0,
        width: 100,
        height: 50,
    });
    assert_eq!(t.vertices.len(), 6);

    let uploads = t.take_pending_uploads();
    assert_eq!(uploads.len(), 1);
    assert!(t.pending_uploads.is_empty());

    // Rebuilding with unchanged content is a pure cache hit.
    let before = t.vertices.clone();
    t.update(&ctx);
    assert!(t.pending_uploads.is_empty());
    assert_eq!(t.vertices, before);

    // Moving the text shifts geometry but uploads nothing new.
    t.set_position(&ctx, Vec2 { x: 5, y: 7 });
    assert!(t.pending_uploads.is_empty());
    assert_eq!(t.bounds.position(), Vec2 { x: 5, y: 7 });
    assert_eq!(t.vertices[1].pos_x.num, 2 * 5 - 800);
}

#[test]
fn text_vertices_cover_screen_and_atlas_rectangles() {
    let ctx = Context::new(800, 600);
    let m = single_glyph_measure("A", 100, 50);
    let t = Text::new(&ctx, "A", m, 30);
    // The glyph's screen rectangle is (0, 0)..(100, 50); its atlas
    // rectangle is (0, 0)..(100, 50) of the 512-sided texture. The first
    // vertex is the bottom-left corner.
    let v0 = t.vertices[0];
    assert_eq!((v0.pos_x.num, v0.pos_x.den), (-800, 800));
    assert_eq!((v0.pos_y.num, v0.pos_y.den), (500, 600));
    assert_eq!((v0.tex_x.num, v0.tex_x.den), (0, 512));
    assert_eq!((v0.tex_y.num, v0.tex_y.den), (50, 512));
    // The third vertex is the top-right corner.
    let v2 = t.vertices[2];
    assert_eq!((v2.pos_x.num, v2.pos_x.den), (2 * 100 - 800, 800));
    assert_eq!((v2.pos_y.num, v2.pos_y.den), (600, 600));
    assert_eq!((v2.tex_x.num, v2.tex_x.den), (100, 512));
    assert_eq!((v2.tex_y.num, v2.tex_y.den), (0, 512));
}

#[test]
fn text_size_change_invalidates_the_atlas() {
    let ctx = Context::new(800, 600);
    let m = single_glyph_measure("A", 100, 50);
    let mut t = Text::new(&ctx, "A", m, 30);
    t.take_pending_uploads();

    // A new character size makes the cached bitmaps useless: the glyph
    // is repacked and uploaded again.
    let m16 = single_glyph_measure("A", 53, 26);
    t.set_character_size(&ctx, 16, m16);
    assert_eq!(t.character_size, 16);
    assert_eq!(t.pending_uploads.len(), 1);
    assert_eq!(t.pending_uploads[0].rect.width, 53);
}
