//! The window widget: a draggable titlebar, a body, a title text and an
//! embedded close button.
//!
//! Pressing the left button inside the titlebar captures the pointer's
//! offset within it; while that capture lasts, every pointer move
//! repositions the whole window so the pointer keeps its offset — the
//! titlebar's top-left lands at `cursor - offset`. Releasing the left
//! button ends the drag. A click on the embedded close button hides the
//! window; an invisible window ignores events and draws nothing.

use vstd::prelude::*;

use crate::button::{Button, ButtonEvent};
use crate::color::{spec_blue, spec_red};
use crate::events::{ElementState, InputEvent, MouseButton, WidgetEvent};
use crate::font::TextMeasure;
use crate::graphics::shape::RectangleShape;
use crate::graphics::text::Text;
use crate::graphics::{copy_vertices, DrawCommand};
use crate::math::{
    clamp_coord, half_toward_zero, spec_clamp_coord, spec_half_toward_zero, Rect, Vec2, MAX_COORD,
    PAD_LIMIT, WIDGET_POS_LIMIT,
};
use crate::Context;

verus! {

/// The semantic events a window can report to its owner.
#[derive(Clone, Copy, Debug, PartialEq, Eq, Structural)]
pub enum WindowEvent {
    Close,
}

impl WidgetEvent for WindowEvent {

}

/// Saturate a drag target into the range window positions may take.
pub open spec fn spec_clamp_window_pos(v: int) -> int {
    if v < -WIDGET_POS_LIMIT {
        -WIDGET_POS_LIMIT as int
    } else if v > WIDGET_POS_LIMIT {
        WIDGET_POS_LIMIT as int
    } else {
        v
    }
}

fn clamp_window_pos(v: i64) -> (r: i64)
    ensures
        r == spec_clamp_window_pos(v as int),
{
    if v < -WIDGET_POS_LIMIT {
        -WIDGET_POS_LIMIT
    } else if v > WIDGET_POS_LIMIT {
        WIDGET_POS_LIMIT
    } else {
        v
    }
}

/// A queue extended by one event contains an event exactly when the queue
/// already did or the new event is it.
proof fn lemma_push_contains(s: Seq<ButtonEvent>, x: ButtonEvent, e: ButtonEvent)
    ensures
        s.push(x).contains(e) <==> (s.contains(e) || x == e),
{
    if s.contains(e) {
        let k = choose|k: int| 0 <= k < s.len() && s[k] == e;
        assert(s.push(x)[k] == e);
    }
    if x == e {
        assert(s.push(x)[s.len() as int] == e);
    }
    if s.push(x).contains(e) && x != e {
        let k = choose|k: int| 0 <= k < s.push(x).len() && s.push(x)[k] == e;
        assert(0 <= k < s.len());
        assert(s[k] == e);
    }
}

/// A draggable, closable window; see the module documentation.
pub struct Window {
    pub title: Text,
    pub titlebar: RectangleShape,
    pub body: RectangleShape,
    pub mouse_position: Vec2,
    pub click_position: Option<Vec2>,
    pub visible: bool,
    pub close_btn: Button,
    pub events: Vec<ButtonEvent>,
}

impl Window {
    pub open spec fn wf(self) -> bool {
        &&& self.titlebar.wf()
        &&& self.body.wf()
        &&& self.title.wf()
        &&& self.close_btn.wf()
        &&& -WIDGET_POS_LIMIT <= self.titlebar.position.x <= WIDGET_POS_LIMIT
        &&& -WIDGET_POS_LIMIT <= self.titlebar.position.y <= WIDGET_POS_LIMIT
        &&& self.titlebar.size.x <= PAD_LIMIT
        &&& self.titlebar.size.y <= PAD_LIMIT
        &&& self.body.size.x <= PAD_LIMIT
        &&& self.body.size.y <= PAD_LIMIT
        &&& self.mouse_position.in_range()
        &&& match self.click_position {
            Some(cp) => {
                &&& -(MAX_COORD + WIDGET_POS_LIMIT) <= cp.x <= MAX_COORD + WIDGET_POS_LIMIT
                &&& -(MAX_COORD + WIDGET_POS_LIMIT) <= cp.y <= MAX_COORD + WIDGET_POS_LIMIT
            },
            None => true,
        }
    }

    /// The titlebar's bounds: what a drag press is tested against.
    pub open spec fn spec_titlebar_bounds(self) -> Rect {
        Rect {
            x: self.titlebar.position.x,
            y: self.titlebar.position.y,
            width: self.titlebar.size.x,
            height: self.titlebar.size.y,
        }
    }

    /// Whether this event makes the embedded close button report a click:
    /// either a left press inside the button, or a click still queued from
    /// an earlier event.
    pub open spec fn spec_close_clicked(self, event: InputEvent) -> bool {
        ||| self.close_btn.events@.contains(ButtonEvent::Click)
        ||| {
            &&& self.close_btn.visible
            &&& event matches InputEvent::MouseInput {
                state: ElementState::Pressed,
                button: MouseButton::Left,
            }
            &&& self.close_btn.spec_bounds().spec_contains(self.close_btn.mouse_position)
        }
    }

    /// A window at the origin: a blue 150 by 20 titlebar, a red 150 by 150
    /// body below it, the title text and a close button inside the
    /// titlebar.
    pub fn new(ctx: &Context, title: &str, title_measure: TextMeasure, close_measure:
        TextMeasure) -> (w: Window)
        requires
            ctx.wf(),
            title_measure.wf(),
            title_measure.measures(title@),
            close_measure.wf(),
            close_measure.measures("x"@),
        ensures
            w.wf(),
            w.visible,
            w.click_position is None,
            w.mouse_position == (Vec2 { x: 0, y: 0 }),
            w.events@.len() == 0,
            w.titlebar.position == (Vec2 { x: 0, y: 0 }),
            w.titlebar.size == (Vec2 { x: 150, y: 20 }),
            w.titlebar.color == spec_blue(),
            w.body.size == (Vec2 { x: 150, y: 150 }),
            w.body.color == spec_red(),
            w.body.position == (Vec2 { x: 0, y: 20 }),
            w.title.text@ == title@,
            w.title.character_size == 16,
            w.close_btn.label.text@ == "x"@,
            w.close_btn.label.character_size == 16,
            w.close_btn.events@.len() == 0,
            w.close_btn.mouse_position == (Vec2 { x: 0, y: 0 }),
            w.close_btn.visible,
            w.close_btn.paddings == (crate::button::Paddings {
                left: 0,
                top: 0,
                bottom: 0,
                right: 0,
            }),
            w.close_btn.position.x == 150 - w.close_btn.rect.size.x - 5,
            w.close_btn.position.y == spec_half_toward_zero(20 - w.close_btn.rect.size.y),
            w.title.position.x == 5,
            w.title.position.y == spec_half_toward_zero(20 - w.title.bounds.height),
    {
        let mut titlebar = RectangleShape::new(ctx, Vec2 { x: 150, y: 20 });
        titlebar.set_fill_color(ctx, crate::color::blue());

        let mut body = RectangleShape::new(ctx, Vec2 { x: 150, y: 150 });
        body.set_fill_color(ctx, crate::color::red());
        body.set_position(ctx, Vec2 { x: 0, y: titlebar.bounds().height });

        let close_btn = Button::new(ctx, "x", close_measure, 16);
        let title = Text::new(ctx, title, title_measure, 16);

        let mut window = Window {
            titlebar,
            body,
            title,
            mouse_position: Vec2 { x: 0, y: 0 },
            click_position: None,
            visible: true,
            close_btn,
            events: Vec::new(),
        };
        window.set_position(ctx, Vec2 { x: 0, y: 0 });
        window
    }

    /// What moving the whole window to `position` does: the titlebar
    /// there, the title inset five pixels and vertically centered in it,
    /// the close button five pixels in from its right edge and vertically
    /// centered, the body directly below, all quads resynchronized, and
    /// everything else untouched.
    pub open spec fn spec_moved_rel(pre: Window, post: Window, ctx: Context, position: Vec2)
        -> bool {
        &&& post.titlebar.position == position
        &&& post.titlebar.size == pre.titlebar.size
        &&& post.titlebar.color == pre.titlebar.color
        &&& post.title.position.x == position.x + 5
        &&& post.title.position.y == position.y + spec_half_toward_zero(
            pre.titlebar.size.y - pre.title.bounds.height,
        )
        &&& post.close_btn.position.x == position.x + pre.titlebar.size.x
            - pre.close_btn.rect.size.x - 5
        &&& post.close_btn.position.y == position.y + spec_half_toward_zero(
            pre.titlebar.size.y - pre.close_btn.rect.size.y,
        )
        &&& post.body.position == (Vec2 {
            x: position.x,
            y: (position.y + pre.titlebar.size.y) as i64,
        })
        &&& post.body.size == pre.body.size
        &&& post.body.color == pre.body.color
        &&& post.titlebar.synced(ctx)
        &&& post.body.synced(ctx)
        &&& post.close_btn.rect.synced(ctx)
        &&& post.mouse_position == pre.mouse_position
        &&& post.click_position == pre.click_position
        &&& post.visible == pre.visible
        &&& post.events == pre.events
        &&& post.close_btn.events == pre.close_btn.events
        &&& post.close_btn.mouse_position == pre.close_btn.mouse_position
        &&& post.close_btn.visible == pre.close_btn.visible
        &&& post.close_btn.paddings == pre.close_btn.paddings
        &&& post.close_btn.label.synced(ctx)
        &&& post.close_btn.label.measure == pre.close_btn.label.measure
        &&& post.close_btn.rect.size.x == post.close_btn.label.bounds.width
            + pre.close_btn.paddings.left + pre.close_btn.paddings.right
        &&& post.close_btn.rect.size.y == post.close_btn.label.bounds.height
            + pre.close_btn.paddings.top + pre.close_btn.paddings.bottom
        &&& post.title.text == pre.title.text
        &&& post.title.character_size == pre.title.character_size
        &&& post.title.synced(ctx)
        &&& post.title.measure == pre.title.measure
        &&& post.close_btn.label.text == pre.close_btn.label.text
        &&& post.close_btn.label.character_size == pre.close_btn.label.character_size
    }

    /// Move the whole window: the titlebar to `position`, the title inset
    /// five pixels and vertically centered in the titlebar, the close
    /// button five pixels in from the titlebar's right edge and vertically
    /// centered, and the body directly below the titlebar.
    pub fn set_position(&mut self, ctx: &Context, position: Vec2)
        requires
            ctx.wf(),
            old(self).wf(),
            -WIDGET_POS_LIMIT <= position.x <= WIDGET_POS_LIMIT,
            -WIDGET_POS_LIMIT <= position.y <= WIDGET_POS_LIMIT,
        ensures
            final(self).wf(),
            Window::spec_moved_rel(*old(self), *final(self), *ctx, position),
    {
        self.titlebar.set_position(ctx, position);

        let titlebar_bounds = self.titlebar.bounds();
        let title_bounds = self.title.bounds();
        self.title.set_position(
            ctx,
            Vec2 {
                x: position.x + 5,
                y: position.y + half_toward_zero(titlebar_bounds.height - title_bounds.height),
            },
        );

        let close_btn_size = self.close_btn.size();
        self.close_btn.set_position(
            ctx,
            Vec2 {
                x: position.x + titlebar_bounds.width - close_btn_size.x - 5,
                y: position.y + half_toward_zero(titlebar_bounds.height - close_btn_size.y),
            },
        );

        self.body.set_position(
            ctx,
            Vec2 { x: position.x, y: position.y + titlebar_bounds.height },
        );
    }

    /// The window's position, reported from the title text rather than
    /// the titlebar: the two differ by the title's fixed inset.
    pub fn position(&self) -> (p: Vec2)
        ensures
            p == self.title.position,
    {
        self.title.position()
    }

    /// What one input event does to a window: the close forwarding and the
    /// drag state machine, relating the state before (`pre`) to the state
    /// after (`post`).
    pub open spec fn spec_event_transition(pre: Window, post: Window, ctx: Context, event:
        InputEvent) -> bool {
        &&& !pre.visible ==> post == pre
        &&& pre.visible ==> {
            &&& post.visible == !pre.spec_close_clicked(event)
            &&& post.close_btn.events@.len() == 0
            &&& post.events == pre.events
            &&& post.titlebar.size == pre.titlebar.size
            &&& post.body.size == pre.body.size
            &&& match event {
                InputEvent::CursorMoved { x, y } => {
                    let mx = spec_clamp_coord(x as int);
                    let my = spec_clamp_coord(y as int);
                    &&& post.mouse_position == (Vec2 { x: mx as i64, y: my as i64 })
                    // The embedded close button hit-tests against the raw
                    // cursor it saw itself (an invisible one sees nothing).
                    &&& pre.close_btn.visible ==> post.close_btn.mouse_position == (Vec2 { x, y })
                    &&& post.click_position == pre.click_position
                    &&& match pre.click_position {
                        Some(cp) => {
                            let target = Vec2 {
                                x: spec_clamp_window_pos(mx - cp.x) as i64,
                                y: spec_clamp_window_pos(my - cp.y) as i64,
                            };
                            &&& post.titlebar.position == target
                            &&& post.body.position == (Vec2 {
                                x: target.x,
                                y: (target.y + pre.titlebar.size.y) as i64,
                            })
                            // Dragging eagerly resynchronizes the quads at
                            // the new place.
                            &&& post.titlebar.synced(ctx)
                            &&& post.body.synced(ctx)
                            &&& post.close_btn.rect.synced(ctx)
                        },
                        None => {
                            &&& post.titlebar.position == pre.titlebar.position
                            &&& post.body.position == pre.body.position
                        },
                    }
                },
                InputEvent::MouseInput { state, button } => {
                    &&& post.mouse_position == pre.mouse_position
                    &&& post.close_btn.mouse_position == pre.close_btn.mouse_position
                    &&& post.titlebar.position == pre.titlebar.position
                    &&& post.click_position == (
                    if button == MouseButton::Left && state == ElementState::Pressed {
                        if pre.spec_titlebar_bounds().spec_contains(pre.mouse_position) {
                            Some(
                                Vec2 {
                                    x: (pre.mouse_position.x - pre.titlebar.position.x) as i64,
                                    y: (pre.mouse_position.y - pre.titlebar.position.y) as i64,
                                },
                            )
                        } else {
                            pre.click_position
                        }
                    } else if button == MouseButton::Left {
                        None
                    } else {
                        pre.click_position
                    })
                },
            }
        }
    }

    /// The draw commands a window emits: titlebar, body, title, then the
    /// close button's; an invisible window emits nothing.
    pub open spec fn spec_draw(self) -> Seq<(bool, Seq<crate::graphics::Vertex>)> {
        if !self.visible {
            Seq::empty()
        } else {
            seq![
                (false, self.titlebar.vertices@),
                (false, self.body.vertices@),
                (true, self.title.vertices@),
            ] + self.close_btn.spec_draw()
        }
    }

    /// Feed one input event through the window.
    ///
    /// The event first goes to the embedded close button, whose queue is
    /// then drained: if it reports a click, the window hides. A left press
    /// inside the titlebar captures the drag offset; a pointer move while
    /// captured repositions the window to `cursor - offset` (saturated at
    /// the position limits); a left release ends the drag.
    pub fn process_events(&mut self, ctx: &Context, event: &InputEvent)
        requires
            ctx.wf(),
            old(self).wf(),
        ensures
            final(self).wf(),
            Window::spec_event_transition(*old(self), *final(self), *ctx, *event),
    {
        // Prevent events handling if widget is not displayed
        if !self.visible {
            return ;
        }

        self.close_btn.process_events(ctx, event);

        proof {
            lemma_push_contains(
                old(self).close_btn.events@,
                ButtonEvent::Click,
                ButtonEvent::Click,
            );
            lemma_push_contains(
                old(self).close_btn.events@,
                ButtonEvent::Hover,
                ButtonEvent::Click,
            );
        }
        if self.close_btn.emitted(ButtonEvent::Click) {
            self.set_visibility(false);
        }

        match *event {
            InputEvent::MouseInput { state, button: MouseButton::Left } => {
                match state {
                    ElementState::Pressed => {
                        let titlebar_bounds = self.titlebar.bounds();
                        // A press inside the titlebar captures the
                        // pointer's offset within it.
                        if titlebar_bounds.contains(self.mouse_position) {
                            self.click_position = Some(
                                Vec2 {
                                    x: self.mouse_position.x - titlebar_bounds.x,
                                    y: self.mouse_position.y - titlebar_bounds.y,
                                },
                            );
                        }
                    },
                    ElementState::Released => {
                        self.click_position = None;
                    },
                }
            },
            InputEvent::CursorMoved { x, y } => {
                self.mouse_position = Vec2 { x: clamp_coord(x), y: clamp_coord(y) };

                if let Some(click_position) = self.click_position {
                    let target = Vec2 {
                        x: clamp_window_pos(self.mouse_position.x - click_position.x),
                        y: clamp_window_pos(self.mouse_position.y - click_position.y),
                    };
                    self.set_position(ctx, target);
                }
            },
            _ => {},
        }
    }

    /// Drain the window's own event queue and hand it to the caller.
    pub fn events(&mut self) -> (e: Vec<ButtonEvent>)
        ensures
            e@ == old(self).events@,
            final(self).events@.len() == 0,
            *final(self) == (Window { events: final(self).events, ..*old(self) }),
    {
        let mut e: Vec<ButtonEvent> = Vec::new();
        core::mem::swap(&mut e, &mut self.events);
        e
    }

    /// Drain the whole event queue, reporting whether any drained event is
    /// the asked-for one.
    pub fn emitted(&mut self, event: ButtonEvent) -> (r: bool)
        ensures
            r == old(self).events@.contains(event),
            final(self).events@.len() == 0,
            *final(self) == (Window { events: final(self).events, ..*old(self) }),
    {
        let n = self.events.len();
        let mut found = false;
        let mut i: usize = 0;
        while i < n
            invariant
                n == self.events@.len(),
                i <= n,
                found == self.events@.take(i as int).contains(event),
            decreases n - i,
        {
            if self.events[i] == event {
                found = true;
            }
            proof {
                assert(self.events@.take(i + 1).drop_last() =~= self.events@.take(i as int));
                assert(self.events@.take(i + 1).last() == self.events@[i as int]);
                if self.events@.take(i as int).contains(event) {
                    let w = choose|k: int|
                        0 <= k < i && self.events@.take(i as int)[k] == event;
                    assert(self.events@.take(i + 1)[w] == event);
                }
            }
            i = i + 1;
        }
        proof {
            assert(self.events@.take(n as int) =~= self.events@);
        }
        self.events = Vec::new();
        found
    }

    pub fn set_visibility(&mut self, visible: bool)
        ensures
            final(self).visible == visible,
            *final(self) == (Window { visible, ..*old(self) }),
    {
        self.visible = visible;
    }

    pub fn visible(&self) -> (v: bool)
        ensures
            v == self.visible,
    {
        self.visible
    }

    /// The window's size: as wide as the titlebar, as tall as the titlebar
    /// and body stacked.
    pub fn size(&self) -> (s: Vec2)
        requires
            self.wf(),
        ensures
            s.x == self.titlebar.size.x,
            s.y == self.titlebar.size.y + self.body.size.y,
    {
        Vec2 { x: self.titlebar.size.x, y: self.titlebar.size.y + self.body.size.y }
    }

    /// Emit the window's draw calls in paint order: titlebar, body, title,
    /// then the close button. An invisible window emits nothing.
    pub fn draw(&self, out: &mut Vec<DrawCommand>)
        ensures
            crate::graphics::draw_models(final(out)@) == crate::graphics::draw_models(old(out)@)
                + self.spec_draw(),
    {
        if !self.visible {
            proof {
                assert(crate::graphics::draw_models(out@) =~= crate::graphics::draw_models(out@)
                    + self.spec_draw());
            }
            return ;
        }
        out.push(
            DrawCommand { textured: false, vertices: copy_vertices(self.titlebar.vertices()) },
        );
        out.push(DrawCommand { textured: false, vertices: copy_vertices(self.body.vertices()) });
        out.push(DrawCommand { textured: true, vertices: copy_vertices(self.title.vertices()) });
        let ghost mid = out@;
        proof {
            assert(crate::graphics::draw_models(mid) =~= crate::graphics::draw_models(old(out)@)
                + seq![
                (false, self.titlebar.vertices@),
                (false, self.body.vertices@),
                (true, self.title.vertices@),
            ]);
        }
        self.close_btn.draw(out);
        proof {
            assert(crate::graphics::draw_models(out@) =~= crate::graphics::draw_models(old(out)@)
                + self.spec_draw());
        }
    }
}

} // verus!
