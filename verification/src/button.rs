//! The button widget: a colored rectangle behind a centered text label,
//! driven by a pointer state machine.
//!
//! Pointer moves recolor the rectangle by bounds containment — green inside
//! (emitting a hover event), red outside. A left press inside the bounds
//! recolors it blue and emits exactly one click event; a left release
//! inside recolors it back to the resting red. Events that do not concern
//! the button leave it untouched.

use vstd::prelude::*;

use crate::color::{spec_blue, spec_green, spec_red, Color};
use crate::events::{ElementState, InputEvent, MouseButton, WidgetEvent};
use crate::font::TextMeasure;
use crate::graphics::shape::RectangleShape;
use crate::graphics::text::Text;
use crate::graphics::{copy_vertices, DrawCommand};
use crate::math::{Rect, Vec2, INNER_POS_LIMIT, PAD_LIMIT};
use crate::Context;

verus! {

/// The semantic events a button emits.
#[derive(Clone, Copy, Debug, PartialEq, Eq, Structural)]
pub enum ButtonEvent {
    Click,
    Hover,
}

impl WidgetEvent for ButtonEvent {

}

/// Padding between the label's bounds and the button's rectangle, per edge.
#[derive(Clone, Copy, Debug, PartialEq, Eq, Structural)]
pub struct Paddings {
    pub left: i64,
    pub top: i64,
    pub bottom: i64,
    pub right: i64,
}

impl Paddings {
    pub open spec fn wf(self) -> bool {
        &&& 0 <= self.left <= PAD_LIMIT
        &&& 0 <= self.top <= PAD_LIMIT
        &&& 0 <= self.bottom <= PAD_LIMIT
        &&& 0 <= self.right <= PAD_LIMIT
    }
}

/// An interactive button; see the module documentation.
pub struct Button {
    pub rect: RectangleShape,
    pub label: Text,
    pub position: Vec2,
    pub mouse_position: Vec2,
    pub paddings: Paddings,
    pub visible: bool,
    pub events: Vec<ButtonEvent>,
}

impl Button {
    pub open spec fn wf(self) -> bool {
        &&& self.rect.wf()
        &&& self.label.wf()
        &&& self.rect.position == self.position
        &&& -INNER_POS_LIMIT <= self.position.x <= INNER_POS_LIMIT
        &&& -INNER_POS_LIMIT <= self.position.y <= INNER_POS_LIMIT
        &&& self.paddings.wf()
        &&& self.rect.size.x <= crate::text_layout::LAYOUT_EXTENT_LIMIT + 2 * PAD_LIMIT
        &&& self.rect.size.y <= crate::text_layout::LAYOUT_EXTENT_LIMIT + 2 * PAD_LIMIT
    }

    /// The bounds the button hit-tests against: its rectangle's bounds.
    pub open spec fn spec_bounds(self) -> Rect {
        Rect {
            x: self.rect.position.x,
            y: self.rect.position.y,
            width: self.rect.size.x,
            height: self.rect.size.y,
        }
    }

    /// The size the button's rectangle takes on `update`: the label's
    /// bounds grown by the paddings.
    pub open spec fn spec_padded_size(self) -> Vec2 {
        Vec2 {
            x: (self.label.bounds.width + self.paddings.left + self.paddings.right) as i64,
            y: (self.label.bounds.height + self.paddings.top + self.paddings.bottom) as i64,
        }
    }

    /// A button at the origin labeled `text`, its rectangle exactly the
    /// label's bounds, still in the fresh shape's white — the state machine
    /// recolors it on the first pointer event — no paddings, queue empty.
    pub fn new(ctx: &Context, text: &str, measure: TextMeasure, character_size: u32) -> (b: Button)
        requires
            ctx.wf(),
            measure.wf(),
            measure.measures(text@),
        ensures
            b.wf(),
            b.position == (Vec2 { x: 0, y: 0 }),
            b.label.text@ == text@,
            b.label.character_size == character_size,
            b.rect.size.x == b.label.bounds.width,
            b.rect.size.y == b.label.bounds.height,
            b.rect.color == crate::color::spec_white(),
            b.rect.synced(*ctx),
            b.label.synced(*ctx),
            b.paddings == (Paddings { left: 0, top: 0, bottom: 0, right: 0 }),
            b.mouse_position == (Vec2 { x: 0, y: 0 }),
            b.visible,
            b.events@.len() == 0,
    {
        let label = Text::new(ctx, text, measure, character_size);
        let label_bounds = label.bounds();
        let rect = RectangleShape::new(
            ctx,
            Vec2 { x: label_bounds.width, y: label_bounds.height },
        );
        Button {
            rect,
            label,
            position: Vec2 { x: 0, y: 0 },
            mouse_position: Vec2 { x: 0, y: 0 },
            paddings: Paddings { left: 0, top: 0, bottom: 0, right: 0 },
            visible: true,
            events: Vec::new(),
        }
    }

    /// Re-measure the label at a new character size.
    pub fn set_character_size(&mut self, ctx: &Context, character_size: u32, measure: TextMeasure)
        requires
            ctx.wf(),
            old(self).wf(),
            measure.wf(),
            measure.measures(old(self).label.text@),
        ensures
            final(self).wf(),
            final(self).label.character_size == character_size,
            final(self).label.text == old(self).label.text,
            final(self).label.measure == measure,
            final(self).label.synced(*ctx),
            final(self).position == old(self).position,
            final(self).paddings == old(self).paddings,
            final(self).events == old(self).events,
            final(self).rect == old(self).rect,
            final(self).mouse_position == old(self).mouse_position,
            final(self).visible == old(self).visible,
    {
        self.label.set_character_size(ctx, character_size, measure);
    }

    /// Change the paddings and immediately reconcile the derived geometry.
    pub fn set_paddings(&mut self, ctx: &Context, paddings: Paddings)
        requires
            ctx.wf(),
            old(self).wf(),
            paddings.wf(),
        ensures
            final(self).wf(),
            final(self).paddings == paddings,
            final(self).position == old(self).position,
            final(self).rect.size.x == old(self).label.bounds.width + paddings.left
                + paddings.right,
            final(self).rect.size.y == old(self).label.bounds.height + paddings.top
                + paddings.bottom,
            final(self).events == old(self).events,
    {
        self.paddings = paddings;
        self.update(ctx);
    }

    /// The button's size: its rectangle's size.
    pub fn size(&self) -> (s: Vec2)
        ensures
            s == self.rect.size,
    {
        self.rect.size()
    }

    /// The button's position.
    pub fn position(&self) -> (p: Vec2)
        ensures
            p == self.rect.position,
    {
        self.rect.position()
    }

    /// What moving the button to `position` does, derived geometry fully
    /// reconciled: the rectangle and label move along, the rectangle is
    /// sized to the label's bounds plus the paddings, the label is
    /// centered, both quads are resynchronized, and everything else is
    /// untouched.
    pub open spec fn spec_moved_rel(pre: Button, post: Button, ctx: Context, position: Vec2)
        -> bool {
        &&& post.position == position
        &&& post.rect.position == position
        &&& post.paddings == pre.paddings
        &&& post.rect.size.x == post.label.bounds.width + pre.paddings.left + pre.paddings.right
        &&& post.rect.size.y == post.label.bounds.height + pre.paddings.top + pre.paddings.bottom
        &&& post.rect.synced(ctx)
        &&& post.label.synced(ctx)
        &&& post.events == pre.events
        &&& post.mouse_position == pre.mouse_position
        &&& post.visible == pre.visible
        &&& post.rect.color == pre.rect.color
        &&& post.label.text == pre.label.text
        &&& post.label.character_size == pre.label.character_size
        &&& post.label.measure == pre.label.measure
        &&& post.label.position.x == position.x + (pre.paddings.left + pre.paddings.right) / 2
        &&& post.label.position.y == position.y + (pre.paddings.top + pre.paddings.bottom) / 2
    }

    /// What one reconcile (`update`) does: the rectangle takes the padded
    /// label size, the label is recentered, both quads resynchronized,
    /// nothing else moves.
    pub open spec fn spec_update_rel(pre: Button, post: Button, ctx: Context) -> bool {
        &&& post.position == pre.position
        &&& post.paddings == pre.paddings
        &&& post.mouse_position == pre.mouse_position
        &&& post.events == pre.events
        &&& post.visible == pre.visible
        &&& post.rect.size == pre.spec_padded_size()
        &&& post.rect.position == pre.rect.position
        &&& post.rect.color == pre.rect.color
        &&& post.rect.synced(ctx)
        &&& post.label.synced(ctx)
        &&& post.label.measure == pre.label.measure
        &&& post.label.text == pre.label.text
        &&& post.label.character_size == pre.label.character_size
        &&& post.label.position.x == pre.position.x + (pre.paddings.left + pre.paddings.right)
            / 2
        &&& post.label.position.y == pre.position.y + (pre.paddings.top + pre.paddings.bottom)
            / 2
    }

    /// Move the button, moving its label and rectangle with it and
    /// reconciling the derived geometry.
    pub fn set_position(&mut self, ctx: &Context, position: Vec2)
        requires
            ctx.wf(),
            old(self).wf(),
            -INNER_POS_LIMIT <= position.x <= INNER_POS_LIMIT,
            -INNER_POS_LIMIT <= position.y <= INNER_POS_LIMIT,
        ensures
            final(self).wf(),
            Button::spec_moved_rel(*old(self), *final(self), *ctx, position),
    {
        self.position = position;
        self.label.set_position(ctx, position);
        self.rect.set_position(ctx, position);
        self.update(ctx);
    }

    /// Reconcile derived geometry: size the rectangle to the label's
    /// bounds plus the paddings, and center the label inside it. Call once
    /// per frame, and again after any position or padding mutation.
    pub fn update(&mut self, ctx: &Context)
        requires
            ctx.wf(),
            old(self).wf(),
        ensures
            final(self).wf(),
            Button::spec_update_rel(*old(self), *final(self), *ctx),
    {
        let label_bounds = self.label.bounds();
        let size = Vec2 {
            x: label_bounds.width + self.paddings.left + self.paddings.right,
            y: label_bounds.height + self.paddings.top + self.paddings.bottom,
        };
        self.rect.set_size(ctx, size);

        let label_position = Vec2 {
            x: self.position.x + (size.x - label_bounds.width) / 2,
            y: self.position.y + (size.y - label_bounds.height) / 2,
        };
        self.label.set_position(ctx, label_position);
    }

    /// What one input event does to a button: the full state machine,
    /// relating the state before (`pre`) to the state after (`post`).
    pub open spec fn spec_event_transition(pre: Button, post: Button, ctx: Context, event:
        InputEvent) -> bool {
        &&& post.position == pre.position
        &&& post.paddings == pre.paddings
        &&& post.visible == pre.visible
        &&& post.label == pre.label
        &&& post.rect.position == pre.rect.position
        &&& post.rect.size == pre.rect.size
        &&& !pre.visible ==> post == pre
        &&& pre.visible ==> match event {
            InputEvent::CursorMoved { x, y } => {
                let p = Vec2 { x, y };
                let inside = pre.spec_bounds().spec_contains(p);
                &&& post.mouse_position == p
                &&& post.rect.color == (if inside {
                    spec_green()
                } else {
                    spec_red()
                })
                &&& post.rect.synced(ctx)
                &&& post.events@ == (if inside {
                    pre.events@.push(ButtonEvent::Hover)
                } else {
                    pre.events@
                })
            },
            InputEvent::MouseInput { state, button } => {
                let inside = pre.spec_bounds().spec_contains(pre.mouse_position);
                &&& post.mouse_position == pre.mouse_position
                &&& (button == MouseButton::Left && state == ElementState::Pressed && inside)
                    ==> {
                    &&& post.events@ == pre.events@.push(ButtonEvent::Click)
                    &&& post.rect.color == spec_blue()
                    &&& post.rect.synced(ctx)
                }
                &&& (button == MouseButton::Left && state == ElementState::Released && inside)
                    ==> {
                    &&& post.events@ == pre.events@
                    &&& post.rect.color == spec_red()
                    &&& post.rect.synced(ctx)
                }
                &&& (button != MouseButton::Left || !inside) ==> post == pre
            },
        }
    }

    /// The draw commands a button emits: its rectangle, then its label; an
    /// invisible button emits nothing.
    pub open spec fn spec_draw(self) -> Seq<(bool, Seq<crate::graphics::Vertex>)> {
        if !self.visible {
            Seq::empty()
        } else {
            seq![(false, self.rect.vertices@), (true, self.label.vertices@)]
        }
    }

    /// A reconcile after a move changes nothing the move had not already
    /// settled: moved-and-reconciled composed with another reconcile is
    /// still moved-and-reconciled.
    pub proof fn lemma_moved_then_updated(
        pre: Button,
        mid: Button,
        post: Button,
        ctx: Context,
        position: Vec2,
    )
        requires
            Button::spec_moved_rel(pre, mid, ctx, position),
            Button::spec_update_rel(mid, post, ctx),
        ensures
            Button::spec_moved_rel(pre, post, ctx, position),
    {
        // Both label states are synchronized against the same render
        // target with the same measure, so their layout bounds agree.
        assert(post.label.bounds.width == mid.label.bounds.width);
        assert(post.label.bounds.height == mid.label.bounds.height);
    }

    /// Feed one input event through the button's state machine.
    pub fn process_events(&mut self, ctx: &Context, event: &InputEvent)
        requires
            ctx.wf(),
            old(self).wf(),
        ensures
            final(self).wf(),
            Button::spec_event_transition(*old(self), *final(self), *ctx, *event),
    {
        if !self.visible {
            return ;
        }
        let bounds = self.rect.bounds();
        match *event {
            InputEvent::CursorMoved { x, y } => {
                self.mouse_position = Vec2 { x, y };
                if bounds.contains(self.mouse_position) {
                    self.rect.set_fill_color(ctx, crate::color::green());
                    self.events.push(ButtonEvent::Hover);
                } else {
                    self.rect.set_fill_color(ctx, crate::color::red());
                }
            },
            InputEvent::MouseInput { state, button: MouseButton::Left } => {
                if bounds.contains(self.mouse_position) {
                    match state {
                        ElementState::Pressed => {
                            self.events.push(ButtonEvent::Click);
                            self.rect.set_fill_color(ctx, crate::color::blue());
                        },
                        ElementState::Released => {
                            self.rect.set_fill_color(ctx, crate::color::red());
                        },
                    }
                }
            },
            _ => {},
        }
    }

    /// Drain the whole event queue, reporting whether any drained event is
    /// the asked-for one. Inspect all event kinds of interest in one frame
    /// before calling this: the queue is empty afterward.
    pub fn emitted(&mut self, event: ButtonEvent) -> (r: bool)
        ensures
            r == old(self).events@.contains(event),
            final(self).events@.len() == 0,
            *final(self) == (Button { events: final(self).events, ..*old(self) }),
    {
        let n = self.events.len();
        let mut found = false;
        let mut i: usize = 0;
        while i < n
            invariant
                n == self.events@.len(),
                i <= n,
                found == self.events@.take(i as int).contains(event),
            decreases n - i,
        {
            if self.events[i] == event {
                found = true;
            }
            proof {
                assert(self.events@.take(i + 1).drop_last() =~= self.events@.take(i as int));
                assert(self.events@.take(i + 1).last() == self.events@[i as int]);
                if self.events@.take(i as int).contains(event) {
                    let w = choose|k: int|
                        0 <= k < i && self.events@.take(i as int)[k] == event;
                    assert(self.events@.take(i + 1)[w] == event);
                }
            }
            i = i + 1;
        }
        proof {
            assert(self.events@.take(n as int) =~= self.events@);
        }
        self.events = Vec::new();
        found
    }

    /// Whether the button is visible; an invisible button processes no
    /// events and draws nothing.
    pub fn visible(&self) -> (v: bool)
        ensures
            v == self.visible,
    {
        self.visible
    }

    pub fn set_visibility(&mut self, visible: bool)
        ensures
            final(self).visible == visible,
            *final(self) == (Button { visible, ..*old(self) }),
    {
        self.visible = visible;
    }

    /// Emit the button's draw calls in paint order: the rectangle, then the
    /// label on top of it. An invisible button emits nothing.
    pub fn draw(&self, out: &mut Vec<DrawCommand>)
        ensures
            crate::graphics::draw_models(final(out)@) == crate::graphics::draw_models(old(out)@)
                + self.spec_draw(),
    {
        if !self.visible {
            proof {
                assert(crate::graphics::draw_models(out@) =~= crate::graphics::draw_models(out@)
                    + self.spec_draw());
            }
            return ;
        }
        out.push(DrawCommand { textured: false, vertices: copy_vertices(self.rect.vertices()) });
        out.push(DrawCommand { textured: true, vertices: copy_vertices(self.label.vertices()) });
        proof {
            assert(crate::graphics::draw_models(out@) =~= crate::graphics::draw_models(old(out)@)
                + self.spec_draw());
        }
    }
}

} // verus!
