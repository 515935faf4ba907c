//! The top-level widget registry.
//!
//! A `Ui` owns the top-level widgets, keyed by a monotonically increasing
//! identifier. It does no hit-testing of its own: every input event is
//! fanned out to every widget unconditionally, and each widget decides
//! from its own bounds whether the event concerns it. Draw calls are
//! collected from every widget in insertion order.

use vstd::prelude::*;

use crate::button::Button;
use crate::events::InputEvent;
use crate::graphics::{draw_models, DrawCommand, Vertex};
use crate::layout::Layout;
use crate::window::Window;
use crate::Context;

verus! {

/// The identifier a `Ui` hands out for an added widget.
pub type WidgetId = u16;

/// A top-level widget.
pub enum Widget {
    Button(Button),
    Window(Window),
    Layout(Layout),
}

impl Widget {
    pub open spec fn wf(self) -> bool {
        match self {
            Widget::Button(b) => b.wf(),
            Widget::Window(w) => w.wf(),
            Widget::Layout(l) => l.wf(),
        }
    }

    /// The widget's draw commands.
    pub open spec fn spec_draw(self) -> Seq<(bool, Seq<Vertex>)> {
        match self {
            Widget::Button(b) => b.spec_draw(),
            Widget::Window(w) => w.spec_draw(),
            Widget::Layout(l) => l.spec_draw(),
        }
    }

    /// What one input event does to the widget: the kind is preserved and
    /// the widget's own transition holds.
    pub open spec fn spec_event_transition(pre: Widget, post: Widget, ctx: Context, event:
        InputEvent) -> bool {
        match (pre, post) {
            (Widget::Button(a), Widget::Button(b)) => Button::spec_event_transition(
                a,
                b,
                ctx,
                event,
            ),
            (Widget::Window(a), Widget::Window(b)) => Window::spec_event_transition(
                a,
                b,
                ctx,
                event,
            ),
            (Widget::Layout(a), Widget::Layout(b)) => Layout::spec_event_transition(
                a,
                b,
                ctx,
                event,
            ),
            _ => false,
        }
    }

    /// What a per-frame reconcile of this widget needs: a layout must be
    /// able to place all of its children within the position limits.
    pub open spec fn spec_update_req(self) -> bool {
        match self {
            Widget::Button(_) => true,
            Widget::Window(_) => true,
            Widget::Layout(l) => l.spec_fits(),
        }
    }

    /// What a per-frame reconcile does to the widget: the kind is
    /// preserved, and the widget's own reconcile relation holds — a button
    /// resizes to its padded label, a window is untouched, a layout stacks
    /// its children into their slots.
    pub open spec fn spec_update_transition(pre: Widget, post: Widget, ctx: Context) -> bool {
        match (pre, post) {
            (Widget::Button(a), Widget::Button(b)) => Button::spec_update_rel(a, b, ctx),
            (Widget::Window(a), Widget::Window(b)) => a == b,
            (Widget::Layout(a), Widget::Layout(b)) => Layout::spec_update_rel(a, b, ctx),
            _ => false,
        }
    }

    pub fn process_events(&mut self, ctx: &Context, event: &InputEvent)
        requires
            ctx.wf(),
            old(self).wf(),
        ensures
            final(self).wf(),
            Widget::spec_event_transition(*old(self), *final(self), *ctx, *event),
    {
        match self {
            Widget::Button(b) => b.process_events(ctx, event),
            Widget::Window(w) => w.process_events(ctx, event),
            Widget::Layout(l) => l.process_events(ctx, event),
        }
    }

    /// Reconcile the widget's derived geometry; windows have none.
    pub fn update(&mut self, ctx: &Context)
        requires
            ctx.wf(),
            old(self).wf(),
            old(self).spec_update_req(),
        ensures
            final(self).wf(),
            (*final(self)) is Button <==> (*old(self)) is Button,
            (*final(self)) is Window <==> (*old(self)) is Window,
            (*old(self)) is Window ==> *final(self) == *old(self),
            Widget::spec_update_transition(*old(self), *final(self), *ctx),
    {
        match self {
            Widget::Button(b) => b.update(ctx),
            Widget::Window(_) => {},
            Widget::Layout(l) => l.update(ctx),
        }
    }

    pub fn draw(&self, out: &mut Vec<DrawCommand>)
        ensures
            draw_models(final(out)@) == draw_models(old(out)@) + self.spec_draw(),
    {
        match self {
            Widget::Button(b) => b.draw(out),
            Widget::Window(w) => w.draw(out),
            Widget::Layout(l) => l.draw(out),
        }
    }
}

/// The widget registered under an identifier, if any; searched from the
/// front.
pub open spec fn spec_get(ws: Seq<(u16, Widget)>, id: u16) -> Option<int>
    decreases ws.len(),
{
    if ws.len() == 0 {
        None
    } else if ws[0].0 == id {
        Some(0)
    } else {
        match spec_get(ws.drop_first(), id) {
            Some(i) => Some(i + 1),
            None => None,
        }
    }
}

/// The concatenated draw commands of a widget list, in order.
pub open spec fn spec_draw_widgets(ws: Seq<(u16, Widget)>) -> Seq<(bool, Seq<Vertex>)>
    decreases ws.len(),
{
    if ws.len() == 0 {
        Seq::empty()
    } else {
        spec_draw_widgets(ws.drop_last()) + ws.last().1.spec_draw()
    }
}

/// The flat registry of top-level widgets; see the module documentation.
pub struct Ui {
    pub widgets: Vec<(WidgetId, Widget)>,
    pub counter: u16,
}

impl Ui {
    pub open spec fn wf(self) -> bool {
        &&& self.widgets@.len() <= 0x1_0000
        &&& forall|i: int| 0 <= i < self.widgets@.len() ==> (#[trigger] self.widgets@[i]).1.wf()
        &&& forall|i: int, j: int|
            0 <= i < j < self.widgets@.len() ==> (#[trigger] self.widgets@[i]).0 < (
            #[trigger] self.widgets@[j]).0
        &&& forall|i: int|
            0 <= i < self.widgets@.len() ==> (#[trigger] self.widgets@[i]).0 <= self.counter
    }

    /// An empty registry.
    pub fn new() -> (u: Ui)
        ensures
            u.wf(),
            u.widgets@.len() == 0,
            u.counter == 0,
    {
        Ui { widgets: Vec::new(), counter: 0 }
    }

    /// Register a widget under the next identifier and return it.
    pub fn add(&mut self, widget: Widget) -> (id: WidgetId)
        requires
            old(self).wf(),
            widget.wf(),
            old(self).counter < 0xffff,
            old(self).widgets@.len() < 0x1_0000,
        ensures
            final(self).wf(),
            id == old(self).counter + 1,
            final(self).counter == old(self).counter + 1,
            final(self).widgets@ == old(self).widgets@.push((id, widget)),
    {
        self.counter = self.counter + 1;
        self.widgets.push((self.counter, widget));
        self.counter
    }

    /// Look a widget up by its identifier.
    pub fn get(&self, id: WidgetId) -> (r: Option<&Widget>)
        ensures
            match r {
                Some(w) => {
                    &&& spec_get(self.widgets@, id) is Some
                    &&& *w == self.widgets@[spec_get(self.widgets@, id)->Some_0].1
                },
                None => spec_get(self.widgets@, id) is None,
            },
    {
        let n = self.widgets.len();
        let mut i: usize = 0;
        proof {
            lemma_get_bounds(self.widgets@, id);
        }
        while i < n
            invariant
                n == self.widgets@.len(),
                i <= n,
                spec_get(self.widgets@, id) is Some ==> spec_get(self.widgets@, id)->Some_0 >= i,
                forall|j: int| 0 <= j < i ==> (#[trigger] self.widgets@[j]).0 != id,
            decreases n - i,
        {
            if self.widgets[i].0 == id {
                proof {
                    lemma_get_first_match(self.widgets@, id, i as int);
                }
                return Some(&self.widgets[i].1);
            }
            i = i + 1;
            proof {
                lemma_get_skip(self.widgets@, id, i as int);
            }
        }
        proof {
            lemma_get_skip(self.widgets@, id, n as int);
        }
        None
    }

    /// Fan an input event out to every top-level widget, unconditionally:
    /// each widget decides for itself whether the event concerns it.
    pub fn process_events(&mut self, ctx: &Context, event: &InputEvent)
        requires
            ctx.wf(),
            old(self).wf(),
        ensures
            final(self).wf(),
            final(self).counter == old(self).counter,
            final(self).widgets@.len() == old(self).widgets@.len(),
            forall|i: int|
                0 <= i < final(self).widgets@.len() ==> {
                    &&& (#[trigger] final(self).widgets@[i]).0 == old(self).widgets@[i].0
                    &&& Widget::spec_event_transition(
                        old(self).widgets@[i].1,
                        final(self).widgets@[i].1,
                        *ctx,
                        *event,
                    )
                },
    {
        let ghost old_widgets = self.widgets@;
        let mut rest: Vec<(WidgetId, Widget)> = Vec::new();
        core::mem::swap(&mut rest, &mut self.widgets);
        let mut done: Vec<(WidgetId, Widget)> = Vec::new();
        while rest.len() > 0
            invariant
                ctx.wf(),
                done@.len() + rest@.len() == old_widgets.len(),
                rest@ == old_widgets.skip(done@.len() as int),
                forall|j: int| 0 <= j < old_widgets.len() ==> (#[trigger] old_widgets[j]).1.wf(),
                forall|j: int| 0 <= j < done@.len() ==> (#[trigger] done@[j]).1.wf(),
                forall|j: int|
                    0 <= j < done@.len() ==> {
                        &&& (#[trigger] done@[j]).0 == old_widgets[j].0
                        &&& Widget::spec_event_transition(
                            old_widgets[j].1,
                            done@[j].1,
                            *ctx,
                            *event,
                        )
                    },
            decreases rest@.len(),
        {
            let ghost i_g = done@.len() as int;
            proof {
                assert(rest@[0] == old_widgets[i_g]);
                assert(rest@.drop_first() =~= old_widgets.skip(i_g + 1));
            }
            let (id, mut widget) = rest.remove(0);
            widget.process_events(ctx, event);
            done.push((id, widget));
        }
        self.widgets = done;
    }

    /// Reconcile every widget's derived geometry; call once per frame.
    pub fn update(&mut self, ctx: &Context)
        requires
            ctx.wf(),
            old(self).wf(),
            forall|i: int|
                0 <= i < old(self).widgets@.len() ==> (#[trigger] old(
                    self,
                ).widgets@[i]).1.spec_update_req(),
        ensures
            final(self).wf(),
            final(self).counter == old(self).counter,
            final(self).widgets@.len() == old(self).widgets@.len(),
            forall|i: int|
                0 <= i < final(self).widgets@.len() ==> {
                    &&& (#[trigger] final(self).widgets@[i]).0 == old(self).widgets@[i].0
                    &&& Widget::spec_update_transition(
                        old(self).widgets@[i].1,
                        final(self).widgets@[i].1,
                        *ctx,
                    )
                },
    {
        let ghost old_widgets = self.widgets@;
        let mut rest: Vec<(WidgetId, Widget)> = Vec::new();
        core::mem::swap(&mut rest, &mut self.widgets);
        let mut done: Vec<(WidgetId, Widget)> = Vec::new();
        while rest.len() > 0
            invariant
                ctx.wf(),
                done@.len() + rest@.len() == old_widgets.len(),
                rest@ == old_widgets.skip(done@.len() as int),
                forall|j: int|
                    0 <= j < old_widgets.len() ==> {
                        &&& (#[trigger] old_widgets[j]).1.wf()
                        &&& old_widgets[j].1.spec_update_req()
                    },
                forall|j: int| 0 <= j < done@.len() ==> (#[trigger] done@[j]).1.wf(),
                forall|j: int|
                    0 <= j < done@.len() ==> {
                        &&& (#[trigger] done@[j]).0 == old_widgets[j].0
                        &&& Widget::spec_update_transition(old_widgets[j].1, done@[j].1, *ctx)
                    },
            decreases rest@.len(),
        {
            let ghost i_g = done@.len() as int;
            proof {
                assert(rest@[0] == old_widgets[i_g]);
                assert(rest@.drop_first() =~= old_widgets.skip(i_g + 1));
            }
            let (id, mut widget) = rest.remove(0);
            widget.update(ctx);
            done.push((id, widget));
        }
        self.widgets = done;
    }

    /// Collect every widget's draw calls, in insertion order.
    pub fn draw(&self, out: &mut Vec<DrawCommand>)
        ensures
            draw_models(final(out)@) == draw_models(old(out)@) + spec_draw_widgets(
                self.widgets@,
            ),
    {
        let n = self.widgets.len();
        let mut i: usize = 0;
        proof {
            assert(draw_models(out@) =~= draw_models(out@) + spec_draw_widgets(
                self.widgets@.take(0),
            ));
        }
        while i < n
            invariant
                n == self.widgets@.len(),
                i <= n,
                draw_models(out@) == draw_models(old(out)@) + spec_draw_widgets(
                    self.widgets@.take(i as int),
                ),
            decreases n - i,
        {
            proof {
                assert(self.widgets@.take(i + 1).drop_last() =~= self.widgets@.take(i as int));
                assert(self.widgets@.take(i + 1).last() == self.widgets@[i as int]);
            }
            self.widgets[i].1.draw(out);
            proof {
                assert(draw_models(out@) =~= draw_models(old(out)@) + spec_draw_widgets(
                    self.widgets@.take(i + 1),
                ));
            }
            i = i + 1;
        }
        proof {
            assert(self.widgets@.take(n as int) =~= self.widgets@);
        }
    }
}

/// A successful lookup's index is inside the list.
proof fn lemma_get_bounds(ws: Seq<(u16, Widget)>, id: u16)
    ensures
        spec_get(ws, id) is Some ==> 0 <= spec_get(ws, id)->Some_0 < ws.len(),
    decreases ws.len(),
{
    if ws.len() > 0 && ws[0].0 != id {
        lemma_get_bounds(ws.drop_first(), id);
    }
}

/// If no widget among the first `i` carries the identifier, the lookup's
/// result is at or past `i`.
proof fn lemma_get_skip(ws: Seq<(u16, Widget)>, id: u16, i: int)
    requires
        0 <= i <= ws.len(),
        forall|j: int| 0 <= j < i ==> (#[trigger] ws[j]).0 != id,
    ensures
        spec_get(ws, id) is Some ==> spec_get(ws, id)->Some_0 >= i,
        i == ws.len() ==> spec_get(ws, id) is None,
    decreases i,
{
    lemma_get_bounds(ws, id);
    if i > 0 {
        assert(ws[0].0 != id);
        assert forall|j: int| 0 <= j < i - 1 implies (#[trigger] ws.drop_first()[j]).0 != id by {
            assert(ws.drop_first()[j] == ws[j + 1]);
        }
        lemma_get_skip(ws.drop_first(), id, i - 1);
    }
}

/// If widget `i` carries the identifier and none before it does, the
/// lookup finds exactly `i`.
proof fn lemma_get_first_match(ws: Seq<(u16, Widget)>, id: u16, i: int)
    requires
        0 <= i < ws.len(),
        ws[i].0 == id,
        forall|j: int| 0 <= j < i ==> (#[trigger] ws[j]).0 != id,
    ensures
        spec_get(ws, id) == Some(i),
    decreases i,
{
    if i == 0 {
    } else {
        assert(ws[0].0 != id);
        assert(ws.drop_first()[i - 1] == ws[i]);
        assert(forall|j: int| 0 <= j < i - 1 ==> (#[trigger] ws.drop_first()[j]).0 != id);
        lemma_get_first_match(ws.drop_first(), id, i - 1);
    }
}

} // verus!
