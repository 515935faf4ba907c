//! The layout widget: children stacked vertically or horizontally with
//! uniform spacing.
//!
//! Every relayout first takes the component-wise maximum of the children's
//! current sizes — all cells are as large as the largest child — and then
//! places child `i` (0-based, insertion order) at
//! `position + (spacing, i * (biggest.y + spacing))` for a vertical stack,
//! or `position + (i * (biggest.x + spacing), spacing)` for a horizontal
//! one. The slots are a pure function of the layout's position, spacing,
//! direction and the children's sizes, so relayouts with unchanged sizes
//! land every child in the same place.

use vstd::prelude::*;

use crate::button::Button;
use crate::events::InputEvent;
use crate::graphics::{draw_models, DrawCommand, Vertex};
use crate::math::{Vec2, MAX_COORD, PAD_LIMIT, WIDGET_POS_LIMIT};
use crate::text_layout::LAYOUT_EXTENT_LIMIT;
use crate::window::Window;
use crate::Context;

verus! {

/// Which way a layout stacks its children.
#[derive(Clone, Copy, Debug, PartialEq, Eq, Structural)]
pub enum Direction {
    Vertical,
    Horizontal,
}

/// Bound on the size a child widget can report, from the widgets' own
/// invariants.
pub const CHILD_SIZE_LIMIT: i64 = LAYOUT_EXTENT_LIMIT + 2 * PAD_LIMIT;

/// A widget a layout can own.
pub enum ChildWidget {
    Button(Button),
    Window(Window),
}

impl ChildWidget {
    pub open spec fn wf(self) -> bool {
        match self {
            ChildWidget::Button(b) => b.wf(),
            ChildWidget::Window(w) => w.wf(),
        }
    }

    /// The child's current size: a button is its rectangle, a window is
    /// its titlebar and body stacked.
    pub open spec fn spec_size(self) -> (int, int) {
        match self {
            ChildWidget::Button(b) => (b.rect.size.x as int, b.rect.size.y as int),
            ChildWidget::Window(w) => (
                w.titlebar.size.x as int,
                w.titlebar.size.y + w.body.size.y,
            ),
        }
    }

    /// The child's current position.
    pub open spec fn spec_position(self) -> (int, int) {
        match self {
            ChildWidget::Button(b) => (b.position.x as int, b.position.y as int),
            ChildWidget::Window(w) => (w.titlebar.position.x as int, w.titlebar.position.y as int),
        }
    }

    /// The child's visibility.
    pub open spec fn spec_visible(self) -> bool {
        match self {
            ChildWidget::Button(b) => b.visible,
            ChildWidget::Window(w) => w.visible,
        }
    }

    /// The child's draw commands.
    pub open spec fn spec_draw(self) -> Seq<(bool, Seq<Vertex>)> {
        match self {
            ChildWidget::Button(b) => b.spec_draw(),
            ChildWidget::Window(w) => w.spec_draw(),
        }
    }

    /// What moving the child to `position` (with its derived geometry
    /// reconciled) does: the kind is preserved and the widget's own
    /// moved-and-reconciled relation holds.
    pub open spec fn spec_placed_rel(pre: ChildWidget, post: ChildWidget, ctx: Context, position:
        Vec2) -> bool {
        match (pre, post) {
            (ChildWidget::Button(a), ChildWidget::Button(b)) => Button::spec_moved_rel(
                a,
                b,
                ctx,
                position,
            ),
            (ChildWidget::Window(a), ChildWidget::Window(b)) => Window::spec_moved_rel(
                a,
                b,
                ctx,
                position,
            ),
            _ => false,
        }
    }

    /// What one reconcile does to the child: a button's own reconcile
    /// relation; a window has nothing to reconcile and is untouched.
    pub open spec fn spec_update_rel(pre: ChildWidget, post: ChildWidget, ctx: Context) -> bool {
        match (pre, post) {
            (ChildWidget::Button(a), ChildWidget::Button(b)) => Button::spec_update_rel(
                a,
                b,
                ctx,
            ),
            (ChildWidget::Window(a), ChildWidget::Window(b)) => a == b,
            _ => false,
        }
    }

    /// What one input event does to the child: the kind is preserved and
    /// the widget's own transition holds.
    pub open spec fn spec_event_transition(pre: ChildWidget, post: ChildWidget, ctx: Context,
        event: InputEvent) -> bool {
        match (pre, post) {
            (ChildWidget::Button(a), ChildWidget::Button(b)) => Button::spec_event_transition(
                a,
                b,
                ctx,
                event,
            ),
            (ChildWidget::Window(a), ChildWidget::Window(b)) => Window::spec_event_transition(
                a,
                b,
                ctx,
                event,
            ),
            _ => false,
        }
    }

    pub fn size(&self) -> (s: Vec2)
        requires
            self.wf(),
        ensures
            (s.x as int, s.y as int) == self.spec_size(),
            0 <= s.x <= CHILD_SIZE_LIMIT,
            0 <= s.y <= CHILD_SIZE_LIMIT,
    {
        match self {
            ChildWidget::Button(b) => b.size(),
            ChildWidget::Window(w) => w.size(),
        }
    }

    pub fn set_position(&mut self, ctx: &Context, position: Vec2)
        requires
            ctx.wf(),
            old(self).wf(),
            -WIDGET_POS_LIMIT <= position.x <= WIDGET_POS_LIMIT,
            -WIDGET_POS_LIMIT <= position.y <= WIDGET_POS_LIMIT,
        ensures
            final(self).wf(),
            final(self).spec_position() == (position.x as int, position.y as int),
            (*final(self)) is Button <==> (*old(self)) is Button,
            ChildWidget::spec_placed_rel(*old(self), *final(self), *ctx, position),
    {
        match self {
            ChildWidget::Button(b) => b.set_position(ctx, position),
            ChildWidget::Window(w) => w.set_position(ctx, position),
        }
    }

    /// Reconcile the child's derived geometry; a window has none to
    /// reconcile.
    pub fn update(&mut self, ctx: &Context)
        requires
            ctx.wf(),
            old(self).wf(),
        ensures
            final(self).wf(),
            final(self).spec_position() == old(self).spec_position(),
            (*final(self)) is Button <==> (*old(self)) is Button,
            (*old(self)) is Window ==> *final(self) == *old(self),
            ChildWidget::spec_update_rel(*old(self), *final(self), *ctx),
    {
        match self {
            ChildWidget::Button(b) => b.update(ctx),
            ChildWidget::Window(_) => {},
        }
    }

    /// A reconcile after a move keeps the child's moved-and-reconciled
    /// relation.
    pub proof fn lemma_placed_then_updated(
        pre: ChildWidget,
        mid: ChildWidget,
        post: ChildWidget,
        ctx: Context,
        position: Vec2,
    )
        requires
            ChildWidget::spec_placed_rel(pre, mid, ctx, position),
            ChildWidget::spec_update_rel(mid, post, ctx),
        ensures
            ChildWidget::spec_placed_rel(pre, post, ctx, position),
    {
        match (pre, mid, post) {
            (ChildWidget::Button(a), ChildWidget::Button(m), ChildWidget::Button(b)) => {
                Button::lemma_moved_then_updated(a, m, b, ctx, position);
            },
            _ => {},
        }
    }

    pub fn process_events(&mut self, ctx: &Context, event: &InputEvent)
        requires
            ctx.wf(),
            old(self).wf(),
        ensures
            final(self).wf(),
            ChildWidget::spec_event_transition(*old(self), *final(self), *ctx, *event),
    {
        match self {
            ChildWidget::Button(b) => b.process_events(ctx, event),
            ChildWidget::Window(w) => w.process_events(ctx, event),
        }
    }

    pub fn draw(&self, out: &mut Vec<DrawCommand>)
        ensures
            draw_models(final(out)@) == draw_models(old(out)@) + self.spec_draw(),
    {
        match self {
            ChildWidget::Button(b) => b.draw(out),
            ChildWidget::Window(w) => w.draw(out),
        }
    }
}

/// The component-wise maximum of the children's sizes: the uniform cell
/// size of a relayout.
pub open spec fn spec_biggest(ws: Seq<(u16, ChildWidget)>) -> (int, int)
    decreases ws.len(),
{
    if ws.len() == 0 {
        (0, 0)
    } else {
        let rest = spec_biggest(ws.drop_last());
        let s = ws.last().1.spec_size();
        (
            if s.0 > rest.0 {
                s.0
            } else {
                rest.0
            },
            if s.1 > rest.1 {
                s.1
            } else {
                rest.1
            },
        )
    }
}

/// The slot the `i`-th child is placed at.
pub open spec fn spec_slot(
    direction: Direction,
    position: Vec2,
    spacing: int,
    big: (int, int),
    i: int,
) -> (int, int) {
    match direction {
        Direction::Horizontal => (position.x + (big.0 + spacing) * i, position.y + spacing),
        Direction::Vertical => (position.x + spacing, position.y + (big.1 + spacing) * i),
    }
}

/// The slot of child `i` of a layout as a stored pixel position.
pub open spec fn spec_slot_vec(l: Layout, i: int) -> Vec2 {
    let s = spec_slot(l.direction, l.position, l.spacing as int, spec_biggest(l.widgets@), i);
    Vec2 { x: s.0 as i64, y: s.1 as i64 }
}

/// Every slot of a relayout lands within the widget position limit.
pub open spec fn slots_fit(
    direction: Direction,
    position: Vec2,
    spacing: int,
    ws: Seq<(u16, ChildWidget)>,
) -> bool {
    forall|i: int|
        0 <= i < ws.len() ==> {
            let s = #[trigger] spec_slot(direction, position, spacing, spec_biggest(ws), i);
            &&& -WIDGET_POS_LIMIT <= s.0 <= WIDGET_POS_LIMIT
            &&& -WIDGET_POS_LIMIT <= s.1 <= WIDGET_POS_LIMIT
        }
}

/// Walk the slots of an `n`-child relayout with cell size `big` — the
/// cell size of the child list `ws` — and report whether every one lands
/// within the widget position limit.
fn check_slots(
    direction: Direction,
    position: Vec2,
    spacing: i64,
    big: Vec2,
    n: usize,
    Ghost(ws): Ghost<Seq<(u16, ChildWidget)>>,
) -> (r: bool)
    requires
        -MAX_COORD <= position.x <= MAX_COORD,
        -MAX_COORD <= position.y <= MAX_COORD,
        0 <= spacing <= PAD_LIMIT,
        0 <= big.x <= CHILD_SIZE_LIMIT,
        0 <= big.y <= CHILD_SIZE_LIMIT,
        n <= 0x1_0000,
        (big.x as int, big.y as int) == spec_biggest(ws),
        n == ws.len(),
    ensures
        r == slots_fit(direction, position, spacing as int, ws),
{
    let mut i: usize = 0;
    while i < n
        invariant
            -MAX_COORD <= position.x <= MAX_COORD,
            -MAX_COORD <= position.y <= MAX_COORD,
            0 <= spacing <= PAD_LIMIT,
            0 <= big.x <= CHILD_SIZE_LIMIT,
            0 <= big.y <= CHILD_SIZE_LIMIT,
            n <= 0x1_0000,
            (big.x as int, big.y as int) == spec_biggest(ws),
            n == ws.len(),
            i <= n,
            forall|j: int|
                0 <= j < i ==> {
                    let s = #[trigger] spec_slot(
                        direction,
                        position,
                        spacing as int,
                        spec_biggest(ws),
                        j,
                    );
                    &&& -WIDGET_POS_LIMIT <= s.0 <= WIDGET_POS_LIMIT
                    &&& -WIDGET_POS_LIMIT <= s.1 <= WIDGET_POS_LIMIT
                },
        decreases n - i,
    {
        proof {
            assert(0 <= (big.x + spacing) * (i as int) <= (CHILD_SIZE_LIMIT + PAD_LIMIT)
                * 0x1_0000) by (nonlinear_arith)
                requires
                    0 <= big.x + spacing <= CHILD_SIZE_LIMIT + PAD_LIMIT,
                    0 <= i as int <= 0x1_0000,
            {
            }
            assert(0 <= (big.y + spacing) * (i as int) <= (CHILD_SIZE_LIMIT + PAD_LIMIT)
                * 0x1_0000) by (nonlinear_arith)
                requires
                    0 <= big.y + spacing <= CHILD_SIZE_LIMIT + PAD_LIMIT,
                    0 <= i as int <= 0x1_0000,
            {
            }
        }
        let slot = match direction {
            Direction::Horizontal => Vec2 {
                x: position.x + (big.x + spacing) * (i as i64),
                y: position.y + spacing,
            },
            Direction::Vertical => Vec2 {
                x: position.x + spacing,
                y: position.y + (big.y + spacing) * (i as i64),
            },
        };
        proof {
            assert((slot.x as int, slot.y as int) == spec_slot(
                direction,
                position,
                spacing as int,
                spec_biggest(ws),
                i as int,
            ));
        }
        if slot.x < -WIDGET_POS_LIMIT || slot.x > WIDGET_POS_LIMIT || slot.y < -WIDGET_POS_LIMIT
            || slot.y > WIDGET_POS_LIMIT {
            return false;
        }
        i = i + 1;
    }
    true
}

/// The cell size depends only on the children's sizes: two child lists of
/// equal length with pointwise equal sizes yield the same cell size.
pub proof fn lemma_biggest_congruent(a: Seq<(u16, ChildWidget)>, b: Seq<(u16, ChildWidget)>)
    requires
        a.len() == b.len(),
        forall|i: int| 0 <= i < a.len() ==> (#[trigger] a[i]).1.spec_size() == b[i].1.spec_size(),
    ensures
        spec_biggest(a) == spec_biggest(b),
    decreases a.len(),
{
    if a.len() > 0 {
        assert(forall|i: int|
            0 <= i < a.drop_last().len() ==> (#[trigger] a.drop_last()[i]).1.spec_size()
                == b.drop_last()[i].1.spec_size());
        lemma_biggest_congruent(a.drop_last(), b.drop_last());
        assert(a.last() == a[a.len() - 1]);
        assert(b.last() == b[b.len() - 1]);
    }
}

/// Relayout is deterministic in the children's sizes: two layouts with the
/// same direction, spacing and position whose children have pointwise
/// equal sizes compute identical slots for every child — in particular,
/// relaying out twice in a row, with sizes unchanged, moves nothing.
pub proof fn lemma_layout_deterministic(
    direction: Direction,
    position: Vec2,
    spacing: int,
    a: Seq<(u16, ChildWidget)>,
    b: Seq<(u16, ChildWidget)>,
)
    requires
        a.len() == b.len(),
        forall|i: int| 0 <= i < a.len() ==> (#[trigger] a[i]).1.spec_size() == b[i].1.spec_size(),
    ensures
        forall|i: int|
            0 <= i < a.len() ==> #[trigger] spec_slot(
                direction,
                position,
                spacing,
                spec_biggest(a),
                i,
            ) == spec_slot(direction, position, spacing, spec_biggest(b), i),
{
    lemma_biggest_congruent(a, b);
}

/// Relaying out twice in a row moves nothing: if the first relayout left
/// every child's size as it found it — the fixed-children-sizes premise —
/// the second relayout computes the same slot for every child, so every
/// child ends exactly where the first relayout put it.
pub proof fn lemma_consecutive_updates_fixed(s0: Layout, s1: Layout, s2: Layout, ctx: Context)
    requires
        Layout::spec_update_rel(s0, s1, ctx),
        Layout::spec_update_rel(s1, s2, ctx),
        forall|i: int|
            0 <= i < s1.widgets@.len() ==> (#[trigger] s1.widgets@[i]).1.spec_size()
                == s0.widgets@[i].1.spec_size(),
    ensures
        forall|i: int|
            0 <= i < s2.widgets@.len() ==> (#[trigger] s2.widgets@[i]).1.spec_position()
                == s1.widgets@[i].1.spec_position(),
{
    lemma_biggest_congruent(s1.widgets@, s0.widgets@);
    assert forall|i: int|
        0 <= i < s2.widgets@.len() implies (#[trigger] s2.widgets@[i]).1.spec_position()
        == s1.widgets@[i].1.spec_position() by {
        assert(ChildWidget::spec_placed_rel(
            s0.widgets@[i].1,
            s1.widgets@[i].1,
            ctx,
            spec_slot_vec(s0, i),
        ));
        assert(ChildWidget::spec_placed_rel(
            s1.widgets@[i].1,
            s2.widgets@[i].1,
            ctx,
            spec_slot_vec(s1, i),
        ));
        assert(spec_slot_vec(s1, i) == spec_slot_vec(s0, i));
    }
}

/// A stack of child widgets; see the module documentation.
pub struct Layout {
    pub direction: Direction,
    pub widgets: Vec<(u16, ChildWidget)>,
    pub position: Vec2,
    pub visible: bool,
    pub size: Vec2,
    pub spacing: i64,
    pub counter: u16,
}

impl Layout {
    pub open spec fn wf(self) -> bool {
        &&& -WIDGET_POS_LIMIT <= self.position.x <= WIDGET_POS_LIMIT
        &&& -WIDGET_POS_LIMIT <= self.position.y <= WIDGET_POS_LIMIT
        &&& 0 <= self.spacing <= PAD_LIMIT
        &&& self.widgets@.len() <= 0x1_0000
        &&& forall|i: int| 0 <= i < self.widgets@.len() ==> (#[trigger] self.widgets@[i]).1.wf()
        &&& forall|i: int, j: int|
            0 <= i < j < self.widgets@.len() ==> (#[trigger] self.widgets@[i]).0 < (
            #[trigger] self.widgets@[j]).0
        &&& forall|i: int|
            0 <= i < self.widgets@.len() ==> (#[trigger] self.widgets@[i]).0 <= self.counter
    }

    /// Whether a relayout of the current state keeps every slot in range.
    pub open spec fn spec_fits(self) -> bool {
        slots_fit(self.direction, self.position, self.spacing as int, self.widgets@)
    }

    /// An empty layout at the origin with the default spacing of three
    /// pixels.
    pub fn new(direction: Direction) -> (l: Layout)
        ensures
            l.wf(),
            l.direction == direction,
            l.widgets@.len() == 0,
            l.position == (Vec2 { x: 0, y: 0 }),
            l.visible,
            l.size == (Vec2 { x: 0, y: 0 }),
            l.spacing == 3,
            l.counter == 0,
    {
        Layout {
            direction,
            widgets: Vec::new(),
            position: Vec2 { x: 0, y: 0 },
            visible: true,
            size: Vec2 { x: 0, y: 0 },
            spacing: 3,
            counter: 0,
        }
    }

    /// What one relayout does: the layout's own fields are untouched, and
    /// every child — id and insertion order kept — stands
    /// moved-and-reconciled at its slot, the slots computed from the
    /// children's sizes as the relayout found them.
    pub open spec fn spec_update_rel(pre: Layout, post: Layout, ctx: Context) -> bool {
        &&& post.direction == pre.direction
        &&& post.position == pre.position
        &&& post.spacing == pre.spacing
        &&& post.visible == pre.visible
        &&& post.size == pre.size
        &&& post.counter == pre.counter
        &&& post.widgets@.len() == pre.widgets@.len()
        &&& forall|i: int|
            0 <= i < post.widgets@.len() ==> (#[trigger] post.widgets@[i]).0
                == pre.widgets@[i].0
        &&& forall|i: int|
            0 <= i < post.widgets@.len() ==> ChildWidget::spec_placed_rel(
                pre.widgets@[i].1,
                (#[trigger] post.widgets@[i]).1,
                ctx,
                spec_slot_vec(pre, i),
            )
    }

    /// The uniform cell size a relayout would use now: the component-wise
    /// maximum of the children's current sizes.
    fn biggest_dimensions(&self) -> (big: Vec2)
        requires
            self.wf(),
        ensures
            (big.x as int, big.y as int) == spec_biggest(self.widgets@),
            0 <= big.x <= CHILD_SIZE_LIMIT,
            0 <= big.y <= CHILD_SIZE_LIMIT,
    {
        let n = self.widgets.len();
        let mut biggest = Vec2 { x: 0, y: 0 };
        let mut i: usize = 0;
        while i < n
            invariant
                self.wf(),
                n == self.widgets@.len(),
                i <= n,
                (biggest.x as int, biggest.y as int) == spec_biggest(self.widgets@.take(i as int)),
                0 <= biggest.x <= CHILD_SIZE_LIMIT,
                0 <= biggest.y <= CHILD_SIZE_LIMIT,
            decreases n - i,
        {
            proof {
                assert(self.widgets@.take(i + 1).drop_last() =~= self.widgets@.take(i as int));
                assert(self.widgets@.take(i + 1).last() == self.widgets@[i as int]);
            }
            let size = self.widgets[i].1.size();
            if size.x > biggest.x {
                biggest.x = size.x;
            }
            if size.y > biggest.y {
                biggest.y = size.y;
            }
            i = i + 1;
        }
        proof {
            assert(self.widgets@.take(n as int) =~= self.widgets@);
        }
        biggest
    }

    /// Whether a relayout with the given direction, position and spacing
    /// would keep every child's slot within the position limits. This is
    /// the runtime check with which a caller establishes what `update`
    /// and the mutators around it require.
    pub fn slots_would_fit(&self, direction: Direction, position: Vec2, spacing: i64) -> (r: bool)
        requires
            self.wf(),
            -MAX_COORD <= position.x <= MAX_COORD,
            -MAX_COORD <= position.y <= MAX_COORD,
            0 <= spacing <= PAD_LIMIT,
        ensures
            r == slots_fit(direction, position, spacing as int, self.widgets@),
    {
        let big = self.biggest_dimensions();
        check_slots(direction, position, spacing, big, self.widgets.len(), Ghost(self.widgets@))
    }

    /// The same check for the relayout `add_widget` would run: the current
    /// children with the candidate appended under the next identifier.
    pub fn slots_would_fit_with(&self, widget: &ChildWidget) -> (r: bool)
        requires
            self.wf(),
            widget.wf(),
            self.widgets@.len() < 0x1_0000,
            self.counter < 0xffff,
        ensures
            r == slots_fit(
                self.direction,
                self.position,
                self.spacing as int,
                self.widgets@.push(((self.counter + 1) as u16, *widget)),
            ),
    {
        let ghost pushed = self.widgets@.push(((self.counter + 1) as u16, *widget));
        let big0 = self.biggest_dimensions();
        let size = widget.size();
        let big = Vec2 {
            x: if size.x > big0.x {
                size.x
            } else {
                big0.x
            },
            y: if size.y > big0.y {
                size.y
            } else {
                big0.y
            },
        };
        proof {
            assert(pushed.drop_last() =~= self.widgets@);
            assert(pushed.last() == ((self.counter + 1) as u16, *widget));
            assert((big.x as int, big.y as int) == spec_biggest(pushed));
            assert(forall|j: int| 0 <= j < pushed.len() ==> (#[trigger] pushed[j]).1.wf());
        }
        check_slots(
            self.direction,
            self.position,
            self.spacing,
            big,
            self.widgets.len() + 1,
            Ghost(pushed),
        )
    }

    /// Stack every child into its slot: compute the cell size from the
    /// children's current sizes, move child `i` to slot `i`, and reconcile
    /// each child's derived geometry.
    pub fn update(&mut self, ctx: &Context)
        requires
            ctx.wf(),
            old(self).wf(),
            old(self).spec_fits(),
        ensures
            final(self).wf(),
            Layout::spec_update_rel(*old(self), *final(self), *ctx),
            final(self).direction == old(self).direction,
            final(self).position == old(self).position,
            final(self).spacing == old(self).spacing,
            final(self).visible == old(self).visible,
            final(self).size == old(self).size,
            final(self).counter == old(self).counter,
            final(self).widgets@.len() == old(self).widgets@.len(),
            forall|i: int|
                0 <= i < final(self).widgets@.len() ==> (#[trigger] final(self).widgets@[i]).0
                    == old(self).widgets@[i].0,
            forall|i: int|
                0 <= i < final(self).widgets@.len() ==> (#[trigger] final(self).widgets@[i]).1.spec_position()
                    == spec_slot(
                    old(self).direction,
                    old(self).position,
                    old(self).spacing as int,
                    spec_biggest(old(self).widgets@),
                    i,
                ),
            forall|i: int|
                0 <= i < final(self).widgets@.len() ==> ((#[trigger] final(self).widgets@[i]).1
                    is Button <==> old(self).widgets@[i].1 is Button),
    {
        let ghost old_widgets = self.widgets@;
        let n = self.widgets.len();
        let biggest = self.biggest_dimensions();

        // Place every child into its slot, reconciling it afterward.
        let mut rest: Vec<(u16, ChildWidget)> = Vec::new();
        core::mem::swap(&mut rest, &mut self.widgets);
        let mut done: Vec<(u16, ChildWidget)> = Vec::new();
        while rest.len() > 0
            invariant
                ctx.wf(),
                self.direction == old(self).direction,
                self.position == old(self).position,
                self.spacing == old(self).spacing,
                old_widgets == old(self).widgets@,
                -WIDGET_POS_LIMIT <= self.position.x <= WIDGET_POS_LIMIT,
                -WIDGET_POS_LIMIT <= self.position.y <= WIDGET_POS_LIMIT,
                0 <= self.spacing <= PAD_LIMIT,
                slots_fit(self.direction, self.position, self.spacing as int, old_widgets),
                done@.len() + rest@.len() == old_widgets.len(),
                old_widgets.len() <= 0x1_0000,
                rest@ == old_widgets.skip(done@.len() as int),
                (biggest.x as int, biggest.y as int) == spec_biggest(old_widgets),
                0 <= biggest.x <= CHILD_SIZE_LIMIT,
                0 <= biggest.y <= CHILD_SIZE_LIMIT,
                forall|j: int| 0 <= j < old_widgets.len() ==> (#[trigger] old_widgets[j]).1.wf(),
                forall|j: int| 0 <= j < done@.len() ==> (#[trigger] done@[j]).1.wf(),
                forall|j: int|
                    0 <= j < done@.len() ==> (#[trigger] done@[j]).0 == old_widgets[j].0,
                forall|j: int|
                    0 <= j < done@.len() ==> (#[trigger] done@[j]).1.spec_position() == spec_slot(
                        self.direction,
                        self.position,
                        self.spacing as int,
                        spec_biggest(old_widgets),
                        j,
                    ),
                forall|j: int|
                    0 <= j < done@.len() ==> ((#[trigger] done@[j]).1 is Button
                        <==> old_widgets[j].1 is Button),
                forall|j: int|
                    0 <= j < done@.len() ==> ChildWidget::spec_placed_rel(
                        old_widgets[j].1,
                        (#[trigger] done@[j]).1,
                        *ctx,
                        spec_slot_vec(*old(self), j),
                    ),
            decreases rest@.len(),
        {
            let ghost i_g = done@.len() as int;
            proof {
                assert(rest@[0] == old_widgets[i_g]);
                assert(rest@.drop_first() =~= old_widgets.skip(i_g + 1));
                assert(0 <= (biggest.x + self.spacing) * i_g <= (CHILD_SIZE_LIMIT + PAD_LIMIT)
                    * 0x1_0000) by (nonlinear_arith)
                    requires
                        0 <= biggest.x + self.spacing <= CHILD_SIZE_LIMIT + PAD_LIMIT,
                        0 <= i_g <= 0x1_0000,
                {
                }
                assert(0 <= (biggest.y + self.spacing) * i_g <= (CHILD_SIZE_LIMIT + PAD_LIMIT)
                    * 0x1_0000) by (nonlinear_arith)
                    requires
                        0 <= biggest.y + self.spacing <= CHILD_SIZE_LIMIT + PAD_LIMIT,
                        0 <= i_g <= 0x1_0000,
                {
                }
            }
            let i_exec = done.len();
            let (id, mut child) = rest.remove(0);
            let slot = match self.direction {
                Direction::Horizontal => Vec2 {
                    x: self.position.x + (biggest.x + self.spacing) * (i_exec as i64),
                    y: self.position.y + self.spacing,
                },
                Direction::Vertical => Vec2 {
                    x: self.position.x + self.spacing,
                    y: self.position.y + (biggest.y + self.spacing) * (i_exec as i64),
                },
            };
            proof {
                assert((slot.x as int, slot.y as int) == spec_slot(
                    self.direction,
                    self.position,
                    self.spacing as int,
                    spec_biggest(old_widgets),
                    i_g,
                ));
                assert(slot == spec_slot_vec(*old(self), i_g));
            }
            let ghost pre_child = child;
            child.set_position(ctx, slot);
            let ghost mid_child = child;
            child.update(ctx);
            proof {
                ChildWidget::lemma_placed_then_updated(pre_child, mid_child, child, *ctx, slot);
            }
            done.push((id, child));
        }
        proof {
            assert(old_widgets.skip(old_widgets.len() as int) =~= rest@);
        }
        self.widgets = done;
    }

    /// Append a child and immediately relayout all siblings.
    pub fn add_widget(&mut self, ctx: &Context, widget: ChildWidget)
        requires
            ctx.wf(),
            old(self).wf(),
            widget.wf(),
            old(self).counter < 0xffff,
            slots_fit(
                old(self).direction,
                old(self).position,
                old(self).spacing as int,
                old(self).widgets@.push(((old(self).counter + 1) as u16, widget)),
            ),
            old(self).widgets@.len() < 0x1_0000,
        ensures
            final(self).wf(),
            final(self).counter == old(self).counter + 1,
            final(self).widgets@.len() == old(self).widgets@.len() + 1,
            forall|i: int|
                0 <= i < final(self).widgets@.len() ==> (#[trigger] final(self).widgets@[i]).0
                    == old(self).widgets@.push(((old(self).counter + 1) as u16, widget))[i].0,
            forall|i: int|
                0 <= i < final(self).widgets@.len() ==> (#[trigger] final(self).widgets@[i]).1.spec_position()
                    == spec_slot(
                    old(self).direction,
                    old(self).position,
                    old(self).spacing as int,
                    spec_biggest(old(self).widgets@.push(((old(self).counter + 1) as u16, widget))),
                    i,
                ),
    {
        self.counter = self.counter + 1;
        self.widgets.push((self.counter, widget));
        self.update(ctx);
    }

    /// The layout's stacking direction.
    pub fn direction(&self) -> (d: Direction)
        ensures
            d == self.direction,
    {
        self.direction
    }

    /// Change the spacing and relayout.
    pub fn set_spacing(&mut self, ctx: &Context, spacing: i64)
        requires
            ctx.wf(),
            old(self).wf(),
            0 <= spacing <= PAD_LIMIT,
            slots_fit(
                old(self).direction,
                old(self).position,
                spacing as int,
                old(self).widgets@,
            ),
        ensures
            final(self).wf(),
            final(self).spacing == spacing,
            forall|i: int|
                0 <= i < final(self).widgets@.len() ==> (#[trigger] final(self).widgets@[i]).1.spec_position()
                    == spec_slot(
                    old(self).direction,
                    old(self).position,
                    spacing as int,
                    spec_biggest(old(self).widgets@),
                    i,
                ),
    {
        self.spacing = spacing;
        self.update(ctx);
    }

    /// Change the stacking direction and relayout.
    pub fn set_direction(&mut self, ctx: &Context, direction: Direction)
        requires
            ctx.wf(),
            old(self).wf(),
            slots_fit(
                direction,
                old(self).position,
                old(self).spacing as int,
                old(self).widgets@,
            ),
        ensures
            final(self).wf(),
            final(self).direction == direction,
            forall|i: int|
                0 <= i < final(self).widgets@.len() ==> (#[trigger] final(self).widgets@[i]).1.spec_position()
                    == spec_slot(
                    direction,
                    old(self).position,
                    old(self).spacing as int,
                    spec_biggest(old(self).widgets@),
                    i,
                ),
    {
        self.direction = direction;
        self.update(ctx);
    }

    /// The layout's position.
    pub fn position(&self) -> (p: Vec2)
        ensures
            p == self.position,
    {
        self.position
    }

    /// Move the layout and relayout every child relative to the new
    /// position.
    pub fn set_position(&mut self, ctx: &Context, position: Vec2)
        requires
            ctx.wf(),
            old(self).wf(),
            -WIDGET_POS_LIMIT <= position.x <= WIDGET_POS_LIMIT,
            -WIDGET_POS_LIMIT <= position.y <= WIDGET_POS_LIMIT,
            slots_fit(
                old(self).direction,
                position,
                old(self).spacing as int,
                old(self).widgets@,
            ),
        ensures
            final(self).wf(),
            final(self).position == position,
            forall|i: int|
                0 <= i < final(self).widgets@.len() ==> (#[trigger] final(self).widgets@[i]).1.spec_position()
                    == spec_slot(
                    old(self).direction,
                    position,
                    old(self).spacing as int,
                    spec_biggest(old(self).widgets@),
                    i,
                ),
    {
        self.position = position;
        self.update(ctx);
    }

    /// What one input event does to a layout: nothing when invisible,
    /// otherwise each child's own transition, ids and order kept.
    pub open spec fn spec_event_transition(pre: Layout, post: Layout, ctx: Context, event:
        InputEvent) -> bool {
        &&& post.widgets@.len() == pre.widgets@.len()
        &&& post.direction == pre.direction
        &&& post.position == pre.position
        &&& post.spacing == pre.spacing
        &&& post.visible == pre.visible
        &&& post.counter == pre.counter
        &&& post.size == pre.size
        &&& !pre.visible ==> post.widgets@ == pre.widgets@
        &&& pre.visible ==> forall|i: int|
            0 <= i < post.widgets@.len() ==> {
                &&& (#[trigger] post.widgets@[i]).0 == pre.widgets@[i].0
                &&& ChildWidget::spec_event_transition(
                    pre.widgets@[i].1,
                    post.widgets@[i].1,
                    ctx,
                    event,
                )
            }
    }

    /// Fan an input event out to every child. An invisible layout skips
    /// event processing entirely.
    pub fn process_events(&mut self, ctx: &Context, event: &InputEvent)
        requires
            ctx.wf(),
            old(self).wf(),
        ensures
            final(self).wf(),
            Layout::spec_event_transition(*old(self), *final(self), *ctx, *event),
    {
        if !self.visible {
            return ;
        }
        let ghost old_widgets = self.widgets@;
        let mut rest: Vec<(u16, ChildWidget)> = Vec::new();
        core::mem::swap(&mut rest, &mut self.widgets);
        let mut done: Vec<(u16, ChildWidget)> = Vec::new();
        while rest.len() > 0
            invariant
                ctx.wf(),
                done@.len() + rest@.len() == old_widgets.len(),
                rest@ == old_widgets.skip(done@.len() as int),
                forall|j: int| 0 <= j < old_widgets.len() ==> (#[trigger] old_widgets[j]).1.wf(),
                forall|j: int| 0 <= j < done@.len() ==> (#[trigger] done@[j]).1.wf(),
                forall|j: int|
                    0 <= j < done@.len() ==> {
                        &&& (#[trigger] done@[j]).0 == old_widgets[j].0
                        &&& ChildWidget::spec_event_transition(
                            old_widgets[j].1,
                            done@[j].1,
                            *ctx,
                            *event,
                        )
                    },
            decreases rest@.len(),
        {
            let ghost i_g = done@.len() as int;
            proof {
                assert(rest@[0] == old_widgets[i_g]);
                assert(rest@.drop_first() =~= old_widgets.skip(i_g + 1));
            }
            let (id, mut child) = rest.remove(0);
            child.process_events(ctx, event);
            done.push((id, child));
        }
        self.widgets = done;
    }

    pub fn set_visibility(&mut self, visible: bool)
        ensures
            final(self).visible == visible,
            *final(self) == (Layout { visible, ..*old(self) }),
    {
        self.visible = visible;
    }

    pub fn visible(&self) -> (v: bool)
        ensures
            v == self.visible,
    {
        self.visible
    }

    /// The layout's own size. The stack does not measure itself: this
    /// stays what it was constructed with.
    pub fn size(&self) -> (s: Vec2)
        ensures
            s == self.size,
    {
        self.size
    }

    /// The draw commands of every child, in insertion order; an invisible
    /// layout draws nothing.
    pub open spec fn spec_draw(self) -> Seq<(bool, Seq<Vertex>)> {
        if !self.visible {
            Seq::empty()
        } else {
            spec_draw_children(self.widgets@)
        }
    }

    /// Emit every child's draw calls in insertion order. An invisible
    /// layout emits nothing.
    pub fn draw(&self, out: &mut Vec<DrawCommand>)
        ensures
            draw_models(final(out)@) == draw_models(old(out)@) + self.spec_draw(),
    {
        if !self.visible {
            proof {
                assert(draw_models(out@) =~= draw_models(out@) + self.spec_draw());
            }
            return ;
        }
        let n = self.widgets.len();
        let mut i: usize = 0;
        proof {
            assert(draw_models(out@) =~= draw_models(out@) + spec_draw_children(
                self.widgets@.take(0),
            ));
        }
        while i < n
            invariant
                n == self.widgets@.len(),
                i <= n,
                draw_models(out@) == draw_models(old(out)@) + spec_draw_children(
                    self.widgets@.take(i as int),
                ),
            decreases n - i,
        {
            proof {
                assert(self.widgets@.take(i + 1).drop_last() =~= self.widgets@.take(i as int));
                assert(self.widgets@.take(i + 1).last() == self.widgets@[i as int]);
            }
            self.widgets[i].1.draw(out);
            proof {
                assert(draw_models(out@) =~= draw_models(old(out)@) + spec_draw_children(
                    self.widgets@.take(i + 1),
                ));
            }
            i = i + 1;
        }
        proof {
            assert(self.widgets@.take(n as int) =~= self.widgets@);
        }
    }
}

/// The concatenated draw commands of a child list, in order.
pub open spec fn spec_draw_children(ws: Seq<(u16, ChildWidget)>) -> Seq<(bool, Seq<Vertex>)>
    decreases ws.len(),
{
    if ws.len() == 0 {
        Seq::empty()
    } else {
        spec_draw_children(ws.drop_last()) + ws.last().1.spec_draw()
    }
}

} // verus!
