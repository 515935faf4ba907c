//! Input events delivered by the host window system, reduced to the plain
//! values the widgets actually read: absolute cursor positions in pixels and
//! mouse button transitions.

use vstd::prelude::*;

verus! {

/// Whether a button went down or up.
#[derive(Clone, Copy, Debug, PartialEq, Eq, Structural)]
pub enum ElementState {
    Pressed,
    Released,
}

/// Which mouse button a button transition concerns. Only `Left` drives the
/// widget state machines; the others are delivered and ignored.
#[derive(Clone, Copy, Debug, PartialEq, Eq, Structural)]
pub enum MouseButton {
    Left,
    Right,
    Middle,
}

/// A raw input event, fanned out unconditionally to every widget; each widget
/// decides from its own bounds whether the event concerns it.
#[derive(Clone, Copy, Debug, PartialEq, Eq, Structural)]
pub enum InputEvent {
    CursorMoved { x: i64, y: i64 },
    MouseInput { state: ElementState, button: MouseButton },
}

/// Marker for the semantic event kinds that widgets emit from their queues.
pub trait WidgetEvent {

}

} // verus!
