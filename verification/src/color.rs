//! RGB colors for widget fills, 8 bits per channel.

use vstd::prelude::*;

verus! {

/// A solid RGB color with 8-bit channels.
#[derive(Clone, Copy, Debug, PartialEq, Eq, Structural)]
pub struct Color {
    pub r: u8,
    pub g: u8,
    pub b: u8,
}

pub open spec fn spec_red() -> Color {
    Color { r: 255, g: 0, b: 0 }
}

pub open spec fn spec_green() -> Color {
    Color { r: 0, g: 255, b: 0 }
}

pub open spec fn spec_blue() -> Color {
    Color { r: 0, g: 0, b: 255 }
}

pub open spec fn spec_white() -> Color {
    Color { r: 255, g: 255, b: 255 }
}

/// The resting color of interactive widgets.
#[verifier::when_used_as_spec(spec_red)]
pub fn red() -> (c: Color)
    ensures
        c == spec_red(),
{
    Color { r: 255, g: 0, b: 0 }
}

/// The hover color of interactive widgets.
#[verifier::when_used_as_spec(spec_green)]
pub fn green() -> (c: Color)
    ensures
        c == spec_green(),
{
    Color { r: 0, g: 255, b: 0 }
}

/// The pressed color of interactive widgets, and the titlebar color.
#[verifier::when_used_as_spec(spec_blue)]
pub fn blue() -> (c: Color)
    ensures
        c == spec_blue(),
{
    Color { r: 0, g: 0, b: 255 }
}

/// The default fill color of a freshly created shape.
#[verifier::when_used_as_spec(spec_white)]
pub fn white() -> (c: Color)
    ensures
        c == spec_white(),
{
    Color { r: 255, g: 255, b: 255 }
}

} // verus!
