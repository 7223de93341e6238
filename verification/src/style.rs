//! Colours and styles.

use vstd::prelude::*;

verus! {

#[derive(Clone, Copy, Debug, PartialEq, Eq, Structural)]
pub struct Color {
    pub r: u8,
    pub g: u8,
    pub b: u8,
    pub a: u8,
}

/// A colour derived from another one.
#[derive(Clone, Copy, Debug, PartialEq, Eq, Structural)]
pub enum Tint {
    /// The inverse of the colour.
    Inverted(Color),
    /// The colour that stands out from the colour.
    Contrast(Color),
    /// The colour that stands out from the colour, with this opacity.
    ContrastWithAlpha(Color, u8),
}

/// The style of an annotation: its colour, and which of the host's paints draws it.
#[derive(Clone, Copy, Debug, PartialEq, Eq, Structural)]
pub struct Style {
    pub color: Color,
    pub paint: u64,
}

} // verus!
