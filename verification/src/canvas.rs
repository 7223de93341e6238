//! Drawing, as a list of commands for a canvas to carry out in order.

use vstd::prelude::*;

use crate::math::Vec2D;
use crate::style::{Color, Tint};

verus! {

/// A range of bytes of the text that is drawn.
#[derive(Clone, Copy, Debug, PartialEq, Eq, Structural)]
pub struct ByteRange {
    pub start: usize,
    pub end: usize,
}

/// What a shape or a text is painted with.
#[derive(Clone, Copy, Debug, PartialEq)]
pub enum Ink<S> {
    /// A plain colour, channels from zero to one.
    Rgba { r: S, g: S, b: S, a: S },
    /// A plain colour.
    Solid(Color),
    /// The style's own paint, with the fonts of the text.
    Style,
    /// The style's own paint, with the default font.
    StyleDefaultFont,
    /// The style's paint with the default font and another colour.
    StyleRecoloured(Color),
    /// The style's paint, with the fonts of the text and a colour derived from the style's.
    StyleTinted(Tint),
}

/// One command. Text is named by its range in the text that is drawn.
#[derive(Clone, Copy, Debug, PartialEq)]
pub enum DrawOp<S> {
    Save,
    Restore,
    Scissor { pos: Vec2D<S>, size: Vec2D<S> },
    FillRect { pos: Vec2D<S>, size: Vec2D<S>, ink: Ink<S> },
    /// Fills what is inside one of two rectangles and outside the other.
    FillFrame {
        outer_pos: Vec2D<S>,
        outer_size: Vec2D<S>,
        inner_pos: Vec2D<S>,
        inner_size: Vec2D<S>,
        ink: Ink<S>,
    },
    StrokeRect { pos: Vec2D<S>, size: Vec2D<S>, ink: Ink<S>, width: S },
    /// Strokes a rectangle on a path that was first moved to `from`.
    MoveAndStrokeRect { from: Vec2D<S>, pos: Vec2D<S>, size: Vec2D<S>, ink: Ink<S>, width: S },
    FillCircle { center: Vec2D<S>, radius: S, ink: Ink<S> },
    StrokeCircle { center: Vec2D<S>, radius: S, ink: Ink<S>, width: S },
    StrokeLine { from: Vec2D<S>, to: Vec2D<S>, ink: Ink<S>, width: S },
    /// Fills a path that consists of one line.
    FillLine { from: Vec2D<S>, to: Vec2D<S>, ink: Ink<S> },
    FillText { pos: Vec2D<S>, range: ByteRange, ink: Ink<S> },
    /// Strokes the outlines of the glyphs.
    StrokeText { pos: Vec2D<S>, range: ByteRange, ink: Ink<S>, width: S },
}

} // verus!
