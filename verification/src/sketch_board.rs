//! What the sketch board and its tools tell each other.

use vstd::prelude::*;

use crate::math::Vec2D;

verus! {

/// The keys that a tool tells apart.
#[derive(Clone, Copy, Debug, PartialEq, Eq, Structural)]
pub enum Key {
    Return,
    Escape,
    AltL,
    AltR,
    BackSpace,
    Delete,
    Left,
    Right,
    Up,
    Down,
    Home,
    End,
    Insert,
    LowerA,
    UpperA,
    LowerC,
    UpperC,
    LowerV,
    UpperV,
    LowerX,
    UpperX,
    Other,
}

/// The modifier state of an event. `other` stands for every further modifier, locks among them.
#[derive(Clone, Copy, Debug, PartialEq, Eq, Structural)]
pub struct Modifiers {
    pub shift: bool,
    pub control: bool,
    pub alt: bool,
    pub other: bool,
}

impl Modifiers {
    /// Whether exactly these modifiers are set.
    pub open spec fn spec_exactly(self, shift: bool, control: bool, alt: bool) -> bool {
        self.shift == shift && self.control == control && self.alt == alt && !self.other
    }

    /// The state with no modifier set.
    pub fn none() -> (r: Self)
        ensures
            r == (Modifiers { shift: false, control: false, alt: false, other: false }),
    {
        Modifiers { shift: false, control: false, alt: false, other: false }
    }

    pub fn exactly(&self, shift: bool, control: bool, alt: bool) -> (r: bool)
        ensures
            r == self.spec_exactly(shift, control, alt),
    {
        self.shift == shift && self.control == control && self.alt == alt && !self.other
    }
}

#[derive(Clone, Copy, Debug, PartialEq, Eq, Structural)]
pub struct KeyEventMsg {
    pub key: Key,
    pub modifier: Modifiers,
}

#[derive(Clone, Copy, Debug, PartialEq, Eq, Structural)]
pub enum MouseButton {
    Primary,
    Secondary,
    Middle,
}

#[derive(Clone, Copy, Debug, PartialEq, Eq, Structural)]
pub enum MouseEventType {
    BeginDrag,
    EndDrag,
    UpdateDrag,
    Click,
    Release,
    Other,
}

/// A mouse event. While a drag goes on, `pos` is relative to where it began.
#[derive(Clone, Copy, Debug, PartialEq)]
pub struct MouseEventMsg<S> {
    pub type_: MouseEventType,
    pub button: MouseButton,
    pub modifier: Modifiers,
    pub pos: Vec2D<S>,
    pub n_pressed: i32,
}

/// What the sketch board does with an event that a tool has seen.
#[derive(Debug, PartialEq)]
pub enum ToolUpdateResult<D> {
    /// Put the drawable on the stack, and redraw.
    Commit(D),
    Redraw,
    /// Nothing happened here: the event goes on to its other handlers.
    Unmodified,
    StopPropagation,
    RedrawAndStopPropagation,
}

/// The tools of this crate.
#[derive(Clone, Copy, Debug, PartialEq, Eq, Structural)]
pub enum Tools {
    Crop,
    Text,
}

#[derive(Clone, Copy, Debug, PartialEq, Eq)]
pub enum SketchBoardOutput {
    /// The size of the area that a crop leaves, or that there is no crop.
    DimensionsUpdate(Option<(i32, i32)>),
}

#[derive(Clone, Copy, Debug, PartialEq, Eq)]
pub enum SketchBoardInput {
    Output(SketchBoardOutput),
    Refresh,
}

/// Names one of the host's message channels to the sketch board.
#[derive(Clone, Copy, Debug, PartialEq, Eq, Structural)]
pub struct Sender {
    pub id: u64,
}

} // verus!
