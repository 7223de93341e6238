//! Text that an input method is still composing.

use vstd::prelude::*;

use crate::canvas::ByteRange;
use crate::style::Color;

verus! {

/// How a part of the composed text is underlined. Every kind but `Double` is one line.
#[derive(Clone, Copy, Debug, PartialEq, Eq, Structural)]
pub enum UnderlineKind {
    NoLine,
    Single,
    Double,
}

/// How a part of the composed text is shown; `range` counts bytes of that text.
#[derive(Clone, Copy, Debug, PartialEq, Eq)]
pub struct PreeditSpan {
    pub range: ByteRange,
    pub foreground: Option<Color>,
    pub background: Option<Color>,
    pub underline: UnderlineKind,
    pub underline_color: Option<Color>,
}

/// The text that is being composed, with the place of the cursor in it, by character; no place
/// is the end.
#[derive(Debug, PartialEq, Eq)]
pub struct Preedit {
    pub text: String,
    pub cursor_chars: Option<usize>,
    pub spans: Vec<PreeditSpan>,
}

/// Names one of the host's input methods.
#[derive(Clone, Copy, Debug, PartialEq, Eq, Structural)]
pub struct InputContext {
    pub id: u64,
}

} // verus!
