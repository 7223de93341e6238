//! What the text tool reads of a text buffer, and what it asks the buffer to do.
//!
//! A buffer belongs to the host, which knows where words and lines begin. The tool decides step by
//! step: it asks for one thing, is told the outcome, and goes on from there.

use vstd::prelude::*;

use super::index::{char_index_from_byte_index, chars_before};
use crate::canvas::ByteRange;
use crate::scalar::clamp_i32;
use crate::sketch_board::Sender;

verus! {

/// A place in a buffer: its offset in characters, whether it is at the beginning of a line, and
/// whether it is at the beginning of the buffer.
#[derive(Clone, Copy, Debug, PartialEq, Eq, Structural)]
pub struct TextPoint {
    pub offset: i32,
    pub starts_line: bool,
    pub is_start: bool,
}

/// The state of a buffer: what it holds, where its cursor is, and the ends of the selection, the
/// first of them first.
#[derive(Debug, PartialEq)]
pub struct BufferState {
    pub text: String,
    pub insert: TextPoint,
    pub selection: Option<(TextPoint, TextPoint)>,
}

/// A movement from one place in a buffer to another.
#[derive(Clone, Copy, Debug, PartialEq, Eq, Structural)]
pub enum Motion {
    ForwardChar,
    BackwardChar,
    ForwardWordEnd,
    BackwardWordStart,
    ForwardToLineEnd,
    BackwardLine,
    ForwardToEnd,
    SetOffset(i32),
}

#[derive(Clone, Copy, Debug, PartialEq, Eq, Structural)]
pub enum Clipboard {
    /// What was copied.
    Standard,
    /// What was selected last.
    Primary,
}

/// A paste that waits for the contents of a clipboard. `dragged` tells whether the mouse was
/// being dragged when it was asked for, and `sender` who wants to hear of it.
#[derive(Clone, Copy, Debug, PartialEq, Eq)]
pub struct PasteTicket {
    pub from: Clipboard,
    pub dragged: bool,
    pub sender: Option<Sender>,
}

/// Something that a buffer is asked to do. Places are given by their offset.
#[derive(Debug, PartialEq)]
pub enum Request {
    /// Find the place that a movement leads to. Answered by the place.
    Move { from: i32, motion: Motion },
    /// Delete what is between two places. Answered by whether anything was deleted.
    Delete { start: i32, end: i32 },
    /// Move the cursor. Answered by the place where it then is.
    PlaceCursor { at: i32 },
    /// Select from the cursor, which goes to `insert`, to `bound`.
    Select { insert: i32, bound: i32 },
    /// Select everything.
    SelectAll,
    /// Move both ends of the selection to the beginning.
    ClearSelection,
    /// Insert a text at the cursor.
    Insert(String),
    /// Insert a line break at the cursor.
    InsertNewline,
    /// Put what is between two places on the clipboard that was opened.
    Copy { start: i32, end: i32 },
    /// Read the clipboard that was opened, in the background, and see to the ticket then.
    Paste(PasteTicket),
    Undo,
    Redo,
}

/// The outcome of what was asked for.
#[derive(Debug, PartialEq)]
pub enum Reply {
    /// It was done, and there is nothing to tell.
    Done,
    Flag(bool),
    Point(TextPoint),
    /// A new buffer, with the fonts for its text.
    Buffer { buffer: u64, font_ids: Vec<u64> },
}

/// The contents of a clipboard.
#[derive(Debug, PartialEq)]
pub enum ClipboardText {
    Text(String),
    NoText,
    Failed,
}

/// What is done when the contents of a clipboard have arrived.
#[derive(Debug, PartialEq)]
pub enum PasteEffect {
    /// Insert the text at the cursor, and have the sketch board refresh through the channel.
    Insert { text: String, notify: Option<Sender> },
    /// Nothing: the mouse was being dragged.
    Drop,
    /// Tell the user that there was no text.
    ReportNoText,
    /// Tell the user that the clipboard could not be read.
    ReportFailure,
}

pub open spec fn paste_effect(ticket: PasteTicket, contents: ClipboardText) -> PasteEffect {
    match contents {
        ClipboardText::Text(text) => if ticket.dragged {
            PasteEffect::Drop
        } else {
            PasteEffect::Insert { text, notify: ticket.sender }
        },
        ClipboardText::NoText => PasteEffect::ReportNoText,
        ClipboardText::Failed => PasteEffect::ReportFailure,
    }
}

/// Sees to a paste whose clipboard has been read.
pub fn finish_paste(ticket: PasteTicket, contents: ClipboardText) -> (r: PasteEffect)
    ensures
        r == paste_effect(ticket, contents),
{
    match contents {
        ClipboardText::Text(text) => if ticket.dragged {
            PasteEffect::Drop
        } else {
            PasteEffect::Insert { text, notify: ticket.sender }
        },
        ClipboardText::NoText => PasteEffect::ReportNoText,
        ClipboardText::Failed => PasteEffect::ReportFailure,
    }
}

/// How far an action on the buffer reaches.
#[derive(Clone, Copy, Debug, PartialEq, Eq, Structural)]
pub enum ActionScope {
    ForwardChar,
    BackwardChar,
    ForwardLine,
    BackwardLine,
    ForwardWord,
    BackwardWord,
    ForwardLineAndWord,
    BackwardLineAndWord,
    SelectAll,
    BufferStart,
    BufferEnd,
    Left,
    Right,
    Up,
    Down,
    Nothing,
}

#[derive(Clone, Copy, Debug, PartialEq, Eq, Structural)]
pub enum Action {
    Delete,
    MoveCursor,
    Select,
    MoveOrigin,
    NudgeOrigin,
}

// ---------------------------------------------------------------------------------------------
// Lines as they are drawn

/// The offsets of the first character of a drawn line and of the end of the line.
pub open spec fn line_offsets(content: Seq<char>, range: ByteRange) -> (int, int) {
    (
        chars_before(content, range.start as int) as int,
        chars_before(content, range.end as int) as int,
    )
}

/// The first line, from the one with index `n` on, that the offset is in or at the end of.
pub open spec fn line_at_from(
    content: Seq<char>,
    ranges: Seq<ByteRange>,
    offset: int,
    n: int,
) -> Option<int>
    decreases ranges.len() - n,
{
    if n < 0 || n >= ranges.len() {
        None
    } else {
        let (start, end) = line_offsets(content, ranges[n]);
        if start <= offset <= end {
            Some(n)
        } else {
            line_at_from(content, ranges, offset, n + 1)
        }
    }
}

/// The place in the line `range` that is `column` characters from its beginning, but not beyond
/// its end.
pub open spec fn place_in_line(content: Seq<char>, range: ByteRange, column: int) -> int {
    let (start, end) = line_offsets(content, range);
    start + (if column > end - start {
        end - start
    } else {
        column
    })
}

/// The offset one drawn line below: at the same distance from the beginning of the line, or the
/// end of the line if it is shorter. From the last line it is the end of that line; from outside
/// the lines it is the beginning of the text.
pub open spec fn offset_below(content: Seq<char>, ranges: Seq<ByteRange>, offset: int) -> int {
    match line_at_from(content, ranges, offset, 0) {
        None => 0,
        Some(i) => {
            let (start, end) = line_offsets(content, ranges[i]);
            if i == ranges.len() - 1 {
                end
            } else {
                place_in_line(content, ranges[i + 1], offset - start)
            }
        },
    }
}

/// The offset one drawn line above. From the first line it is the beginning of that line.
pub open spec fn offset_above(content: Seq<char>, ranges: Seq<ByteRange>, offset: int) -> int {
    match line_at_from(content, ranges, offset, 0) {
        None => 0,
        Some(i) => {
            let (start, end) = line_offsets(content, ranges[i]);
            if i == 0 {
                start
            } else {
                place_in_line(content, ranges[i - 1], offset - start)
            }
        },
    }
}

pub(crate) fn saturate_i32(v: i128) -> (r: i32)
    ensures
        r == clamp_i32(v as int),
{
    if v < i32::MIN as i128 {
        i32::MIN
    } else if v > i32::MAX as i128 {
        i32::MAX
    } else {
        v as i32
    }
}

fn line_ends(content: &str, range: ByteRange) -> (r: (usize, usize))
    ensures
        (r.0 as int, r.1 as int) == line_offsets(content@, range),
{
    (
        char_index_from_byte_index(content, range.start),
        char_index_from_byte_index(content, range.end),
    )
}

fn find_line(content: &str, ranges: &Vec<ByteRange>, offset: i32) -> (r: Option<usize>)
    ensures
        match r {
            Some(i) => line_at_from(content@, ranges@, offset as int, 0) == Some(i as int) && i
                < ranges@.len(),
            None => line_at_from(content@, ranges@, offset as int, 0) is None,
        },
{
    let mut i: usize = 0;
    while i < ranges.len()
        invariant
            i <= ranges.len(),
            line_at_from(content@, ranges@, offset as int, 0) == line_at_from(
                content@,
                ranges@,
                offset as int,
                i as int,
            ),
        decreases ranges.len() - i,
    {
        let (start, end) = line_ends(content, ranges[i]);
        if start as i128 <= offset as i128 && offset as i128 <= end as i128 {
            return Some(i);
        }
        i += 1;
    }
    None
}

fn place_at_column(content: &str, range: ByteRange, column: i128) -> (r: i128)
    requires
        -0x8000_0000_0000_0000_0000 <= column <= 0x8000_0000_0000_0000_0000,
    ensures
        r == place_in_line(content@, range, column as int),
{
    let (start, end) = line_ends(content, range);
    let limit: i128 = end as i128 - start as i128;
    start as i128 + (if column > limit {
        limit
    } else {
        column
    })
}

/// The offset one drawn line below `offset`.
pub fn line_below(content: &str, ranges: &Vec<ByteRange>, offset: i32) -> (r: i32)
    ensures
        r == clamp_i32(offset_below(content@, ranges@, offset as int)),
{
    match find_line(content, ranges, offset) {
        None => 0,
        Some(i) => {
            let (start, end) = line_ends(content, ranges[i]);
            if i == ranges.len() - 1 {
                saturate_i32(end as i128)
            } else {
                saturate_i32(
                    place_at_column(content, ranges[i + 1], offset as i128 - start as i128),
                )
            }
        },
    }
}

/// The offset one drawn line above `offset`.
pub fn line_above(content: &str, ranges: &Vec<ByteRange>, offset: i32) -> (r: i32)
    ensures
        r == clamp_i32(offset_above(content@, ranges@, offset as int)),
{
    match find_line(content, ranges, offset) {
        None => 0,
        Some(i) => {
            let (start, _) = line_ends(content, ranges[i]);
            if i == 0 {
                saturate_i32(start as i128)
            } else {
                saturate_i32(
                    place_at_column(content, ranges[i - 1], offset as i128 - start as i128),
                )
            }
        },
    }
}

// ---------------------------------------------------------------------------------------------
// Movements

/// When a movement that is made of steps has come to its end.
#[derive(Clone, Copy, Debug, PartialEq, Eq, Structural)]
pub enum Goal {
    /// After one step.
    Once,
    /// At the beginning of a line.
    LineStart,
    /// At the beginning of the buffer.
    BufferStart,
}

impl Goal {
    /// The step that is still to be made from a place; none if the goal is reached.
    pub open spec fn spec_next(self, at: TextPoint) -> Option<Motion> {
        match self {
            Goal::Once => None,
            Goal::LineStart => if at.starts_line {
                None
            } else {
                Some(Motion::BackwardChar)
            },
            Goal::BufferStart => if at.is_start {
                None
            } else {
                Some(Motion::BackwardLine)
            },
        }
    }

    pub fn next(self, at: &TextPoint) -> (r: Option<Motion>)
        ensures
            r == self.spec_next(*at),
    {
        match self {
            Goal::Once => None,
            Goal::LineStart => if at.starts_line {
                None
            } else {
                Some(Motion::BackwardChar)
            },
            Goal::BufferStart => if at.is_start {
                None
            } else {
                Some(Motion::BackwardLine)
            },
        }
    }
}

/// The movement that a deletion makes to find what it deletes.
pub open spec fn deletion_motion(scope: ActionScope) -> Option<Motion> {
    match scope {
        ActionScope::ForwardChar => Some(Motion::ForwardChar),
        ActionScope::BackwardChar => Some(Motion::BackwardChar),
        ActionScope::ForwardWord => Some(Motion::ForwardWordEnd),
        ActionScope::BackwardWord => Some(Motion::BackwardWordStart),
        _ => None,
    }
}

pub fn motion_for_deletion(scope: ActionScope) -> (r: Option<Motion>)
    ensures
        r == deletion_motion(scope),
{
    match scope {
        ActionScope::ForwardChar => Some(Motion::ForwardChar),
        ActionScope::BackwardChar => Some(Motion::BackwardChar),
        ActionScope::ForwardWord => Some(Motion::ForwardWordEnd),
        ActionScope::BackwardWord => Some(Motion::BackwardWordStart),
        _ => None,
    }
}

/// How the cursor, or the loose end of a selection, goes on from a place: the first step, and the
/// goal of the movement. `ranges` are the lines as they are drawn; none were drawn yet where there
/// are none.
pub open spec fn cursor_motion(
    scope: ActionScope,
    at: TextPoint,
    content: Seq<char>,
    ranges: Seq<ByteRange>,
) -> Option<(Motion, Goal)> {
    match scope {
        ActionScope::ForwardChar => Some((Motion::ForwardChar, Goal::Once)),
        ActionScope::BackwardChar => Some((Motion::BackwardChar, Goal::Once)),
        ActionScope::ForwardLine => Some((Motion::ForwardToLineEnd, Goal::Once)),
        ActionScope::ForwardWord => Some((Motion::ForwardWordEnd, Goal::Once)),
        ActionScope::BackwardWord => Some((Motion::BackwardWordStart, Goal::Once)),
        ActionScope::BackwardLine => if at.starts_line {
            Some((Motion::BackwardLine, Goal::Once))
        } else {
            Some((Motion::BackwardChar, Goal::LineStart))
        },
        ActionScope::BufferEnd => Some((Motion::ForwardToEnd, Goal::Once)),
        ActionScope::BufferStart => if at.is_start {
            None
        } else {
            Some((Motion::BackwardLine, Goal::BufferStart))
        },
        ActionScope::ForwardLineAndWord => Some(
            (
                Motion::SetOffset(clamp_i32(offset_below(content, ranges, at.offset as int))),
                Goal::Once,
            ),
        ),
        ActionScope::BackwardLineAndWord => Some(
            (
                Motion::SetOffset(clamp_i32(offset_above(content, ranges, at.offset as int))),
                Goal::Once,
            ),
        ),
        _ => None,
    }
}

pub fn motion_for_cursor(
    scope: ActionScope,
    at: &TextPoint,
    content: &str,
    ranges: &Vec<ByteRange>,
) -> (r: Option<(Motion, Goal)>)
    ensures
        r == cursor_motion(scope, *at, content@, ranges@),
{
    match scope {
        ActionScope::ForwardChar => Some((Motion::ForwardChar, Goal::Once)),
        ActionScope::BackwardChar => Some((Motion::BackwardChar, Goal::Once)),
        ActionScope::ForwardLine => Some((Motion::ForwardToLineEnd, Goal::Once)),
        ActionScope::ForwardWord => Some((Motion::ForwardWordEnd, Goal::Once)),
        ActionScope::BackwardWord => Some((Motion::BackwardWordStart, Goal::Once)),
        ActionScope::BackwardLine => if at.starts_line {
            Some((Motion::BackwardLine, Goal::Once))
        } else {
            Some((Motion::BackwardChar, Goal::LineStart))
        },
        ActionScope::BufferEnd => Some((Motion::ForwardToEnd, Goal::Once)),
        ActionScope::BufferStart => if at.is_start {
            None
        } else {
            Some((Motion::BackwardLine, Goal::BufferStart))
        },
        ActionScope::ForwardLineAndWord => Some(
            (Motion::SetOffset(line_below(content, ranges, at.offset)), Goal::Once),
        ),
        ActionScope::BackwardLineAndWord => Some(
            (Motion::SetOffset(line_above(content, ranges, at.offset)), Goal::Once),
        ),
        _ => None,
    }
}

} // verus!
