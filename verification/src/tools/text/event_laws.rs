//! What each event asks for, and what comes of it.

use vstd::prelude::*;

use super::buffer::{
    offset_above, offset_below, paste_effect, Action, ActionScope, BufferState, Clipboard,
    ClipboardText, Goal, Motion, PasteEffect, PasteTicket, Reply, Request, TextPoint,
};
use super::content::{Text, TextLayout};
use super::keys::{key_command, KeyCommand};
use super::pointer::{click_offset_from, drag_offset_from, points_at};
use super::steps::{Outcome, Pending, TextEventMsg, TextTool};
use crate::ime::{InputContext, Preedit};
use crate::math::Vec2D;
use crate::scalar::{clamp_i32, Scalar, EXACT};
use crate::sketch_board::{
    Key, KeyEventMsg, Modifiers, MouseButton, MouseEventMsg, MouseEventType, ToolUpdateResult,
};
use crate::style::Style;

verus! {

// ---------------------------------------------------------------------------------------------
// Clipboards

/// A text that has arrived is inserted, whole, and the sender of the ticket is told, exactly if the
/// ticket was not taken during a drag, whichever clipboard it is for. What is not a text is
/// reported.
pub proof fn law_what_becomes_of_a_paste(ticket: PasteTicket, text: String)
    ensures
        !ticket.dragged ==> paste_effect(ticket, ClipboardText::Text(text))
            == (PasteEffect::Insert { text, notify: ticket.sender }),
        ticket.dragged ==> paste_effect(ticket, ClipboardText::Text(text)) == PasteEffect::Drop,
        paste_effect(ticket, ClipboardText::NoText) == PasteEffect::ReportNoText,
        paste_effect(ticket, ClipboardText::Failed) == PasteEffect::ReportFailure,
{
}

/// What a paste by key brings is always inserted, and the sketch board is told through the channel
/// of the tool.
pub proof fn law_paste_by_key_inserts<S: Scalar>(
    tool: TextTool<S>,
    event: KeyEventMsg,
    state: BufferState,
    move_length: S,
    deleted: bool,
    arrived: String,
)
    requires
        tool.text is Some,
        event.key == Key::LowerV || event.key == Key::UpperV || (event.key == Key::Insert
            && event.modifier == (Modifiers {
            shift: true,
            control: false,
            alt: false,
            other: false,
        })),
    ensures
        ({
            let from = if event.key == Key::Insert {
                Clipboard::Primary
            } else {
                Clipboard::Standard
            };
            let (first, opening) = tool.key_event(event, state, move_length);
            let (second, _) = first.resumed(Reply::Flag(true));
            let (_, pasting) = second.resumed(Reply::Flag(deleted));
            &&& opening == Outcome::<S>::OpenClipboard(from)
            &&& pasting matches Outcome::Buffer(buffer, Request::Paste(ticket)) && buffer
                == tool.text->0.buffer && ticket.from == from && paste_effect(
                ticket,
                ClipboardText::Text(arrived),
            ) == (PasteEffect::Insert { text: arrived, notify: tool.sender })
        }),
{
}

// ---------------------------------------------------------------------------------------------
// Actions on the buffer

/// Whether a step asks the buffer of the text to find a place.
pub open spec fn finds<S>(
    step: (TextTool<S>, Outcome<S>),
    tool: TextTool<S>,
    from: i32,
    motion: Motion,
) -> bool {
    step.1 == Outcome::<S>::Buffer(tool.text->0.buffer, Request::Move { from, motion })
}

/// The cursor goes to a place that was found: nothing is selected then, and the event is answered
/// by whether the cursor has moved or something was selected.
pub open spec fn goes_there<S: Scalar>(
    tool: TextTool<S>,
    state: BufferState,
    found: TextTool<S>,
    place: TextPoint,
    reached: TextPoint,
) -> bool {
    let buffer = tool.text->0.buffer;
    let (cleared, clearing) = found.resumed(Reply::Point(place));
    let (put, putting) = cleared.resumed(Reply::Done);
    let (after, outcome) = put.resumed(Reply::Point(reached));
    &&& clearing == Outcome::<S>::Buffer(buffer, Request::ClearSelection)
    &&& putting == Outcome::<S>::Buffer(buffer, Request::PlaceCursor { at: place.offset })
    &&& outcome == Outcome::<S>::Done(
        if reached.offset == state.insert.offset && state.selection is None {
            ToolUpdateResult::StopPropagation
        } else {
            ToolUpdateResult::RedrawAndStopPropagation
        },
    )
    &&& after.text == tool.text
}

/// The other end of the selection goes to a place that was found, and the cursor to `anchor`.
pub open spec fn selects_to<S: Scalar>(
    tool: TextTool<S>,
    anchor: i32,
    found: TextTool<S>,
    place: TextPoint,
) -> bool {
    let (asked, selecting) = found.resumed(Reply::Point(place));
    let (after, outcome) = asked.resumed(Reply::Done);
    &&& selecting == Outcome::<S>::Buffer(
        tool.text->0.buffer,
        Request::Select { insert: anchor, bound: place.offset },
    )
    &&& outcome == Outcome::<S>::Done(ToolUpdateResult::RedrawAndStopPropagation)
    &&& after.text == tool.text
}

/// The cursor moves by a word to the end of the word from where it is, or back to its beginning,
/// also where something is selected.
pub proof fn law_moving_by_a_word<S: Scalar>(
    tool: TextTool<S>,
    state: BufferState,
    move_length: S,
    forward: bool,
    place: TextPoint,
    reached: TextPoint,
)
    requires
        tool.text is Some,
    ensures
        ({
            let (scope, motion) = if forward {
                (ActionScope::ForwardWord, Motion::ForwardWordEnd)
            } else {
                (ActionScope::BackwardWord, Motion::BackwardWordStart)
            };
            let step = tool.buffer_action(state, Action::MoveCursor, scope, move_length);
            &&& finds(step, tool, state.insert.offset, motion)
            &&& goes_there(tool, state, step.0, place, reached)
        }),
{
}

/// With nothing selected, the cursor moves by a character or by a drawn line from where it is.
pub proof fn law_moving_from_where_it_is<S: Scalar>(
    tool: TextTool<S>,
    state: BufferState,
    move_length: S,
    forward: bool,
    place: TextPoint,
    reached: TextPoint,
)
    requires
        tool.text is Some,
        state.selection is None,
    ensures
        ({
            let at = state.insert.offset;
            let lines = match tool.text->0.layout {
                Some(layout) => layout.line_ranges@,
                None => seq![],
            };
            let (by_char, by_line) = if forward {
                (
                    tool.buffer_action(
                        state,
                        Action::MoveCursor,
                        ActionScope::ForwardChar,
                        move_length,
                    ),
                    tool.buffer_action(
                        state,
                        Action::MoveCursor,
                        ActionScope::ForwardLineAndWord,
                        move_length,
                    ),
                )
            } else {
                (
                    tool.buffer_action(
                        state,
                        Action::MoveCursor,
                        ActionScope::BackwardChar,
                        move_length,
                    ),
                    tool.buffer_action(
                        state,
                        Action::MoveCursor,
                        ActionScope::BackwardLineAndWord,
                        move_length,
                    ),
                )
            };
            let (motion, offset) = if forward {
                (Motion::ForwardChar, offset_below(state.text@, lines, at as int))
            } else {
                (Motion::BackwardChar, offset_above(state.text@, lines, at as int))
            };
            &&& finds(by_char, tool, at, motion)
            &&& goes_there(tool, state, by_char.0, place, reached)
            &&& finds(by_line, tool, at, Motion::SetOffset(clamp_i32(offset)))
            &&& goes_there(tool, state, by_line.0, place, reached)
        }),
{
}

/// The movements to the ends of the line and of the text, whether or not something is selected:
/// forward in one step, and back by characters to the beginning of the line, by lines to the
/// beginning of the text, and by one line from the beginning of a line.
pub proof fn law_moving_to_an_end<S: Scalar>(
    tool: TextTool<S>,
    state: BufferState,
    move_length: S,
    place: TextPoint,
    reached: TextPoint,
)
    requires
        tool.text is Some,
    ensures
        ({
            let at = state.insert.offset;
            let step = |scope: ActionScope|
                tool.buffer_action(state, Action::MoveCursor, scope, move_length);
            let line_end = step(ActionScope::ForwardLine);
            let text_end = step(ActionScope::BufferEnd);
            let line_start = step(ActionScope::BackwardLine);
            let text_start = step(ActionScope::BufferStart);
            &&& finds(line_end, tool, at, Motion::ForwardToLineEnd)
            &&& goes_there(tool, state, line_end.0, place, reached)
            &&& finds(text_end, tool, at, Motion::ForwardToEnd)
            &&& goes_there(tool, state, text_end.0, place, reached)
            &&& state.insert.starts_line ==> finds(line_start, tool, at, Motion::BackwardLine)
                && goes_there(tool, state, line_start.0, place, reached)
            &&& !state.insert.starts_line ==> finds(line_start, tool, at, Motion::BackwardChar) && (
            if place.starts_line {
                goes_there(tool, state, line_start.0, place, reached)
            } else {
                finds(
                    line_start.0.resumed(Reply::Point(place)),
                    tool,
                    place.offset,
                    Motion::BackwardChar,
                )
            })
            &&& !state.insert.is_start ==> finds(text_start, tool, at, Motion::BackwardLine) && (
            if place.is_start {
                goes_there(tool, state, text_start.0, place, reached)
            } else {
                finds(
                    text_start.0.resumed(Reply::Point(place)),
                    tool,
                    place.offset,
                    Motion::BackwardLine,
                )
            })
            &&& state.insert.is_start ==> text_start.1 == Outcome::<S>::Buffer(
                tool.text->0.buffer,
                Request::ClearSelection,
            ) && text_start.0.resumed(Reply::Done).1 == Outcome::<S>::Buffer(
                tool.text->0.buffer,
                Request::PlaceCursor { at },
            )
        }),
{
}

/// Scopes that name no movement leave the cursor where it is, with nothing selected.
pub proof fn law_moving_nowhere<S: Scalar>(
    tool: TextTool<S>,
    state: BufferState,
    move_length: S,
    scope: ActionScope,
)
    requires
        tool.text is Some,
        scope is SelectAll || scope is Left || scope is Right || scope is Up || scope is Down
            || scope is Nothing,
    ensures
        ({
            let buffer = tool.text->0.buffer;
            let (first, clearing) = tool.buffer_action(
                state,
                Action::MoveCursor,
                scope,
                move_length,
            );
            &&& clearing == Outcome::<S>::Buffer(buffer, Request::ClearSelection)
            &&& first.resumed(Reply::Done).1 == Outcome::<S>::Buffer(
                buffer,
                Request::PlaceCursor { at: state.insert.offset },
            )
        }),
{
}

/// The end of the selection that moves: that at which the cursor is not.
pub open spec fn loose_end(state: BufferState) -> TextPoint {
    match state.selection {
        None => state.insert,
        Some((start, end)) => if state.insert.offset == start.offset {
            end
        } else {
            start
        },
    }
}

/// The end of the selection that stays.
pub open spec fn fixed_end(state: BufferState) -> TextPoint {
    match state.selection {
        None => state.insert,
        Some((start, end)) => if state.insert.offset == start.offset {
            start
        } else {
            end
        },
    }
}

/// Selecting moves the loose end of the selection by a character, a word, a drawn line, or to an
/// end of its line; the other end stays.
pub proof fn law_selecting_moves_the_loose_end<S: Scalar>(
    tool: TextTool<S>,
    state: BufferState,
    move_length: S,
    forward: bool,
    place: TextPoint,
)
    requires
        tool.text is Some,
    ensures
        ({
            let (anchor, loose) = (fixed_end(state).offset, loose_end(state));
            let lines = match tool.text->0.layout {
                Some(layout) => layout.line_ranges@,
                None => seq![],
            };
            let step = |scope: ActionScope|
                tool.buffer_action(state, Action::Select, scope, move_length);
            let by_char = step(
                if forward {
                    ActionScope::ForwardChar
                } else {
                    ActionScope::BackwardChar
                },
            );
            let by_word = step(
                if forward {
                    ActionScope::ForwardWord
                } else {
                    ActionScope::BackwardWord
                },
            );
            let by_line = step(
                if forward {
                    ActionScope::ForwardLineAndWord
                } else {
                    ActionScope::BackwardLineAndWord
                },
            );
            let line_end = step(ActionScope::ForwardLine);
            let line_start = step(ActionScope::BackwardLine);
            let (char_motion, word_motion, offset) = if forward {
                (
                    Motion::ForwardChar,
                    Motion::ForwardWordEnd,
                    offset_below(state.text@, lines, loose.offset as int),
                )
            } else {
                (
                    Motion::BackwardChar,
                    Motion::BackwardWordStart,
                    offset_above(state.text@, lines, loose.offset as int),
                )
            };
            &&& finds(by_char, tool, loose.offset, char_motion)
            &&& selects_to(tool, anchor, by_char.0, place)
            &&& finds(by_word, tool, loose.offset, word_motion)
            &&& selects_to(tool, anchor, by_word.0, place)
            &&& finds(by_line, tool, loose.offset, Motion::SetOffset(clamp_i32(offset)))
            &&& selects_to(tool, anchor, by_line.0, place)
            &&& finds(line_end, tool, loose.offset, Motion::ForwardToLineEnd)
            &&& selects_to(tool, anchor, line_end.0, place)
            &&& loose.starts_line ==> finds(line_start, tool, loose.offset, Motion::BackwardLine)
                && selects_to(tool, anchor, line_start.0, place)
            &&& !loose.starts_line ==> finds(
                line_start,
                tool,
                loose.offset,
                Motion::BackwardChar,
            ) && (if place.starts_line {
                selects_to(tool, anchor, line_start.0, place)
            } else {
                finds(
                    line_start.0.resumed(Reply::Point(place)),
                    tool,
                    place.offset,
                    Motion::BackwardChar,
                )
            })
        }),
{
}

/// Selecting everything asks for that, and scopes that a selection does not know leave it as it is.
pub proof fn law_selecting_everything_or_nothing_more<S: Scalar>(
    tool: TextTool<S>,
    state: BufferState,
    move_length: S,
    scope: ActionScope,
)
    requires
        tool.text is Some,
        scope is SelectAll || scope is BufferStart || scope is BufferEnd || scope is Left
            || scope is Right || scope is Up || scope is Down || scope is Nothing,
    ensures
        ({
            let (asked, selecting) = tool.buffer_action(
                state,
                Action::Select,
                scope,
                move_length,
            );
            let request = if scope is SelectAll {
                Request::SelectAll
            } else {
                Request::Select {
                    insert: fixed_end(state).offset,
                    bound: loose_end(state).offset,
                }
            };
            &&& selecting == Outcome::<S>::Buffer(tool.text->0.buffer, request)
            &&& asked.resumed(Reply::Done).1 == Outcome::<S>::Done(
                ToolUpdateResult::RedrawAndStopPropagation,
            )
        }),
{
}

/// Deleting without a selection finds the place up to which it deletes, by a character or a word
/// from the cursor, and deletes what is between the cursor and that place. The event is answered by
/// whether anything was deleted.
pub proof fn law_deleting_up_to_a_place<S: Scalar>(
    tool: TextTool<S>,
    state: BufferState,
    move_length: S,
    scope: ActionScope,
    place: TextPoint,
    deleted: bool,
)
    requires
        tool.text is Some,
        state.selection is None,
    ensures
        ({
            let buffer = tool.text->0.buffer;
            let at = state.insert.offset;
            let motion = match scope {
                ActionScope::ForwardChar => Some(Motion::ForwardChar),
                ActionScope::BackwardChar => Some(Motion::BackwardChar),
                ActionScope::ForwardWord => Some(Motion::ForwardWordEnd),
                ActionScope::BackwardWord => Some(Motion::BackwardWordStart),
                _ => None,
            };
            let first = tool.buffer_action(state, Action::Delete, scope, move_length);
            let (second, end) = if motion is Some {
                (first.0.resumed(Reply::Point(place)), place.offset)
            } else {
                (first, at)
            };
            &&& motion matches Some(m) ==> finds(first, tool, at, m)
            &&& second.1 == Outcome::<S>::Buffer(buffer, Request::Delete { start: at, end })
            &&& second.0.resumed(Reply::Flag(deleted)).1 == Outcome::<S>::Done(
                if deleted {
                    ToolUpdateResult::RedrawAndStopPropagation
                } else {
                    ToolUpdateResult::StopPropagation
                },
            )
            &&& second.0.resumed(Reply::Flag(deleted)).0.text == tool.text
        }),
{
}

/// Where a movement by steps goes on: to the beginning of the line by characters, and to that of
/// the text by lines, until it is there.
pub proof fn law_goals(place: TextPoint)
    ensures
        Goal::Once.spec_next(place) is None,
        place.starts_line ==> Goal::LineStart.spec_next(place) is None,
        !place.starts_line ==> Goal::LineStart.spec_next(place) == Some(Motion::BackwardChar),
        place.is_start ==> Goal::BufferStart.spec_next(place) is None,
        !place.is_start ==> Goal::BufferStart.spec_next(place) == Some(Motion::BackwardLine),
{
}

/// In every number type, the text as a whole moves by the length in the direction of the arrow,
/// which is one for a nudge. Without a direction or a length it does not move, and nothing is
/// drawn.
pub proof fn law_moving_the_text<S: Scalar>(
    tool: TextTool<S>,
    state: BufferState,
    move_length: S,
    scope: ActionScope,
    nudge: bool,
)
    requires
        tool.text is Some,
    ensures
        ({
            let action = if nudge {
                Action::NudgeOrigin
            } else {
                Action::MoveOrigin
            };
            let zero = S::spec_from_int(0);
            let length = if nudge {
                S::spec_from_int(1)
            } else {
                move_length
            };
            let by = match scope {
                ActionScope::Left => (length.spec_negated(), zero),
                ActionScope::Right => (length, zero),
                ActionScope::Up => (zero, length.spec_negated()),
                ActionScope::Down => (zero, length),
                _ => (zero, zero),
            };
            let pos = tool.text->0.pos;
            let (after, outcome) = tool.buffer_action(state, action, scope, move_length);
            if by.0.spec_same(zero) && by.1.spec_same(zero) {
                &&& after.text == tool.text
                &&& outcome == Outcome::<S>::Done(ToolUpdateResult::StopPropagation)
            } else {
                &&& after.text->0.pos == (Vec2D {
                    x: pos.x.spec_plus(by.0),
                    y: pos.y.spec_plus(by.1),
                })
                &&& outcome == Outcome::<S>::Done(ToolUpdateResult::RedrawAndStopPropagation)
            }
        }),
{
}

/// In whole pixels, the text as a whole moves by exactly the configured length, left or right, up
/// or down, and by nothing in the other coordinate.
pub proof fn law_moving_the_text_by_pixels(
    tool: TextTool<i64>,
    state: BufferState,
    move_length: i64,
    forward: bool,
    horizontal: bool,
)
    requires
        tool.text is Some,
        -EXACT <= tool.text->0.pos.x <= EXACT,
        -EXACT <= tool.text->0.pos.y <= EXACT,
        -EXACT <= move_length <= EXACT,
    ensures
        ({
            let scope = match (forward, horizontal) {
                (true, true) => ActionScope::Right,
                (false, true) => ActionScope::Left,
                (true, false) => ActionScope::Down,
                (false, false) => ActionScope::Up,
            };
            let before = tool.text->0.pos;
            let after = tool.buffer_action(state, Action::MoveOrigin, scope, move_length).0.text->0
                .pos;
            let step = if forward {
                move_length as int
            } else {
                -move_length
            };
            &&& horizontal ==> after.x - before.x == step && after.y == before.y
            &&& !horizontal ==> after.y - before.y == step && after.x == before.x
        }),
{
}

// ---------------------------------------------------------------------------------------------
// Keys

/// The modifiers with which exactly these are set.
pub open spec fn keys_held(shift: bool, control: bool, alt: bool) -> Modifiers {
    Modifiers { shift, control, alt, other: false }
}

/// What the arrow keys to the left and to the right do: Control is for words, Shift selects, both
/// together select words, Control and Alt move the text as a whole, with Shift by a nudge, and Alt
/// alone is for others. With any other modifiers they move by a character.
pub proof fn law_arrow_keys_sideways(event: KeyEventMsg, right: bool)
    requires
        event.key == (if right {
            Key::Right
        } else {
            Key::Left
        }),
    ensures
        ({
            let m = event.modifier;
            let (char, word, side) = if right {
                (ActionScope::ForwardChar, ActionScope::ForwardWord, ActionScope::Right)
            } else {
                (ActionScope::BackwardChar, ActionScope::BackwardWord, ActionScope::Left)
            };
            let command = key_command(event);
            &&& m == keys_held(false, false, true) ==> command == KeyCommand::PassOn
            &&& m == keys_held(false, true, false) ==> command == KeyCommand::Edit(
                Action::MoveCursor,
                word,
            )
            &&& m == keys_held(true, false, false) ==> command == KeyCommand::Edit(
                Action::Select,
                char,
            )
            &&& m == keys_held(true, true, false) ==> command == KeyCommand::Edit(
                Action::Select,
                word,
            )
            &&& m == keys_held(false, true, true) ==> command == KeyCommand::Edit(
                Action::MoveOrigin,
                side,
            )
            &&& m == keys_held(true, true, true) ==> command == KeyCommand::Edit(
                Action::NudgeOrigin,
                side,
            )
            &&& m.other || m == keys_held(false, false, false) || m == keys_held(true, false, true)
                ==> command == KeyCommand::Edit(Action::MoveCursor, char)
        }),
{
}

/// What the arrow keys up and down do: as those to the sides do, but by drawn lines.
pub proof fn law_arrow_keys_up_and_down(event: KeyEventMsg, down: bool)
    requires
        event.key == (if down {
            Key::Down
        } else {
            Key::Up
        }),
    ensures
        ({
            let m = event.modifier;
            let (line, side) = if down {
                (ActionScope::ForwardLineAndWord, ActionScope::Down)
            } else {
                (ActionScope::BackwardLineAndWord, ActionScope::Up)
            };
            let command = key_command(event);
            &&& m == keys_held(false, false, true) ==> command == KeyCommand::PassOn
            &&& m == keys_held(true, false, false) || m == keys_held(true, true, false) ==> command
                == KeyCommand::Edit(Action::Select, line)
            &&& m == keys_held(false, true, true) ==> command == KeyCommand::Edit(
                Action::MoveOrigin,
                side,
            )
            &&& m == keys_held(true, true, true) ==> command == KeyCommand::Edit(
                Action::NudgeOrigin,
                side,
            )
            &&& m.other || m == keys_held(false, false, false) || m == keys_held(true, false, true)
                || m == keys_held(false, true, false) ==> command == KeyCommand::Edit(
                Action::MoveCursor,
                line,
            )
        }),
{
}

/// What Home and End do: Control is for the text, Shift selects to the end of the line, and with
/// any other modifiers they go to the end of the line.
pub proof fn law_home_and_end(event: KeyEventMsg, end: bool)
    requires
        event.key == (if end {
            Key::End
        } else {
            Key::Home
        }),
    ensures
        ({
            let m = event.modifier;
            let (line, text) = if end {
                (ActionScope::ForwardLine, ActionScope::BufferEnd)
            } else {
                (ActionScope::BackwardLine, ActionScope::BufferStart)
            };
            let command = key_command(event);
            let (control, shift) = (keys_held(false, true, false), keys_held(true, false, false));
            &&& m == control ==> command == KeyCommand::Edit(Action::MoveCursor, text)
            &&& m == shift ==> command == KeyCommand::Edit(Action::Select, line)
            &&& m != control && m != shift ==> command == KeyCommand::Edit(Action::MoveCursor, line)
        }),
{
}

/// What Backspace and Delete do: they delete back and forward, with Control by a word, and with any
/// other modifiers by a character.
pub proof fn law_deleting_keys(event: KeyEventMsg, forward: bool)
    requires
        event.key == (if forward {
            Key::Delete
        } else {
            Key::BackSpace
        }),
    ensures
        ({
            let (char, word) = if forward {
                (ActionScope::ForwardChar, ActionScope::ForwardWord)
            } else {
                (ActionScope::BackwardChar, ActionScope::BackwardWord)
            };
            let scope = if event.modifier == keys_held(false, true, false) {
                word
            } else {
                char
            };
            key_command(event) == KeyCommand::Edit(Action::Delete, scope)
        }),
{
}

/// What the other keys do: Return breaks the line with Shift and else finishes the text, Escape
/// gives it up, Control and A select everything, Control and C copy, Control and X cut, V always
/// pastes, and Shift and Insert paste what was selected last.
pub proof fn law_other_keys(event: KeyEventMsg)
    ensures
        ({
            let command = key_command(event);
            let control = event.modifier == keys_held(false, true, false);
            let shift = event.modifier == keys_held(true, false, false);
            match event.key {
                Key::Return => command == (if shift {
                    KeyCommand::Newline
                } else {
                    KeyCommand::Finish
                }),
                Key::Escape => command == KeyCommand::Dismiss,
                Key::AltL | Key::AltR => command == KeyCommand::AltDown,
                Key::LowerA | Key::UpperA => command == (if control {
                    KeyCommand::Edit(Action::Select, ActionScope::SelectAll)
                } else {
                    KeyCommand::Swallow
                }),
                Key::LowerC | Key::UpperC => command == (if control {
                    KeyCommand::Copy
                } else {
                    KeyCommand::PassOn
                }),
                Key::LowerX | Key::UpperX => command == (if control {
                    KeyCommand::Cut
                } else {
                    KeyCommand::Swallow
                }),
                Key::LowerV | Key::UpperV => command == KeyCommand::Paste(Clipboard::Standard),
                Key::Insert => command == (if shift {
                    KeyCommand::Paste(Clipboard::Primary)
                } else {
                    KeyCommand::Swallow
                }),
                Key::Other => command == KeyCommand::PassOn,
                _ => command is Edit || command is PassOn,
            }
        }),
{
}

/// A key that is for nobody here changes nothing of the text and asks for nothing; it is swallowed
/// or passed on. So is Control and X with nothing selected.
pub proof fn law_keys_without_effect<S: Scalar>(
    tool: TextTool<S>,
    event: KeyEventMsg,
    state: BufferState,
    move_length: S,
)
    requires
        tool.text is Some,
        key_command(event) is Swallow || key_command(event) is PassOn || (key_command(event) is Cut
            && state.selection is None),
    ensures
        ({
            let (after, outcome) = tool.key_event(event, state, move_length);
            &&& after.text == tool.text
            &&& outcome == Outcome::<S>::Done(
                if key_command(event) is PassOn {
                    ToolUpdateResult::Unmodified
                } else {
                    ToolUpdateResult::StopPropagation
                },
            )
        }),
{
}

/// A press of Alt is swallowed and remembered, where there is a text. Any other key makes the tool
/// forget it, and without a text nothing is remembered that was not.
pub proof fn law_remembering_alt<S: Scalar>(
    tool: TextTool<S>,
    event: KeyEventMsg,
    state: BufferState,
    move_length: S,
)
    ensures
        ({
            let after = tool.key_event(event, state, move_length).0;
            let alt = event.key == Key::AltL || event.key == Key::AltR;
            &&& alt && tool.text is Some ==> after.alt_tap
            &&& alt && tool.text is None ==> after.alt_tap == tool.alt_tap
            &&& !alt ==> !after.alt_tap
        }),
{
}

/// The release of a key does nothing but where it ends a tap on Alt, and then the tap is over.
pub proof fn law_releasing_a_key<S: Scalar>(tool: TextTool<S>, event: KeyEventMsg)
    ensures
        ({
            let (after, result) = tool.key_release(event);
            let alt = event.key == Key::AltL || event.key == Key::AltR;
            &&& !alt || !tool.alt_tap ==> after == tool && result == ToolUpdateResult::<
                Text<S>,
            >::Unmodified
            &&& alt && tool.alt_tap ==> !after.alt_tap
            &&& alt && tool.alt_tap && tool.text is None ==> after.text is None && result
                == ToolUpdateResult::<Text<S>>::Unmodified
            &&& alt && tool.alt_tap && tool.text is Some ==> result == ToolUpdateResult::<
                Text<S>,
            >::RedrawAndStopPropagation && after.text == Some(
                (Text { effect: tool.text->0.effect.spec_next(), ..tool.text->0 }),
            )
        }),
{
}

// ---------------------------------------------------------------------------------------------
// Input methods, styles and the history

/// What is being composed replaces what was, and is shown.
pub proof fn law_composing<S: Scalar>(
    tool: TextTool<S>,
    preedit: Preedit,
    state: BufferState,
)
    requires
        tool.text is Some,
        preedit.text@.len() > 0,
    ensures
        ({
            let event = TextEventMsg::Preedit {
                text: preedit.text,
                cursor_chars: preedit.cursor_chars,
                spans: preedit.spans,
            };
            let (after, outcome) = tool.text_event(event, state);
            &&& after.text == Some((Text { preedit: Some(preedit), ..tool.text->0 }))
            &&& outcome == Outcome::<S>::Done(ToolUpdateResult::Redraw)
        }),
{
}

/// The end of a composition changes nothing of the text but that.
pub proof fn law_end_of_a_composition<S: Scalar>(tool: TextTool<S>, state: BufferState)
    requires
        tool.text is Some,
    ensures
        tool.text_event(TextEventMsg::PreeditEnd, state).0.text == Some(
            (Text { preedit: None, ..tool.text->0 }),
        ),
{
}

/// A style is for the text that is being edited and for those to come; so is an input method.
pub proof fn law_style_and_input_method<S: Scalar>(
    tool: TextTool<S>,
    style: Style,
    context: Option<InputContext>,
)
    ensures
        ({
            let (styled, result) = tool.styled(style);
            let listening = tool.with_im_context(context);
            &&& styled.style == style && listening.im_context == context
            &&& styled.im_context == tool.im_context && listening.style == tool.style
            &&& tool.text is None ==> styled.text is None && listening.text is None && result
                == ToolUpdateResult::<Text<S>>::Unmodified
            &&& tool.text matches Some(text) ==> {
                &&& styled.text == Some((Text { style, ..text }))
                &&& listening.text == Some((Text { im_context: context, ..text }))
                &&& result == ToolUpdateResult::<Text<S>>::Redraw
            }
        }),
{
}

/// A step through the history is left to the buffer of the text, and the text is drawn again.
pub proof fn law_history<S: Scalar>(tool: TextTool<S>, request: Request)
    requires
        tool.text is Some,
    ensures
        ({
            let (asked, asking) = tool.history_step(request);
            let (after, outcome) = asked.resumed(Reply::Done);
            &&& asking == Outcome::<S>::Buffer(tool.text->0.buffer, request)
            &&& outcome == Outcome::<S>::Done(ToolUpdateResult::Redraw)
            &&& after == (TextTool { pending: None, ..tool })
        }),
{
}

// ---------------------------------------------------------------------------------------------
// The mouse

/// The mouse is on the text where it is in the rectangle that the text was drawn in.
pub proof fn law_mouse_on_the_text<S: Scalar>(tool: TextTool<S>, pos: Vec2D<S>)
    ensures
        tool.text_at(pos) <==> tool.text is Some && tool.text->0.layout is Some && points_at(
            tool.text->0.layout->0.rect,
            pos,
        ),
{
}

/// What the mouse does that asks for nothing. The beginning of a drag is remembered, and so is that
/// a drag goes on until it ends. On the text, the beginning and the end of a drag are swallowed,
/// and beside it they are passed on. A drag of the primary button beside the text is swallowed, and
/// one of another button is passed on. All other events do nothing.
pub proof fn law_mouse_without_the_buffer<S: Scalar>(
    tool: TextTool<S>,
    event: MouseEventMsg<S>,
    state: BufferState,
)
    ensures
        ({
            let (after, outcome) = tool.mouse_event(event, state);
            let primary = event.button == MouseButton::Primary;
            let on_text = Outcome::<S>::Done(
                if tool.text_at(event.pos) {
                    ToolUpdateResult::StopPropagation
                } else {
                    ToolUpdateResult::Unmodified
                },
            );
            let passed_on = Outcome::<S>::Done(ToolUpdateResult::Unmodified);
            let pos = Vec2D {
                x: tool.drag_start_pos.x.spec_plus(event.pos.x),
                y: tool.drag_start_pos.y.spec_plus(event.pos.y),
            };
            match event.type_ {
                MouseEventType::BeginDrag => after == (TextTool {
                    drag_start_pos: event.pos,
                    pending: None,
                    ..tool
                }) && outcome == on_text,
                MouseEventType::EndDrag => after == (TextTool {
                    dragged: false,
                    pending: None,
                    ..tool
                }) && outcome == on_text,
                MouseEventType::UpdateDrag => {
                    &&& after.dragged && after.text == tool.text
                    &&& after.drag_start_pos == tool.drag_start_pos
                    &&& !primary ==> outcome == passed_on
                    &&& primary && !tool.text_at(pos) ==> outcome == Outcome::<S>::Done(
                        ToolUpdateResult::StopPropagation,
                    )
                },
                MouseEventType::Click => !primary ==> after == (TextTool { pending: None, ..tool })
                    && outcome == passed_on,
                MouseEventType::Release => event.button != MouseButton::Middle ==> after == (
                TextTool { pending: None, ..tool }) && outcome == passed_on,
                MouseEventType::Other => after == (TextTool { pending: None, ..tool }) && outcome
                    == passed_on,
            }
        }),
{
}

/// A drag over the text looks for the place that is pointed at from where the drag began.
pub proof fn law_drag_looks_for_its_place<S: Scalar>(
    tool: TextTool<S>,
    event: MouseEventMsg<S>,
    state: BufferState,
)
    requires
        event.type_ == MouseEventType::UpdateDrag,
        event.button == MouseButton::Primary,
    ensures
        ({
            let pos = Vec2D {
                x: tool.drag_start_pos.x.spec_plus(event.pos.x),
                y: tool.drag_start_pos.y.spec_plus(event.pos.y),
            };
            let offset = tool.text->0.layout->0.spec_drag_offset(pos);
            tool.text_at(pos) ==> {
                &&& tool.can_locate(event) <==> offset is Some
                &&& offset is Some ==> finds(
                    tool.mouse_event(event, state),
                    tool,
                    state.insert.offset,
                    Motion::SetOffset(offset->0),
                )
            }
        }),
{
}

/// Only clicks and drags of the primary button have to be told where they go, and only on the text.
/// A click can be told that exactly if it has an offset, and all else can always be handled.
pub proof fn law_what_can_be_located<S: Scalar>(tool: TextTool<S>, event: MouseEventMsg<S>)
    ensures
        ({
            let dragged = event.type_ == MouseEventType::UpdateDrag;
            let clicked = event.type_ == MouseEventType::Click;
            let pos = if dragged {
                Vec2D {
                    x: tool.drag_start_pos.x.spec_plus(event.pos.x),
                    y: tool.drag_start_pos.y.spec_plus(event.pos.y),
                }
            } else {
                event.pos
            };
            &&& event.button != MouseButton::Primary ==> tool.can_locate(event)
            &&& !clicked && !dragged ==> tool.can_locate(event)
            &&& !tool.text_at(pos) ==> tool.can_locate(event)
            &&& clicked && event.button == MouseButton::Primary && tool.text_at(pos) ==> (
            tool.can_locate(event)
                <==> tool.text->0.layout->0.spec_click_offset(event.pos) is Some)
        }),
{
}

/// The offsets that clicks and drags go to are those of the characters that are pointed at, as far
/// as there are such offsets.
pub proof fn law_offsets_of_the_mouse<S: Scalar>(
    layout: TextLayout,
    pos: Vec2D<S>,
    n: int,
)
    requires
        0 <= n <= i32::MAX,
    ensures
        click_offset_from(layout.glyphs@, pos, 0, 0) == Some(n)
            ==> layout.spec_click_offset(pos) == Some(n as i32),
        drag_offset_from(layout.glyphs@, pos, 0, 0) == Some(n)
            ==> layout.spec_drag_offset(pos) == Some(n as i32),
        click_offset_from(layout.glyphs@, pos, 0, 0) is None
            ==> layout.spec_click_offset(pos) is None,
        drag_offset_from(layout.glyphs@, pos, 0, 0) is None
            ==> layout.spec_drag_offset(pos) is None,
{
}

// ---------------------------------------------------------------------------------------------
// Going on

/// Whether an outcome is of the kind that the tool waits for.
pub open spec fn awaited<S>(pending: Pending<S>, reply: Reply) -> bool {
    match pending {
        Pending::Finish(_)
        | Pending::CursorCleared { .. }
        | Pending::Cut { .. }
        | Pending::Commit { .. } => reply is Done,
        Pending::Delete { .. }
        | Pending::OpenPaste { .. }
        | Pending::OpenCopy { .. } => reply is Flag,
        Pending::Opening { .. } => reply is Buffer,
        _ => reply is Point,
    }
}

/// An outcome that was not asked for ends the matter: nothing is changed, and the event is passed
/// on.
pub proof fn law_unasked_outcomes<S: Scalar>(tool: TextTool<S>, reply: Reply)
    requires
        tool.pending is None || !awaited((tool.pending->0).1, reply),
    ensures
        tool.resumed(reply) == (
            (TextTool { pending: None, ..tool }),
            Outcome::<S>::Done(ToolUpdateResult::Unmodified),
        ),
{
}

/// The last thing that is done is answered by what was decided before.
pub proof fn law_last_outcome<S: Scalar>(
    tool: TextTool<S>,
    buffer: u64,
    result: ToolUpdateResult<Text<S>>,
)
    requires
        tool.pending == Some((buffer, Pending::Finish(result))),
    ensures
        tool.resumed(Reply::Done) == (
            (TextTool { pending: None, ..tool }),
            Outcome::<S>::Done(result),
        ),
{
}

/// Whether two states of the tool have the same settings, and know the same of the mouse.
pub open spec fn same_settings<S>(a: TextTool<S>, b: TextTool<S>) -> bool {
    &&& a.style == b.style
    &&& a.sender == b.sender
    &&& a.im_context == b.im_context
    &&& a.drag_start_pos == b.drag_start_pos
    &&& a.dragged == b.dragged
}

/// Keys, input methods, leaving the tool, the history and the outcomes of what was asked for leave
/// the settings of the tool alone, and what it knows of the mouse.
pub proof fn law_settings_stay<S: Scalar>(
    tool: TextTool<S>,
    key: KeyEventMsg,
    typed: TextEventMsg,
    request: Request,
    reply: Reply,
    state: BufferState,
    move_length: S,
)
    ensures
        same_settings(tool.key_event(key, state, move_length).0, tool),
        same_settings(tool.key_release(key).0, tool),
        same_settings(tool.text_event(typed, state).0, tool),
        same_settings(tool.deactivated(state).0, tool),
        same_settings(tool.history_step(request).0, tool),
        same_settings(tool.resumed(reply).0, tool),
{
}

/// Whether a text is the same but for its place, its effect and what is being composed.
pub open spec fn same_text<S>(a: Text<S>, b: Text<S>) -> bool {
    a == (Text { pos: a.pos, effect: a.effect, preedit: a.preedit, ..b })
}

/// Whatever key is pressed, the text that is being edited stays the same text, but for where it is,
/// unless it is finished or given up.
pub proof fn law_keys_keep_the_text<S: Scalar>(
    tool: TextTool<S>,
    event: KeyEventMsg,
    state: BufferState,
    move_length: S,
)
    requires
        tool.text is Some,
    ensures
        ({
            let after = tool.key_event(event, state, move_length).0;
            if event.key == Key::Escape || (event.key == Key::Return && event.modifier != keys_held(
                true,
                false,
                false,
            )) {
                after.text is None && !after.input_enabled
            } else {
                &&& after.text is Some && same_text(after.text->0, tool.text->0)
                &&& after.text->0.effect == tool.text->0.effect
                &&& after.text->0.preedit == tool.text->0.preedit
                &&& after.input_enabled == tool.input_enabled
            }
        }),
{
    let command = key_command(event);
    if command is Edit {
        let start = TextTool { alt_tap: false, ..tool };
        lemma_actions_keep_the_text(
            start,
            state,
            command->Edit_0,
            command->Edit_1,
            move_length,
        );
    }
}

proof fn lemma_actions_keep_the_text<S: Scalar>(
    tool: TextTool<S>,
    state: BufferState,
    action: Action,
    scope: ActionScope,
    move_length: S,
)
    requires
        tool.text is Some,
    ensures
        ({
            let after = tool.buffer_action(state, action, scope, move_length).0;
            &&& after.text == Some((Text { pos: after.text->0.pos, ..tool.text->0 }))
            &&& after.input_enabled == tool.input_enabled
        }),
{
}

/// What an input method tells changes nothing of the text but what is being composed.
pub proof fn law_input_methods_keep_the_text<S: Scalar>(
    tool: TextTool<S>,
    event: TextEventMsg,
    state: BufferState,
)
    requires
        tool.text is Some,
    ensures
        ({
            let after = tool.text_event(event, state).0;
            &&& after.text == Some((Text { preedit: after.text->0.preedit, ..tool.text->0 }))
            &&& after.input_enabled == tool.input_enabled
        }),
{
}

/// The outcomes of what was asked for change nothing of the text but that the text of an input
/// method takes the place of what was being composed, and that a new buffer begins a new text.
pub proof fn law_outcomes_keep_the_text<S: Scalar>(tool: TextTool<S>, reply: Reply)
    requires
        !(reply is Buffer),
    ensures
        ({
            let after = tool.resumed(reply).0;
            let inserting = tool.pending is Some && (tool.pending->0).1 is Delete && (
            tool.pending->0).1->Delete_after is CommitText && reply is Flag;
            &&& after.input_enabled == tool.input_enabled
            &&& after.text == (match tool.text {
                Some(text) if inserting => Some((Text { preedit: None, ..text })),
                _ => tool.text,
            })
        }),
{
}

} // verus!
