//! What editing comes to, on a buffer that does what it is asked.

use vstd::prelude::*;

use super::buffer::{
    cursor_motion, offset_above, offset_below, Action, ActionScope, BufferState, Goal, Motion,
    Reply, Request, TextPoint,
};
use super::content::Text;
use super::keys::{key_command, KeyCommand};
use super::shown_laws::law_vertical_steps_stay_in_the_text;
use super::steps::{
    finished_text, selection_exit, Outcome, Pending, TextEventMsg, TextTool,
};
use crate::scalar::Scalar;
use crate::sketch_board::{
    Key, KeyEventMsg, MouseButton, MouseEventMsg, MouseEventType, ToolUpdateResult,
};

verus! {

/// A buffer: its characters, its cursor, and the other end of what is selected, which is where the
/// cursor is if nothing is.
#[verifier::ext_equal]
pub struct BufferModel {
    pub text: Seq<char>,
    pub insert: int,
    pub bound: int,
}

/// Where a place is after the characters from `low` up to, but without, `high` were deleted.
pub open spec fn after_deletion(place: int, low: int, high: int) -> int {
    if place <= low {
        place
    } else if place >= high {
        place - (high - low)
    } else {
        low
    }
}

/// Where a place is after `count` characters were inserted at `at`: what is there goes behind them.
pub open spec fn after_insertion(place: int, at: int, count: int) -> int {
    if place >= at {
        place + count
    } else {
        place
    }
}

/// Where the line begins that the place is in. A line ends with a line break.
pub open spec fn line_start(text: Seq<char>, place: int) -> int
    decreases place,
{
    if place <= 0 || text[place - 1] == '\n' {
        place
    } else {
        line_start(text, place - 1)
    }
}

/// Where the line ends that the place is in: before its line break.
pub open spec fn line_end(text: Seq<char>, place: int) -> int
    decreases text.len() - place,
{
    if place >= text.len() || text[place] == '\n' {
        place
    } else {
        line_end(text, place + 1)
    }
}

impl BufferModel {
    /// Whether the cursor and the other end are places in the text, and every place has an offset.
    pub open spec fn wf(self) -> bool {
        0 <= self.insert <= self.text.len() && 0 <= self.bound <= self.text.len()
            && self.text.len() < i32::MAX
    }

    /// The first of the two ends of what is selected.
    pub open spec fn low(self) -> int {
        if self.insert <= self.bound {
            self.insert
        } else {
            self.bound
        }
    }

    /// The second of the two ends of what is selected.
    pub open spec fn high(self) -> int {
        if self.insert <= self.bound {
            self.bound
        } else {
            self.insert
        }
    }

    /// The place with the given offset.
    pub open spec fn point(self, offset: int) -> TextPoint {
        TextPoint {
            offset: offset as i32,
            starts_line: offset == 0 || self.text[offset - 1] == '\n',
            is_start: offset == 0,
        }
    }

    /// Whether `state` is the state of the buffer.
    pub open spec fn has_state(self, state: BufferState) -> bool {
        &&& state.text@ == self.text
        &&& state.insert == self.point(self.insert)
        &&& state.selection == (if self.insert == self.bound {
            None
        } else {
            Some((self.point(self.low()), self.point(self.high())))
        })
    }

    /// The text with other characters in the place of those that are selected.
    pub open spec fn replaced(self, with: Seq<char>) -> Seq<char> {
        self.text.take(self.low()) + with + self.text.skip(self.high())
    }

    pub open spec fn deleted(self, a: int, b: int) -> Self {
        let (low, high) = if a <= b {
            (a, b)
        } else {
            (b, a)
        };
        BufferModel {
            text: self.text.take(low) + self.text.skip(high),
            insert: after_deletion(self.insert, low, high),
            bound: after_deletion(self.bound, low, high),
        }
    }

    pub open spec fn inserted(self, chars: Seq<char>) -> Self {
        let (at, count) = (self.insert, chars.len() as int);
        BufferModel {
            text: self.text.take(at) + chars + self.text.skip(at),
            insert: after_insertion(self.insert, at, count),
            bound: after_insertion(self.bound, at, count),
        }
    }

    /// Where a movement leads. A step back by a line goes to the beginning of the line before, or
    /// of the text. The end of a line is that of the next one for a place that is at an end.
    pub open spec fn moved(self, from: int, motion: Motion) -> int {
        match motion {
            Motion::ForwardChar => if from < self.text.len() {
                from + 1
            } else {
                from
            },
            Motion::BackwardChar => if from > 0 {
                from - 1
            } else {
                from
            },
            Motion::ForwardToEnd => self.text.len() as int,
            Motion::SetOffset(offset) => if 0 <= offset <= self.text.len() {
                offset as int
            } else {
                self.text.len() as int
            },
            Motion::BackwardLine => {
                let start = line_start(self.text, from);
                if start > 0 {
                    line_start(self.text, start - 1)
                } else {
                    start
                }
            },
            Motion::ForwardToLineEnd => if from < self.text.len() && self.text[from] == '\n' {
                line_end(self.text, from + 1)
            } else {
                line_end(self.text, from)
            },
            _ => from,
        }
    }

    /// Whether a request is one of those whose effect is told here: movements by word are not, nor
    /// is the history.
    pub open spec fn knows(request: Request) -> bool {
        match request {
            Request::Move { motion, .. } => !(motion is ForwardWordEnd)
                && !(motion is BackwardWordStart),
            Request::Undo | Request::Redo => false,
            _ => true,
        }
    }

    /// The buffer after it has done what it was asked, and what it answers. What is copied stays,
    /// and what is pasted comes later.
    pub open spec fn performed(self, request: Request) -> (Self, Reply) {
        match request {
            Request::Move { from, motion } => (
                self,
                Reply::Point(self.point(self.moved(from as int, motion))),
            ),
            Request::Delete { start, end } => (
                self.deleted(start as int, end as int),
                Reply::Flag(start != end),
            ),
            Request::PlaceCursor { at } => (
                BufferModel { insert: at as int, bound: at as int, ..self },
                Reply::Point(self.point(at as int)),
            ),
            Request::Select { insert, bound } => (
                BufferModel { insert: insert as int, bound: bound as int, ..self },
                Reply::Done,
            ),
            Request::SelectAll => (
                BufferModel { insert: 0, bound: self.text.len() as int, ..self },
                Reply::Done,
            ),
            Request::ClearSelection => (BufferModel { insert: 0, bound: 0, ..self }, Reply::Done),
            Request::Insert(chars) => (self.inserted(chars@), Reply::Done),
            Request::InsertNewline => (self.inserted(seq!['\n']), Reply::Done),
            _ => (self, Reply::Done),
        }
    }
}

/// The tool, the answer to its event and the buffer, when the buffer has done up to `n` things that
/// it was asked.
pub open spec fn carried_out<S: Scalar>(
    step: (TextTool<S>, Outcome<S>),
    model: BufferModel,
    n: nat,
) -> (TextTool<S>, Outcome<S>, BufferModel)
    decreases n,
{
    match step.1 {
        Outcome::Buffer(_, request) if n > 0 && BufferModel::knows(request) => {
            let (after, reply) = model.performed(request);
            carried_out(step.0.resumed(reply), after, (n - 1) as nat)
        },
        _ => (step.0, step.1, model),
    }
}

/// Typing puts what was typed in the place of what was selected, and the cursor behind it.
pub proof fn law_typing<S: Scalar>(
    tool: TextTool<S>,
    model: BufferModel,
    state: BufferState,
    typed: String,
)
    requires
        tool.text is Some,
        model.wf(),
        model.has_state(state),
    ensures
        ({
            let (after, outcome, edited) = carried_out(
                tool.text_event(TextEventMsg::Commit(typed), state),
                model,
                3,
            );
            let cursor = model.low() + typed@.len();
            &&& outcome == Outcome::<S>::Done(ToolUpdateResult::Redraw)
            &&& edited == (BufferModel {
                text: model.replaced(typed@),
                insert: cursor,
                bound: cursor,
            })
            &&& after.text == Some((Text { preedit: None, ..tool.text->0 }))
        }),
{
    reveal_with_fuel(carried_out, 4);
    let (low, high) = (model.low(), model.high());
    let without = model.deleted(low, high);
    assert(without.insert == low && without.bound == low);
    assert(without.text.take(low) =~= model.text.take(low));
    assert(without.text.skip(low) =~= model.text.skip(high));
    assert(without.inserted(typed@).text =~= model.replaced(typed@));
}

/// Shift and Return put a line break in the place of what was selected, and the cursor behind it.
pub proof fn law_breaking_a_line<S: Scalar>(
    tool: TextTool<S>,
    model: BufferModel,
    state: BufferState,
    event: KeyEventMsg,
    move_length: S,
)
    requires
        tool.text is Some,
        model.wf(),
        model.has_state(state),
        event.key == Key::Return,
        event.modifier.spec_exactly(true, false, false),
    ensures
        ({
            let (after, outcome, edited) = carried_out(
                tool.key_event(event, state, move_length),
                model,
                3,
            );
            let cursor = model.low() + 1;
            &&& outcome == Outcome::<S>::Done(ToolUpdateResult::RedrawAndStopPropagation)
            &&& edited == (BufferModel {
                text: model.replaced(seq!['\n']),
                insert: cursor,
                bound: cursor,
            })
            &&& after.text == tool.text
        }),
{
    reveal_with_fuel(carried_out, 4);
    let (low, high) = (model.low(), model.high());
    let without = model.deleted(low, high);
    assert(without.insert == low && without.bound == low);
    assert(without.text.take(low) =~= model.text.take(low));
    assert(without.text.skip(low) =~= model.text.skip(high));
    assert(without.inserted(seq!['\n']).text =~= model.replaced(seq!['\n']));
}

/// Backspace and Delete delete what is selected.
pub proof fn law_deleting_a_selection<S: Scalar>(
    tool: TextTool<S>,
    model: BufferModel,
    state: BufferState,
    scope: ActionScope,
    move_length: S,
)
    requires
        tool.text is Some,
        model.wf(),
        model.has_state(state),
        model.insert != model.bound,
    ensures
        ({
            let (after, outcome, edited) = carried_out(
                tool.buffer_action(state, Action::Delete, scope, move_length),
                model,
                1,
            );
            &&& outcome == Outcome::<S>::Done(ToolUpdateResult::RedrawAndStopPropagation)
            &&& edited == (BufferModel {
                text: model.replaced(seq![]),
                insert: model.low(),
                bound: model.low(),
            })
            &&& after.text == tool.text
        }),
{
    reveal_with_fuel(carried_out, 2);
    assert(model.deleted(model.low(), model.high()).text =~= model.replaced(seq![]));
}

/// Without a selection, Backspace deletes the character before the cursor, and Delete the one
/// behind it. Where there is none, nothing is deleted and nothing redrawn.
pub proof fn law_deleting_a_character<S: Scalar>(
    tool: TextTool<S>,
    model: BufferModel,
    state: BufferState,
    forward: bool,
    move_length: S,
)
    requires
        tool.text is Some,
        model.wf(),
        model.has_state(state),
        model.insert == model.bound,
    ensures
        ({
            let scope = if forward {
                ActionScope::ForwardChar
            } else {
                ActionScope::BackwardChar
            };
            let (_, outcome, edited) = carried_out(
                tool.buffer_action(state, Action::Delete, scope, move_length),
                model,
                2,
            );
            let i = model.insert;
            if forward && i < model.text.len() {
                &&& outcome == Outcome::<S>::Done(ToolUpdateResult::RedrawAndStopPropagation)
                &&& edited == (BufferModel { text: model.text.remove(i), insert: i, bound: i })
            } else if !forward && i > 0 {
                &&& outcome == Outcome::<S>::Done(ToolUpdateResult::RedrawAndStopPropagation)
                &&& edited == (BufferModel {
                    text: model.text.remove(i - 1),
                    insert: i - 1,
                    bound: i - 1,
                })
            } else {
                &&& outcome == Outcome::<S>::Done(ToolUpdateResult::StopPropagation)
                &&& edited == model
            }
        }),
{
    reveal_with_fuel(carried_out, 3);
    let i = model.insert;
    if forward && i < model.text.len() {
        assert(model.deleted(i, i + 1).text =~= model.text.remove(i));
    } else if !forward && i > 0 {
        assert(model.deleted(i, i - 1).text =~= model.text.remove(i - 1));
    } else {
        assert(model.deleted(i, i).text =~= model.text);
    }
}

/// The arrow keys move the cursor by one character, or out of the selection, and change nothing of
/// the text. Something is redrawn exactly if the cursor has moved or something was selected.
pub proof fn law_moving_by_a_character<S: Scalar>(
    tool: TextTool<S>,
    model: BufferModel,
    state: BufferState,
    forward: bool,
    move_length: S,
)
    requires
        tool.text is Some,
        model.wf(),
        model.has_state(state),
    ensures
        ({
            let scope = if forward {
                ActionScope::ForwardChar
            } else {
                ActionScope::BackwardChar
            };
            let (_, outcome, edited) = carried_out(
                tool.buffer_action(state, Action::MoveCursor, scope, move_length),
                model,
                3,
            );
            let i = model.insert;
            let selected = i != model.bound;
            let place = if selected && forward {
                model.high()
            } else if selected {
                model.low()
            } else if forward {
                model.moved(i, Motion::ForwardChar)
            } else {
                model.moved(i, Motion::BackwardChar)
            };
            &&& edited == (BufferModel { text: model.text, insert: place, bound: place })
            &&& outcome == Outcome::<S>::Done(
                if selected || place != i {
                    ToolUpdateResult::RedrawAndStopPropagation
                } else {
                    ToolUpdateResult::StopPropagation
                },
            )
        }),
{
    reveal_with_fuel(carried_out, 4);
}

/// With Shift, the arrow keys move the other end of the selection by one character. The cursor
/// stays, and so does the text.
pub proof fn law_selecting_by_a_character<S: Scalar>(
    tool: TextTool<S>,
    model: BufferModel,
    state: BufferState,
    forward: bool,
    move_length: S,
)
    requires
        tool.text is Some,
        model.wf(),
        model.has_state(state),
    ensures
        ({
            let (scope, motion) = if forward {
                (ActionScope::ForwardChar, Motion::ForwardChar)
            } else {
                (ActionScope::BackwardChar, Motion::BackwardChar)
            };
            let (_, outcome, edited) = carried_out(
                tool.buffer_action(state, Action::Select, scope, move_length),
                model,
                2,
            );
            &&& outcome == Outcome::<S>::Done(ToolUpdateResult::RedrawAndStopPropagation)
            &&& edited == (BufferModel { bound: model.moved(model.bound, motion), ..model })
        }),
{
    reveal_with_fuel(carried_out, 3);
}

/// Everything can be selected, wherever the cursor is.
pub proof fn law_selecting_everything<S: Scalar>(
    tool: TextTool<S>,
    model: BufferModel,
    state: BufferState,
    move_length: S,
)
    requires
        tool.text is Some,
        model.wf(),
        model.has_state(state),
    ensures
        ({
            let (_, outcome, edited) = carried_out(
                tool.buffer_action(state, Action::Select, ActionScope::SelectAll, move_length),
                model,
                1,
            );
            &&& outcome == Outcome::<S>::Done(ToolUpdateResult::RedrawAndStopPropagation)
            &&& edited.text == model.text && edited.low() == 0 && edited.high()
                == model.text.len()
        }),
{
    reveal_with_fuel(carried_out, 2);
}

// ---------------------------------------------------------------------------------------------
// Movements

/// The movement that an action makes from a place, if the buffer is asked for one step.
pub open spec fn one_step<S: Scalar>(
    tool: TextTool<S>,
    model: BufferModel,
    scope: ActionScope,
    place: int,
) -> Option<Motion> {
    match cursor_motion(scope, model.point(place), model.text, tool.drawn_lines()) {
        Some((motion, Goal::Once)) if !(motion is ForwardWordEnd) && !(
        motion is BackwardWordStart) => Some(motion),
        _ => None,
    }
}

/// The answer to a movement of the cursor: something is redrawn exactly if the cursor has moved or
/// something was selected.
pub open spec fn moved_answer<S>(model: BufferModel, place: int) -> Outcome<S> {
    Outcome::Done(
        if model.insert != model.bound || place != model.insert {
            ToolUpdateResult::RedrawAndStopPropagation
        } else {
            ToolUpdateResult::StopPropagation
        },
    )
}

/// The buffer with its cursor at a place, and nothing selected.
pub open spec fn with_cursor(model: BufferModel, place: int) -> BufferModel {
    BufferModel { text: model.text, insert: place, bound: place }
}

proof fn lemma_line_start(text: Seq<char>, place: int)
    requires
        0 <= place <= text.len(),
    ensures
        0 <= line_start(text, place) <= place,
        line_start(text, place) == 0 || text[line_start(text, place) - 1] == '\n',
        forall|i: int| line_start(text, place) <= i < place ==> #[trigger] text[i] != '\n',
    decreases place,
{
    if place > 0 && text[place - 1] != '\n' {
        lemma_line_start(text, place - 1);
    }
}

proof fn lemma_line_end(text: Seq<char>, place: int)
    requires
        0 <= place <= text.len(),
    ensures
        place <= line_end(text, place) <= text.len(),
        line_end(text, place) == text.len() || text[line_end(text, place)] == '\n',
        forall|i: int| place <= i < line_end(text, place) ==> #[trigger] text[i] != '\n',
    decreases text.len() - place,
{
    if place < text.len() && text[place] != '\n' {
        lemma_line_end(text, place + 1);
    }
}

/// The beginning and the end of a line have no line break between them, and nothing but a line
/// break, or the beginning or the end of the text, beside them.
pub proof fn law_ends_of_a_line(text: Seq<char>, place: int)
    requires
        0 <= place <= text.len(),
    ensures
        ({
            let (start, end) = (line_start(text, place), line_end(text, place));
            &&& 0 <= start <= place <= end <= text.len()
            &&& start == 0 || text[start - 1] == '\n'
            &&& end == text.len() || text[end] == '\n'
            &&& forall|i: int| start <= i < end ==> #[trigger] text[i] != '\n'
        }),
{
    lemma_line_start(text, place);
    lemma_line_end(text, place);
}

proof fn lemma_moved(model: BufferModel, from: int, motion: Motion)
    requires
        model.wf(),
        0 <= from <= model.text.len(),
    ensures
        0 <= model.moved(from, motion) <= model.text.len(),
        motion is BackwardLine ==> model.moved(from, motion) <= from && (from > 0
            ==> model.moved(from, motion) < from),
{
    lemma_line_start(model.text, from);
    let start = line_start(model.text, from);
    if start > 0 {
        lemma_line_start(model.text, start - 1);
    }
    lemma_line_end(model.text, from);
    if from < model.text.len() {
        lemma_line_end(model.text, from + 1);
    }
}

/// The cursor that goes to a place in one step is there then, with nothing selected.
proof fn lemma_cursor_goes<S: Scalar>(
    tool: TextTool<S>,
    model: BufferModel,
    state: BufferState,
    scope: ActionScope,
    move_length: S,
    motion: Motion,
)
    requires
        tool.text is Some,
        model.wf(),
        model.has_state(state),
        selection_exit(state, scope) is None,
        one_step(tool, model, scope, model.insert) == Some(motion),
    ensures
        ({
            let (after, outcome, edited) = carried_out(
                tool.buffer_action(state, Action::MoveCursor, scope, move_length),
                model,
                3,
            );
            let place = model.moved(model.insert, motion);
            &&& edited == with_cursor(model, place)
            &&& outcome == moved_answer::<S>(model, place)
            &&& after.text == tool.text
        }),
{
    reveal_with_fuel(carried_out, 4);
    lemma_moved(model, model.insert, motion);
}

/// The other end of a selection that goes to a place in one step is there then. The cursor stays.
proof fn lemma_bound_goes<S: Scalar>(
    tool: TextTool<S>,
    model: BufferModel,
    state: BufferState,
    scope: ActionScope,
    move_length: S,
    motion: Motion,
)
    requires
        tool.text is Some,
        model.wf(),
        model.has_state(state),
        scope != ActionScope::BufferStart,
        scope != ActionScope::BufferEnd,
        one_step(tool, model, scope, model.bound) == Some(motion),
    ensures
        ({
            let (after, outcome, edited) = carried_out(
                tool.buffer_action(state, Action::Select, scope, move_length),
                model,
                2,
            );
            &&& edited == (BufferModel { bound: model.moved(model.bound, motion), ..model })
            &&& outcome == Outcome::<S>::Done(ToolUpdateResult::RedrawAndStopPropagation)
            &&& after.text == tool.text
        }),
{
    reveal_with_fuel(carried_out, 3);
    lemma_moved(model, model.bound, motion);
}

/// Control and End put the cursor at the end of the text.
pub proof fn law_going_to_the_end<S: Scalar>(
    tool: TextTool<S>,
    model: BufferModel,
    state: BufferState,
    move_length: S,
)
    requires
        tool.text is Some,
        model.wf(),
        model.has_state(state),
    ensures
        ({
            let (_, outcome, edited) = carried_out(
                tool.buffer_action(
                    state,
                    Action::MoveCursor,
                    ActionScope::BufferEnd,
                    move_length,
                ),
                model,
                3,
            );
            &&& edited == with_cursor(model, model.text.len() as int)
            &&& outcome == moved_answer::<S>(model, model.text.len() as int)
        }),
{
    lemma_cursor_goes(
        tool,
        model,
        state,
        ActionScope::BufferEnd,
        move_length,
        Motion::ForwardToEnd,
    );
}

/// Where End leads from a place: to the end of its line or, from there, to the end of the next
/// line.
pub open spec fn end_place(text: Seq<char>, from: int) -> int {
    if from < text.len() && text[from] == '\n' {
        line_end(text, from + 1)
    } else {
        line_end(text, from)
    }
}

/// End puts the cursor at the end of its line, or of the next line if it is at an end already. With
/// Shift it puts the other end of the selection there, and the cursor stays.
pub proof fn law_going_to_the_end_of_the_line<S: Scalar>(
    tool: TextTool<S>,
    model: BufferModel,
    state: BufferState,
    move_length: S,
)
    requires
        tool.text is Some,
        model.wf(),
        model.has_state(state),
    ensures
        ({
            let scope = ActionScope::ForwardLine;
            let place = end_place(model.text, model.insert);
            let (_, moved, edited) = carried_out(
                tool.buffer_action(state, Action::MoveCursor, scope, move_length),
                model,
                3,
            );
            let (_, selected, extended) = carried_out(
                tool.buffer_action(state, Action::Select, scope, move_length),
                model,
                2,
            );
            &&& edited == with_cursor(model, place)
            &&& moved == moved_answer::<S>(model, place)
            &&& extended == (BufferModel { bound: end_place(model.text, model.bound), ..model })
            &&& selected == Outcome::<S>::Done(ToolUpdateResult::RedrawAndStopPropagation)
        }),
{
    let (scope, motion) = (ActionScope::ForwardLine, Motion::ForwardToLineEnd);
    lemma_cursor_goes(tool, model, state, scope, move_length, motion);
    lemma_bound_goes(tool, model, state, scope, move_length, motion);
}

/// With nothing selected, Up and Down put the cursor one drawn line above or below. With Shift
/// they put the other end of the selection there, and the cursor stays.
pub proof fn law_going_up_and_down<S: Scalar>(
    tool: TextTool<S>,
    model: BufferModel,
    state: BufferState,
    down: bool,
    move_length: S,
)
    requires
        tool.text is Some,
        model.wf(),
        model.has_state(state),
    ensures
        ({
            let lines = tool.drawn_lines();
            let scope = if down {
                ActionScope::ForwardLineAndWord
            } else {
                ActionScope::BackwardLineAndWord
            };
            let place = |from: int|
                if down {
                    offset_below(model.text, lines, from)
                } else {
                    offset_above(model.text, lines, from)
                };
            let (_, moved, edited) = carried_out(
                tool.buffer_action(state, Action::MoveCursor, scope, move_length),
                model,
                3,
            );
            let (_, selected, extended) = carried_out(
                tool.buffer_action(state, Action::Select, scope, move_length),
                model,
                2,
            );
            &&& model.insert == model.bound ==> edited == with_cursor(model, place(model.insert))
                && moved == moved_answer::<S>(model, place(model.insert))
            &&& extended == (BufferModel { bound: place(model.bound), ..model })
            &&& selected == Outcome::<S>::Done(ToolUpdateResult::RedrawAndStopPropagation)
        }),
{
    let lines = tool.drawn_lines();
    law_vertical_steps_stay_in_the_text(model.text, lines, model.insert);
    law_vertical_steps_stay_in_the_text(model.text, lines, model.bound);
    let (scope, cursor, bound) = if down {
        (
            ActionScope::ForwardLineAndWord,
            offset_below(model.text, lines, model.insert),
            offset_below(model.text, lines, model.bound),
        )
    } else {
        (
            ActionScope::BackwardLineAndWord,
            offset_above(model.text, lines, model.insert),
            offset_above(model.text, lines, model.bound),
        )
    };
    if model.insert == model.bound {
        lemma_cursor_goes(
            tool,
            model,
            state,
            scope,
            move_length,
            Motion::SetOffset(cursor as i32),
        );
    }
    lemma_bound_goes(tool, model, state, scope, move_length, Motion::SetOffset(bound as i32));
}

/// Whether a place is the goal of a movement by steps.
pub open spec fn goal_place(model: BufferModel, goal: Goal, from: int) -> int {
    match goal {
        Goal::Once => from,
        Goal::LineStart => line_start(model.text, from),
        Goal::BufferStart => 0,
    }
}

/// A cursor that has come to a place on its way goes on to the goal.
proof fn lemma_cursor_goes_on<S: Scalar>(
    tool: TextTool<S>,
    buffer: u64,
    model: BufferModel,
    goal: Goal,
    origin: i32,
    selected: bool,
    at: int,
    n: nat,
)
    requires
        model.wf(),
        0 <= at <= model.text.len(),
        n >= at + 2,
        tool.pending == Some((buffer, Pending::<S>::CursorTo { origin, selected, goal })),
    ensures
        ({
            let place = goal_place(model, goal, at);
            carried_out(tool.resumed(Reply::Point(model.point(at))), model, n) == (
                (TextTool { pending: None, ..tool }),
                Outcome::<S>::Done(
                    if place != origin || selected {
                        ToolUpdateResult::RedrawAndStopPropagation
                    } else {
                        ToolUpdateResult::StopPropagation
                    },
                ),
                with_cursor(model, place),
            )
        }),
    decreases at,
{
    let point = model.point(at);
    match goal.spec_next(point) {
        None => {
            reveal_with_fuel(carried_out, 3);
        },
        Some(motion) => {
            lemma_moved(model, at, motion);
            let next = model.moved(at, motion);
            assert(next < at);
            let step = tool.resumed(Reply::Point(point));
            assert(step.0 == tool);
            lemma_cursor_goes_on(
                step.0,
                buffer,
                model,
                goal,
                origin,
                selected,
                next,
                (n - 1) as nat,
            );
        },
    }
}

/// The other end of a selection that has come to a place on its way goes on to the goal.
proof fn lemma_bound_goes_on<S: Scalar>(
    tool: TextTool<S>,
    buffer: u64,
    model: BufferModel,
    goal: Goal,
    at: int,
    n: nat,
)
    requires
        model.wf(),
        0 <= at <= model.text.len(),
        n >= at + 1,
        tool.pending == Some(
            (buffer, Pending::<S>::SelectTo { anchor: model.insert as i32, goal }),
        ),
    ensures
        carried_out(tool.resumed(Reply::Point(model.point(at))), model, n) == (
            (TextTool { pending: None, ..tool }),
            Outcome::<S>::Done(ToolUpdateResult::RedrawAndStopPropagation),
            (BufferModel { bound: goal_place(model, goal, at), ..model }),
        ),
    decreases at,
{
    let point = model.point(at);
    match goal.spec_next(point) {
        None => {
            reveal_with_fuel(carried_out, 2);
        },
        Some(motion) => {
            lemma_moved(model, at, motion);
            let next = model.moved(at, motion);
            assert(next < at);
            let step = tool.resumed(Reply::Point(point));
            assert(step.0 == tool);
            lemma_bound_goes_on(step.0, buffer, model, goal, next, (n - 1) as nat);
        },
    }
}

/// Where Home leads from a place: to the beginning of its line or, from there, to the beginning of
/// the line before.
pub open spec fn home_place(text: Seq<char>, from: int) -> int {
    let start = line_start(text, from);
    if start < from || start == 0 {
        start
    } else {
        line_start(text, start - 1)
    }
}

/// Home puts the cursor at the beginning of its line, or of the line before if it is at a beginning
/// already. With Shift it puts the other end of the selection there, and the cursor stays.
pub proof fn law_going_to_the_beginning_of_the_line<S: Scalar>(
    tool: TextTool<S>,
    model: BufferModel,
    state: BufferState,
    move_length: S,
)
    requires
        tool.text is Some,
        model.wf(),
        model.has_state(state),
    ensures
        ({
            let scope = ActionScope::BackwardLine;
            let place = home_place(model.text, model.insert);
            let (_, moved, edited) = carried_out(
                tool.buffer_action(state, Action::MoveCursor, scope, move_length),
                model,
                (model.text.len() + 3) as nat,
            );
            let (_, selected, extended) = carried_out(
                tool.buffer_action(state, Action::Select, scope, move_length),
                model,
                (model.text.len() + 3) as nat,
            );
            &&& edited == with_cursor(model, place)
            &&& moved == moved_answer::<S>(model, place)
            &&& extended == (BufferModel { bound: home_place(model.text, model.bound), ..model })
            &&& selected == Outcome::<S>::Done(ToolUpdateResult::RedrawAndStopPropagation)
        }),
{
    let n = (model.text.len() + 3) as nat;
    let scope = ActionScope::BackwardLine;
    lemma_line_start(model.text, model.insert);
    lemma_line_start(model.text, model.bound);

    let cursor = model.point(model.insert);
    let (motion, goal) = cursor_motion(scope, cursor, model.text, tool.drawn_lines())->0;
    let (first, _) = tool.buffer_action(state, Action::MoveCursor, scope, move_length);
    let next = model.moved(model.insert, motion);
    lemma_moved(model, model.insert, motion);
    lemma_cursor_goes_on(
        first,
        tool.text->0.buffer,
        model,
        goal,
        model.insert as i32,
        state.selection is Some,
        next,
        (n - 1) as nat,
    );

    let bound = model.point(model.bound);
    let (motion, goal) = cursor_motion(scope, bound, model.text, tool.drawn_lines())->0;
    let (first, _) = tool.buffer_action(state, Action::Select, scope, move_length);
    let next = model.moved(model.bound, motion);
    lemma_moved(model, model.bound, motion);
    lemma_bound_goes_on(first, tool.text->0.buffer, model, goal, next, (n - 1) as nat);
}

/// Control and Home put the cursor at the beginning of the text.
pub proof fn law_going_to_the_beginning<S: Scalar>(
    tool: TextTool<S>,
    model: BufferModel,
    state: BufferState,
    move_length: S,
)
    requires
        tool.text is Some,
        model.wf(),
        model.has_state(state),
    ensures
        ({
            let (_, outcome, edited) = carried_out(
                tool.buffer_action(
                    state,
                    Action::MoveCursor,
                    ActionScope::BufferStart,
                    move_length,
                ),
                model,
                (model.text.len() + 3) as nat,
            );
            &&& edited == with_cursor(model, 0)
            &&& outcome == moved_answer::<S>(model, 0)
        }),
{
    let n = (model.text.len() + 3) as nat;
    if model.insert == 0 {
        reveal_with_fuel(carried_out, 3);
    } else {
        let (first, _) = tool.buffer_action(
            state,
            Action::MoveCursor,
            ActionScope::BufferStart,
            move_length,
        );
        lemma_moved(model, model.insert, Motion::BackwardLine);
        lemma_cursor_goes_on(
            first,
            tool.text->0.buffer,
            model,
            Goal::BufferStart,
            model.insert as i32,
            state.selection is Some,
            model.moved(model.insert, Motion::BackwardLine),
            (n - 1) as nat,
        );
    }
}

// ---------------------------------------------------------------------------------------------
// The mouse

/// The place that an offset names: the end of the text where it has no such place.
pub open spec fn place_of(model: BufferModel, offset: i32) -> int {
    if 0 <= offset <= model.text.len() {
        offset as int
    } else {
        model.text.len() as int
    }
}

/// A click on the text puts the cursor where the mouse is, with nothing selected.
pub proof fn law_clicking<S: Scalar>(
    tool: TextTool<S>,
    model: BufferModel,
    state: BufferState,
    event: MouseEventMsg<S>,
)
    requires
        model.wf(),
        model.has_state(state),
        event.type_ == MouseEventType::Click,
        event.button == MouseButton::Primary,
        event.n_pressed != 2,
        event.n_pressed != 3,
        tool.text_at(event.pos),
        tool.can_locate(event),
    ensures
        ({
            let offset = tool.text->0.layout->0.spec_click_offset(event.pos)->0;
            let (after, outcome, edited) = carried_out(tool.mouse_event(event, state), model, 2);
            &&& edited == with_cursor(model, place_of(model, offset))
            &&& outcome == Outcome::<S>::Done(ToolUpdateResult::RedrawAndStopPropagation)
            &&& after.text == tool.text
        }),
{
    reveal_with_fuel(carried_out, 3);
}

/// A search for the beginning of the text ends there, and everything is selected then.
proof fn lemma_everything_is_selected<S: Scalar>(
    tool: TextTool<S>,
    buffer: u64,
    model: BufferModel,
    clicked: int,
    at: int,
    n: nat,
)
    requires
        model.wf(),
        0 <= at <= model.text.len(),
        0 <= clicked <= model.text.len(),
        n >= at + 2,
    ensures
        ({
            let (_, outcome, edited) = carried_out(
                tool.select_all_from(buffer, clicked as i32, model.point(at)),
                model,
                n,
            );
            &&& edited == (BufferModel {
                text: model.text,
                insert: 0,
                bound: model.text.len() as int,
            })
            &&& outcome == Outcome::<S>::Done(ToolUpdateResult::RedrawAndStopPropagation)
        }),
    decreases at,
{
    if at == 0 {
        reveal_with_fuel(carried_out, 3);
    } else {
        lemma_moved(model, at, Motion::BackwardLine);
        let next = model.moved(at, Motion::BackwardLine);
        let step = tool.select_all_from(buffer, clicked as i32, model.point(at));
        lemma_everything_is_selected(step.0, buffer, model, clicked, next, (n - 1) as nat);
    }
}

/// The third click on the text selects everything.
pub proof fn law_clicking_three_times<S: Scalar>(
    tool: TextTool<S>,
    model: BufferModel,
    state: BufferState,
    event: MouseEventMsg<S>,
)
    requires
        model.wf(),
        model.has_state(state),
        event.type_ == MouseEventType::Click,
        event.button == MouseButton::Primary,
        event.n_pressed == 3,
        tool.text_at(event.pos),
        tool.can_locate(event),
    ensures
        ({
            let (_, outcome, edited) = carried_out(
                tool.mouse_event(event, state),
                model,
                (model.text.len() + 4) as nat,
            );
            &&& edited == (BufferModel {
                text: model.text,
                insert: 0,
                bound: model.text.len() as int,
            })
            &&& outcome == Outcome::<S>::Done(ToolUpdateResult::RedrawAndStopPropagation)
        }),
{
    let n = (model.text.len() + 4) as nat;
    let offset = tool.text->0.layout->0.spec_click_offset(event.pos)->0;
    let place = place_of(model, offset);
    let buffer = tool.text->0.buffer;
    let (clicked, _) = tool.mouse_event(event, state);
    let (found, _) = clicked.resumed(Reply::Point(model.point(place)));
    let placed = with_cursor(model, place);
    lemma_everything_is_selected(found, buffer, placed, place, place, (n - 2) as nat);
    assert(found.resumed(Reply::Point(placed.point(place))) == found.select_all_from(
        buffer,
        place as i32,
        placed.point(place),
    ));
    reveal_with_fuel(carried_out, 3);
}

/// A drag over the text puts the other end of the selection where the mouse is. The cursor stays.
pub proof fn law_dragging<S: Scalar>(
    tool: TextTool<S>,
    model: BufferModel,
    state: BufferState,
    event: MouseEventMsg<S>,
)
    requires
        model.wf(),
        model.has_state(state),
        event.type_ == MouseEventType::UpdateDrag,
        event.button == MouseButton::Primary,
        tool.text_at(tool.drag_start_pos.spec_plus(event.pos)),
        tool.can_locate(event),
    ensures
        ({
            let pos = tool.drag_start_pos.spec_plus(event.pos);
            let offset = tool.text->0.layout->0.spec_drag_offset(pos)->0;
            let (after, outcome, edited) = carried_out(tool.mouse_event(event, state), model, 2);
            &&& edited == (BufferModel { bound: place_of(model, offset), ..model })
            &&& outcome == Outcome::<S>::Done(ToolUpdateResult::RedrawAndStopPropagation)
            &&& after.text == tool.text && after.dragged
        }),
{
    reveal_with_fuel(carried_out, 3);
}

// ---------------------------------------------------------------------------------------------
// Clipboards, and the end

/// Cutting, with a clipboard, takes what is selected out of the text.
pub proof fn law_cutting<S: Scalar>(
    tool: TextTool<S>,
    model: BufferModel,
    state: BufferState,
    event: KeyEventMsg,
    move_length: S,
)
    requires
        tool.text is Some,
        model.wf(),
        model.has_state(state),
        model.insert != model.bound,
        key_command(event) == KeyCommand::Cut,
    ensures
        ({
            let (opening, _) = tool.key_event(event, state, move_length);
            let (copying, copied) = opening.resumed(Reply::Flag(true));
            let (_, outcome, edited) = carried_out((copying, copied), model, 2);
            &&& copied == Outcome::<S>::Buffer(
                tool.text->0.buffer,
                Request::Copy { start: model.low() as i32, end: model.high() as i32 },
            )
            &&& edited == (BufferModel {
                text: model.replaced(seq![]),
                insert: model.low(),
                bound: model.low(),
            })
            &&& outcome == Outcome::<S>::Done(ToolUpdateResult::RedrawAndStopPropagation)
        }),
{
    reveal_with_fuel(carried_out, 3);
    assert(model.deleted(model.low(), model.high()).text =~= model.replaced(seq![]));
}

/// A paste, with a clipboard, takes what is selected out of the text; what has arrived later takes
/// its place.
pub proof fn law_pasting<S: Scalar>(
    tool: TextTool<S>,
    model: BufferModel,
    state: BufferState,
    event: KeyEventMsg,
    move_length: S,
    pasted: Seq<char>,
)
    requires
        tool.text is Some,
        model.wf(),
        model.has_state(state),
        key_command(event) is Paste,
    ensures
        ({
            let (opening, _) = tool.key_event(event, state, move_length);
            let (_, outcome, edited) = carried_out(opening.resumed(Reply::Flag(true)), model, 2);
            let cursor = model.low() + pasted.len();
            &&& edited == with_cursor(edited, model.low())
            &&& outcome == Outcome::<S>::Done(ToolUpdateResult::StopPropagation)
            &&& edited.inserted(pasted) == (BufferModel {
                text: model.replaced(pasted),
                insert: cursor,
                bound: cursor,
            })
        }),
{
    reveal_with_fuel(carried_out, 3);
    let (low, high) = (model.low(), model.high());
    let without = model.deleted(low, high);
    assert(without.insert == low && without.bound == low);
    assert(without.text.take(low) =~= model.text.take(low));
    assert(without.text.skip(low) =~= model.text.skip(high));
    assert(without.inserted(pasted).text =~= model.replaced(pasted));
}

/// A text that is finished keeps what is written in it, and nothing is selected any more.
pub proof fn law_finishing<S: Scalar>(tool: TextTool<S>, model: BufferModel, state: BufferState)
    requires
        tool.text is Some,
        model.wf(),
        model.has_state(state),
        model.text.len() > 0,
    ensures
        ({
            let (after, outcome, edited) = carried_out(tool.deactivated(state), model, 1);
            &&& edited == with_cursor(model, 0)
            &&& outcome == Outcome::Done(ToolUpdateResult::Commit(finished_text(tool.text->0)))
            &&& after.text is None
        }),
{
    reveal_with_fuel(carried_out, 2);
}

} // verus!
