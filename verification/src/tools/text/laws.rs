//! What holds of the text tool as a whole.

use vstd::prelude::*;

use super::buffer::{
    paste_effect, Action, ActionScope, BufferState, Clipboard, ClipboardText, Goal, Motion,
    PasteTicket, Reply, Request, TextPoint,
};
use super::content::Text;
use super::effect::TextEffect;
use super::keys::{key_command, KeyCommand};
use super::steps::{
    finished_text, is_alt, selected_range, Outcome, Pending, TextEventMsg, TextTool,
};
use crate::math::Vec2D;
use crate::scalar::Scalar;
use crate::sketch_board::{
    Key, KeyEventMsg, MouseButton, MouseEventMsg, MouseEventType, ToolUpdateResult,
};

verus! {

// ---------------------------------------------------------------------------------------------
// Effects

/// The effects come round after four steps, and no two of the four are the same.
pub proof fn law_effects_come_round(effect: TextEffect)
    ensures
        effect.spec_next().spec_next().spec_next().spec_next() == effect,
        effect.spec_next() != effect,
        effect.spec_next().spec_next() != effect,
        effect.spec_next().spec_next().spec_next() != effect,
{
}

/// A tap on Alt goes on to the next effect, and changes nothing else of the text.
pub proof fn law_alt_tap_changes_the_effect<S: Scalar>(
    tool: TextTool<S>,
    press: KeyEventMsg,
    release: KeyEventMsg,
    state: BufferState,
    move_length: S,
)
    requires
        tool.text is Some,
        is_alt(press.key),
        is_alt(release.key),
    ensures
        ({
            let pressed = tool.key_event(press, state, move_length);
            let released = pressed.0.key_release(release);
            let text = tool.text->0;
            &&& pressed.1 == Outcome::<S>::Done(ToolUpdateResult::StopPropagation)
            &&& released.0.text == Some((Text { effect: text.effect.spec_next(), ..text }))
            &&& released.1 is RedrawAndStopPropagation
        }),
{
}

/// Any other key that is pressed before Alt is released makes Alt a modifier: its release does
/// nothing, however the handling of that key goes on in between.
pub proof fn law_other_key_ends_an_alt_tap<S: Scalar>(
    tool: TextTool<S>,
    other: KeyEventMsg,
    release: KeyEventMsg,
    state: BufferState,
    move_length: S,
    replies: Seq<Reply>,
)
    requires
        !is_alt(other.key),
    ensures
        ({
            let after = told(tool.key_event(other, state, move_length).0, replies);
            after.key_release(release) == (after, ToolUpdateResult::<Text<S>>::Unmodified)
        }),
{
    lemma_replies_leave_alt_alone(tool.key_event(other, state, move_length).0, replies);
}

/// The tool after it was told one outcome after the other.
pub open spec fn told<S: Scalar>(tool: TextTool<S>, replies: Seq<Reply>) -> TextTool<S>
    decreases replies.len(),
{
    if replies.len() == 0 {
        tool
    } else {
        told(tool, replies.drop_last()).resumed(replies.last()).0
    }
}

proof fn lemma_replies_leave_alt_alone<S: Scalar>(tool: TextTool<S>, replies: Seq<Reply>)
    ensures
        told(tool, replies).alt_tap == tool.alt_tap,
    decreases replies.len(),
{
    if replies.len() > 0 {
        lemma_replies_leave_alt_alone(tool, replies.drop_last());
    }
}

// ---------------------------------------------------------------------------------------------
// Events and their answers

/// Without a text, keys, input methods and the history are left to their other handlers, and a
/// style is only remembered.
pub proof fn law_nothing_happens_without_a_text<S: Scalar>(
    tool: TextTool<S>,
    key: KeyEventMsg,
    typed: TextEventMsg,
    request: Request,
    state: BufferState,
    move_length: S,
)
    requires
        tool.text is None,
    ensures
        tool.key_event(key, state, move_length).1 == Outcome::<S>::Done(
            ToolUpdateResult::Unmodified,
        ),
        tool.key_event(key, state, move_length).0.text is None,
        tool.text_event(typed, state).1 == Outcome::<S>::Done(ToolUpdateResult::Unmodified),
        tool.text_event(typed, state).0.text is None,
        tool.history_step(request).1 == Outcome::<S>::Done(ToolUpdateResult::Unmodified),
        tool.key_release(key).1 is Unmodified,
        tool.styled(tool.style) == (tool, ToolUpdateResult::<Text<S>>::Unmodified),
        tool.deactivated(state).1 == Outcome::<S>::Done(ToolUpdateResult::Unmodified),
{
}

/// Whether a step is consistent: either the event is answered, or the tool waits, and then it has
/// asked the buffer `buffer`, for a new buffer, or for a clipboard.
pub open spec fn consistent<S>(step: (TextTool<S>, Outcome<S>), buffer: u64) -> bool {
    match step.1 {
        Outcome::Done(_) => step.0.pending is None,
        Outcome::Buffer(asked, _) => asked == buffer && (step.0.pending matches Some((b, _)) && b
            == buffer),
        Outcome::OpenClipboard(_) => step.0.pending matches Some((b, _)) && b == buffer,
        Outcome::NewBuffer => step.0.pending is Some,
    }
}

/// The tool waits exactly while it has asked for something, and a buffer that is asked is that of
/// the text that is being edited.
pub proof fn law_only_the_text_is_asked<S: Scalar>(
    tool: TextTool<S>,
    key: KeyEventMsg,
    mouse: MouseEventMsg<S>,
    typed: TextEventMsg,
    request: Request,
    state: BufferState,
    move_length: S,
)
    ensures
        ({
            let buffer = match tool.text {
                Some(t) => t.buffer,
                None => 0,
            };
            &&& consistent(tool.key_event(key, state, move_length), buffer)
            &&& consistent(tool.mouse_event(mouse, state), buffer)
            &&& consistent(tool.text_event(typed, state), buffer)
            &&& consistent(tool.deactivated(state), buffer)
            &&& consistent(tool.history_step(request), buffer)
        }),
{
}

/// While an event is handled, one buffer is asked, and no other.
pub proof fn law_one_buffer_is_asked<S: Scalar>(tool: TextTool<S>, reply: Reply)
    requires
        tool.pending is Some,
    ensures
        consistent(tool.resumed(reply), (tool.pending->0).0),
{
}

/// How many outcomes the tool waits for at most, but for steps of a movement that are repeated.
pub open spec fn outcomes_left<S>(pending: Pending<S>) -> nat {
    match pending {
        Pending::Finish(_) => 1,
        Pending::CursorPlaced { .. } => 1,
        Pending::Opening { .. } => 1,
        Pending::Delete { after } => if after is Answer || after is Cut {
            1
        } else {
            2
        },
        Pending::CursorCleared { .. } => 2,
        Pending::SelectTo { .. } => 2,
        Pending::SelectionEnd { .. } => 2,
        Pending::DragTo { .. } => 2,
        Pending::Cut { .. } => 2,
        Pending::Commit { .. } => 2,
        Pending::CursorTo { .. } => 3,
        Pending::DeleteTo { .. } => 3,
        Pending::OpenPaste { .. } => 3,
        Pending::OpenCopy { .. } => 3,
        Pending::WordStart { .. } => 3,
        Pending::TextStart { .. } => 3,
        Pending::ClickPlaced { .. } => 4,
        Pending::ClickTo { .. } => 5,
    }
}

/// What the steps of a movement are repeated for.
pub open spec fn goal_of<S>(pending: Pending<S>) -> Goal {
    match pending {
        Pending::CursorTo { goal, .. } => goal,
        Pending::SelectTo { goal, .. } => goal,
        Pending::TextStart { .. } => Goal::BufferStart,
        _ => Goal::Once,
    }
}

/// Every outcome brings the event nearer to its end, but for a step that has not reached the goal
/// of its movement; that step is made again. So an event is answered if the steps of a movement
/// reach its goal at last.
pub proof fn law_every_event_is_answered<S: Scalar>(tool: TextTool<S>, reply: Reply)
    requires
        tool.pending is Some,
    ensures
        ({
            let pending = (tool.pending->0).1;
            let (after, outcome) = tool.resumed(reply);
            ||| outcome is Done
            ||| after.pending is Some && outcomes_left((after.pending->0).1) < outcomes_left(pending)
            ||| after.pending == tool.pending && (reply matches Reply::Point(p) && goal_of(
                pending,
            ).spec_next(p) is Some)
        }),
{
}

// ---------------------------------------------------------------------------------------------
// Texts that are handed over

/// The text that will be handed over when the event is answered.
pub open spec fn handed_over<S>(tool: TextTool<S>) -> Option<Text<S>> {
    match tool.pending {
        Some((_, Pending::Finish(ToolUpdateResult::Commit(text)))) => Some(text),
        Some((_, Pending::Commit { text, .. })) => Some(text),
        Some((_, Pending::Opening { result: ToolUpdateResult::Commit(text), .. })) => Some(text),
        _ => None,
    }
}

/// Whether a step hands over nothing but the text that was being edited, and that only if
/// something is written in it; the text is then finished.
pub open spec fn hands_over_written<S>(
    tool: TextTool<S>,
    state: BufferState,
    step: (TextTool<S>, Outcome<S>),
) -> bool {
    &&& handed_over(step.0) matches Some(text) ==> state.text@.len() > 0 && tool.text is Some
        && text == finished_text(tool.text->0)
    &&& !(step.1 matches Outcome::Done(ToolUpdateResult::Commit(_)))
}

/// No empty text is ever handed over, and what is handed over is not edited any more: it has no
/// caret, no rectangle round it, no input method, and nothing is being composed in it.
pub proof fn law_only_written_texts_are_handed_over<S: Scalar>(
    tool: TextTool<S>,
    key: KeyEventMsg,
    mouse: MouseEventMsg<S>,
    typed: TextEventMsg,
    request: Request,
    state: BufferState,
    move_length: S,
)
    ensures
        hands_over_written(tool, state, tool.key_event(key, state, move_length)),
        hands_over_written(tool, state, tool.mouse_event(mouse, state)),
        hands_over_written(tool, state, tool.text_event(typed, state)),
        hands_over_written(tool, state, tool.deactivated(state)),
        hands_over_written(tool, state, tool.history_step(request)),
{
}

/// A text that is on its way to be handed over is so, unchanged, or the event is answered without
/// it because an outcome came that was not asked for. No other text is.
pub proof fn law_texts_are_handed_over_unchanged<S: Scalar>(tool: TextTool<S>, reply: Reply)
    ensures
        ({
            let (after, outcome) = tool.resumed(reply);
            &&& outcome matches Outcome::Done(ToolUpdateResult::Commit(text)) ==> handed_over(tool)
                == Some(text)
            &&& handed_over(after) is Some ==> handed_over(after) == handed_over(tool)
        }),
{
}

/// Return finishes a text in which something is written: it is handed over, and the tool has none
/// any more. An empty text is dropped.
pub proof fn law_return_finishes_a_text<S: Scalar>(
    tool: TextTool<S>,
    event: KeyEventMsg,
    state: BufferState,
    move_length: S,
)
    requires
        tool.text is Some,
        event.key == Key::Return,
        !event.modifier.spec_exactly(true, false, false),
    ensures
        ({
            let (asked, outcome) = tool.key_event(event, state, move_length);
            &&& asked.text is None && !asked.input_enabled
            &&& state.text@.len() == 0 ==> outcome == Outcome::<S>::Done(
                ToolUpdateResult::RedrawAndStopPropagation,
            )
            &&& state.text@.len() > 0 ==> outcome == Outcome::<S>::Buffer(
                tool.text->0.buffer,
                Request::ClearSelection,
            ) && asked.resumed(Reply::Done).1 == Outcome::Done(
                ToolUpdateResult::Commit(finished_text(tool.text->0)),
            )
        }),
{
}

/// Leaving the tool does to a text what Return does, but for the answer where it is empty.
pub proof fn law_leaving_the_tool_finishes_a_text<S: Scalar>(tool: TextTool<S>, state: BufferState)
    requires
        tool.text is Some,
    ensures
        ({
            let (asked, outcome) = tool.deactivated(state);
            &&& asked.text is None && !asked.input_enabled
            &&& state.text@.len() == 0 ==> outcome == Outcome::<S>::Done(ToolUpdateResult::Redraw)
            &&& state.text@.len() > 0 ==> outcome == Outcome::<S>::Buffer(
                tool.text->0.buffer,
                Request::ClearSelection,
            ) && asked.resumed(Reply::Done).1 == Outcome::Done(
                ToolUpdateResult::Commit(finished_text(tool.text->0)),
            )
        }),
{
}

/// Escape gives the text up, whatever is written in it, and asks for nothing.
pub proof fn law_escape_gives_the_text_up<S: Scalar>(
    tool: TextTool<S>,
    event: KeyEventMsg,
    state: BufferState,
    move_length: S,
)
    requires
        tool.text is Some,
        event.key == Key::Escape,
    ensures
        ({
            let (after, outcome) = tool.key_event(event, state, move_length);
            &&& after.text is None && !after.input_enabled && handed_over(after) is None
            &&& outcome == Outcome::<S>::Done(ToolUpdateResult::Redraw)
        }),
{
}

/// A click beside the text begins a new one there, in the style of the tool. The old one is
/// handed over if something is written in it, and else dropped.
pub proof fn law_click_beside_the_text_begins_another<S: Scalar>(
    tool: TextTool<S>,
    event: MouseEventMsg<S>,
    state: BufferState,
    buffer: u64,
    font_ids: Vec<u64>,
)
    requires
        event.type_ == MouseEventType::Click,
        event.button == MouseButton::Primary,
        !tool.text_at(event.pos),
    ensures
        ({
            let written = tool.text is Some && state.text@.len() > 0;
            let (clicked, first) = tool.mouse_event(event, state);
            let (asked, second) = if written {
                clicked.resumed(Reply::Done)
            } else {
                (clicked, first)
            };
            let (after, outcome) = asked.resumed(Reply::Buffer { buffer, font_ids });
            &&& written ==> first == Outcome::<S>::Buffer(
                tool.text->0.buffer,
                Request::ClearSelection,
            )
            &&& second is NewBuffer
            &&& after.text == Some(
                Text::spec_new(event.pos, tool.style, tool.im_context, buffer, font_ids),
            )
            &&& after.input_enabled
            &&& outcome == Outcome::Done(
                if written {
                    ToolUpdateResult::Commit(finished_text(tool.text->0))
                } else {
                    ToolUpdateResult::Redraw
                },
            )
        }),
{
}

// ---------------------------------------------------------------------------------------------
// Writing

/// A key that edits does what its action does, and ends what might have become a tap on Alt.
pub proof fn law_editing_keys<S: Scalar>(
    tool: TextTool<S>,
    event: KeyEventMsg,
    state: BufferState,
    move_length: S,
    action: Action,
    scope: ActionScope,
)
    requires
        tool.text is Some,
        key_command(event) == KeyCommand::Edit(action, scope),
    ensures
        tool.key_event(event, state, move_length) == (TextTool {
            alt_tap: false,
            ..tool
        }).buffer_action(state, action, scope, move_length),
{
}

/// With something selected, a deletion deletes exactly that, however far it would reach else.
pub proof fn law_deletion_takes_the_selection<S: Scalar>(
    tool: TextTool<S>,
    state: BufferState,
    scope: ActionScope,
    move_length: S,
)
    requires
        tool.text is Some,
        state.selection is Some,
    ensures
        tool.buffer_action(state, Action::Delete, scope, move_length).1 == Outcome::<S>::Buffer(
            tool.text->0.buffer,
            Request::Delete {
                start: (state.selection->0).0.offset,
                end: (state.selection->0).1.offset,
            },
        ),
{
}

/// What an input method commits takes the place of the selection, and ends the composition.
pub proof fn law_typing_replaces_the_selection<S: Scalar>(
    tool: TextTool<S>,
    typed: String,
    state: BufferState,
    deleted: bool,
)
    requires
        tool.text is Some,
    ensures
        ({
            let text = tool.text->0;
            let (start, end) = selected_range(state);
            let (first, deletion) = tool.text_event(TextEventMsg::Commit(typed), state);
            let (second, insertion) = first.resumed(Reply::Flag(deleted));
            let (after, outcome) = second.resumed(Reply::Done);
            &&& deletion == Outcome::<S>::Buffer(text.buffer, Request::Delete { start, end })
            &&& insertion == Outcome::<S>::Buffer(text.buffer, Request::Insert(typed))
            &&& outcome == Outcome::<S>::Done(ToolUpdateResult::Redraw)
            &&& after == (TextTool {
                text: Some((Text { preedit: None, ..text })),
                pending: None,
                ..tool
            })
        }),
{
}

/// Shift and Return put a line break in the place of the selection.
pub proof fn law_line_break_replaces_the_selection<S: Scalar>(
    tool: TextTool<S>,
    event: KeyEventMsg,
    state: BufferState,
    move_length: S,
    deleted: bool,
)
    requires
        tool.text is Some,
        event.key == Key::Return,
        event.modifier.spec_exactly(true, false, false),
    ensures
        ({
            let buffer = tool.text->0.buffer;
            let (start, end) = selected_range(state);
            let (first, deletion) = tool.key_event(event, state, move_length);
            let (second, insertion) = first.resumed(Reply::Flag(deleted));
            let (after, outcome) = second.resumed(Reply::Done);
            &&& deletion == Outcome::<S>::Buffer(buffer, Request::Delete { start, end })
            &&& insertion == Outcome::<S>::Buffer(buffer, Request::InsertNewline)
            &&& outcome == Outcome::<S>::Done(ToolUpdateResult::RedrawAndStopPropagation)
            &&& after.text == tool.text
        }),
{
}

/// What is being composed is put away when it is empty or ended; nothing is asked of the buffer.
pub proof fn law_composition_ends<S: Scalar>(
    tool: TextTool<S>,
    event: TextEventMsg,
    state: BufferState,
)
    requires
        tool.text is Some,
        event is PreeditEnd || (event matches TextEventMsg::Preedit { text, .. } && text@.len()
            == 0),
    ensures
        tool.text_event(event, state).0.text->0.preedit is None,
        tool.text_event(event, state).1 == Outcome::<S>::Done(
            if tool.text->0.preedit is Some {
                ToolUpdateResult::Redraw
            } else {
                ToolUpdateResult::Unmodified
            },
        ),
{
}

// ---------------------------------------------------------------------------------------------
// Clipboards

/// Without a clipboard nothing is deleted, copied or pasted: only the event is swallowed.
pub proof fn law_nothing_happens_without_a_clipboard<S: Scalar>(tool: TextTool<S>)
    requires
        tool.pending is Some,
        (tool.pending->0).1 is OpenPaste || (tool.pending->0).1 is OpenCopy,
    ensures
        tool.resumed(Reply::Flag(false)) == (
            (TextTool { pending: None, ..tool }),
            Outcome::<S>::Done(ToolUpdateResult::StopPropagation),
        ),
{
}

/// Copying without a selection leaves the key to the global shortcuts.
pub proof fn law_copy_of_nothing_is_passed_on<S: Scalar>(
    tool: TextTool<S>,
    event: KeyEventMsg,
    state: BufferState,
    move_length: S,
)
    requires
        key_command(event) == KeyCommand::Copy,
        state.selection is None,
    ensures
        tool.key_event(event, state, move_length).1 == Outcome::<S>::Done(
            ToolUpdateResult::Unmodified,
        ),
        tool.key_event(event, state, move_length).0.text == tool.text,
{
}

/// Copying puts what is selected on the clipboard, and cutting deletes the same after that.
pub proof fn law_copy_and_cut<S: Scalar>(
    tool: TextTool<S>,
    event: KeyEventMsg,
    state: BufferState,
    move_length: S,
    deleted: bool,
)
    requires
        tool.text is Some,
        key_command(event) == KeyCommand::Copy || key_command(event) == KeyCommand::Cut,
        state.selection is Some,
    ensures
        ({
            let buffer = tool.text->0.buffer;
            let (start, end) = selected_range(state);
            let (first, opening) = tool.key_event(event, state, move_length);
            let (second, copying) = first.resumed(Reply::Flag(true));
            let (third, outcome) = second.resumed(Reply::Done);
            &&& opening == Outcome::<S>::OpenClipboard(Clipboard::Standard)
            &&& copying == Outcome::<S>::Buffer(buffer, Request::Copy { start, end })
            &&& third.text == tool.text
            &&& if key_command(event) == KeyCommand::Copy {
                outcome == Outcome::<S>::Done(ToolUpdateResult::StopPropagation)
            } else {
                &&& outcome == Outcome::<S>::Buffer(buffer, Request::Delete { start, end })
                &&& third.resumed(Reply::Flag(deleted)).1 == Outcome::<S>::Done(
                    ToolUpdateResult::RedrawAndStopPropagation,
                )
                &&& third.resumed(Reply::Flag(deleted)).0.text == tool.text
            }
        }),
{
}

/// A paste deletes what is selected when its clipboard is there, and leaves the rest to a ticket
/// for that clipboard. The event is swallowed.
pub proof fn law_paste_by_key<S: Scalar>(
    tool: TextTool<S>,
    event: KeyEventMsg,
    state: BufferState,
    move_length: S,
    from: Clipboard,
    deleted: bool,
)
    requires
        tool.text is Some,
        key_command(event) == KeyCommand::Paste(from),
    ensures
        ({
            let buffer = tool.text->0.buffer;
            let (start, end) = selected_range(state);
            let (first, opening) = tool.key_event(event, state, move_length);
            let (second, deletion) = first.resumed(Reply::Flag(true));
            let (third, pasting) = second.resumed(Reply::Flag(deleted));
            let (after, outcome) = third.resumed(Reply::Done);
            let ticket = PasteTicket { from, dragged: false, sender: tool.sender };
            &&& opening == Outcome::<S>::OpenClipboard(from)
            &&& deletion == Outcome::<S>::Buffer(buffer, Request::Delete { start, end })
            &&& pasting == Outcome::<S>::Buffer(buffer, Request::Paste(ticket))
            &&& outcome == Outcome::<S>::Done(ToolUpdateResult::StopPropagation)
            &&& after.text == tool.text
        }),
{
}

/// The release of the middle button pastes what was selected last, but not if it ends a drag:
/// then what has arrived is dropped.
pub proof fn law_paste_by_mouse<S: Scalar>(
    tool: TextTool<S>,
    event: MouseEventMsg<S>,
    state: BufferState,
    deleted: bool,
    pasted: String,
)
    requires
        tool.text is Some,
        event.type_ == MouseEventType::Release,
        event.button == MouseButton::Middle,
    ensures
        ({
            let buffer = tool.text->0.buffer;
            let (first, opening) = tool.mouse_event(event, state);
            let (second, _) = first.resumed(Reply::Flag(true));
            let (third, pasting) = second.resumed(Reply::Flag(deleted));
            let ticket = PasteTicket {
                from: Clipboard::Primary,
                dragged: tool.dragged,
                sender: tool.sender,
            };
            &&& opening == Outcome::<S>::OpenClipboard(Clipboard::Primary)
            &&& pasting == Outcome::<S>::Buffer(buffer, Request::Paste(ticket))
            &&& paste_effect(ticket, ClipboardText::Text(pasted)) is Drop <==> tool.dragged
            &&& third.resumed(Reply::Done).1 == Outcome::<S>::Done(
                ToolUpdateResult::StopPropagation,
            )
        }),
{
}

// ---------------------------------------------------------------------------------------------
// Selecting

/// Whether the cursor is at one end of the selection, as it always is.
pub open spec fn cursor_at_an_end(state: BufferState) -> bool {
    match state.selection {
        Some((start, end)) => state.insert.offset == start.offset || state.insert.offset
            == end.offset,
        None => true,
    }
}

/// Whether a step of a selection that keeps the cursor at `anchor` has not yet changed anything,
/// or leaves the cursor there.
pub open spec fn keeps_the_anchor<S>(step: (TextTool<S>, Outcome<S>), anchor: i32) -> bool {
    match step.1 {
        Outcome::Buffer(_, Request::Select { insert, .. }) => insert == anchor,
        Outcome::Buffer(_, Request::Move { .. }) => step.0.pending matches Some(
            (_, Pending::SelectTo { anchor: a, .. }),
        ) && a == anchor,
        _ => false,
    }
}

/// Selecting with the keys keeps one end of the selection where it is: that at which the cursor
/// is. Only selecting everything does not.
pub proof fn law_selecting_keeps_the_cursor<S: Scalar>(
    tool: TextTool<S>,
    state: BufferState,
    scope: ActionScope,
    move_length: S,
)
    requires
        tool.text is Some,
        cursor_at_an_end(state),
        scope != ActionScope::SelectAll,
    ensures
        keeps_the_anchor(
            tool.buffer_action(state, Action::Select, scope, move_length),
            state.insert.offset,
        ),
{
}

/// A selection that has kept its anchor so far keeps it to the end.
pub proof fn law_selecting_goes_on_keeping_the_cursor<S: Scalar>(
    tool: TextTool<S>,
    anchor: i32,
    goal: Goal,
    buffer: u64,
    place: TextPoint,
)
    requires
        tool.pending == Some((buffer, Pending::<S>::SelectTo { anchor, goal })),
    ensures
        keeps_the_anchor(tool.resumed(Reply::Point(place)), anchor),
{
}

/// Moving the cursor out of a selection by a character or a line goes to that end of it which is
/// in the direction of the movement, and nothing is selected then.
pub proof fn law_leaving_a_selection<S: Scalar>(
    tool: TextTool<S>,
    state: BufferState,
    forward: bool,
    by_line: bool,
    move_length: S,
    reached: TextPoint,
)
    requires
        tool.text is Some,
        state.selection is Some,
    ensures
        ({
            let buffer = tool.text->0.buffer;
            let (start, end) = state.selection->0;
            let scope = match (forward, by_line) {
                (true, false) => ActionScope::ForwardChar,
                (true, true) => ActionScope::ForwardLineAndWord,
                (false, false) => ActionScope::BackwardChar,
                (false, true) => ActionScope::BackwardLineAndWord,
            };
            let at = if forward {
                end.offset
            } else {
                start.offset
            };
            let (first, clearing) = tool.buffer_action(
                state,
                Action::MoveCursor,
                scope,
                move_length,
            );
            let (second, placing) = first.resumed(Reply::Done);
            &&& clearing == Outcome::<S>::Buffer(buffer, Request::ClearSelection)
            &&& placing == Outcome::<S>::Buffer(buffer, Request::PlaceCursor { at })
            &&& second.resumed(Reply::Point(reached)).1 == Outcome::<S>::Done(
                ToolUpdateResult::RedrawAndStopPropagation,
            )
        }),
{
}

/// A click on the text puts the cursor there. A second one selects from the beginning to the end
/// of the word round it. A third one goes back to the beginning of the text, as far as it is not
/// there, and selects from there to the end.
pub proof fn law_clicks_on_the_text<S: Scalar>(
    tool: TextTool<S>,
    event: MouseEventMsg<S>,
    state: BufferState,
    place: TextPoint,
    first_end: TextPoint,
    second_end: TextPoint,
)
    requires
        event.type_ == MouseEventType::Click,
        event.button == MouseButton::Primary,
        tool.text_at(event.pos),
        tool.can_locate(event),
    ensures
        ({
            let buffer = tool.text->0.buffer;
            let offset = tool.text->0.layout->0.spec_click_offset(event.pos)->0;
            let (clicked, finding) = tool.mouse_event(event, state);
            let (found, placing) = clicked.resumed(Reply::Point(place));
            let (placed, outcome) = found.resumed(Reply::Point(place));
            &&& finding == Outcome::<S>::Buffer(
                buffer,
                Request::Move { from: state.insert.offset, motion: Motion::SetOffset(offset) },
            )
            &&& placing == Outcome::<S>::Buffer(buffer, Request::PlaceCursor { at: place.offset })
            &&& event.n_pressed != 2 && event.n_pressed != 3 ==> outcome == Outcome::<S>::Done(
                ToolUpdateResult::RedrawAndStopPropagation,
            )
            &&& event.n_pressed == 2 ==> outcome == Outcome::<S>::Buffer(
                buffer,
                Request::Move { from: place.offset, motion: Motion::BackwardWordStart },
            )
            &&& event.n_pressed == 3 ==> outcome == Outcome::<S>::Buffer(
                buffer,
                Request::Move {
                    from: place.offset,
                    motion: if place.is_start {
                        Motion::ForwardToEnd
                    } else {
                        Motion::BackwardLine
                    },
                },
            )
            &&& event.n_pressed == 3 && !place.is_start && !first_end.is_start ==> placed.resumed(
                Reply::Point(first_end),
            ) == (
                placed,
                Outcome::<S>::Buffer(
                    buffer,
                    Request::Move { from: first_end.offset, motion: Motion::BackwardLine },
                ),
            )
            &&& event.n_pressed == 2 || (event.n_pressed == 3 && (place.is_start
                || first_end.is_start)) ==> {
                let at_start = event.n_pressed == 3 && place.is_start;
                let (before, forward) = if at_start {
                    (placed, outcome)
                } else {
                    placed.resumed(Reply::Point(first_end))
                };
                let (around, selecting) = before.resumed(Reply::Point(second_end));
                let first = if at_start {
                    place
                } else {
                    first_end
                };
                &&& forward == Outcome::<S>::Buffer(
                    buffer,
                    Request::Move {
                        from: place.offset,
                        motion: if event.n_pressed == 2 {
                            Motion::ForwardWordEnd
                        } else {
                            Motion::ForwardToEnd
                        },
                    },
                )
                &&& selecting == Outcome::<S>::Buffer(
                    buffer,
                    Request::Select { insert: first.offset, bound: second_end.offset },
                )
                &&& around.resumed(Reply::Done).1 == Outcome::<S>::Done(
                    ToolUpdateResult::RedrawAndStopPropagation,
                )
            }
        }),
{
}

/// A drag over the text selects from the cursor to where the mouse is.
pub proof fn law_drag_over_the_text_selects<S: Scalar>(
    tool: TextTool<S>,
    event: MouseEventMsg<S>,
    state: BufferState,
    place: TextPoint,
)
    requires
        event.type_ == MouseEventType::UpdateDrag,
        event.button == MouseButton::Primary,
        tool.text_at(tool.drag_start_pos.spec_plus(event.pos)),
        tool.can_locate(event),
    ensures
        ({
            let buffer = tool.text->0.buffer;
            let (dragged, _) = tool.mouse_event(event, state);
            let (found, selecting) = dragged.resumed(Reply::Point(place));
            &&& selecting == Outcome::<S>::Buffer(
                buffer,
                Request::Select { insert: state.insert.offset, bound: place.offset },
            )
            &&& found.resumed(Reply::Done).1 == Outcome::<S>::Done(
                ToolUpdateResult::RedrawAndStopPropagation,
            )
        }),
{
}

// ---------------------------------------------------------------------------------------------
// Moving the text

/// Moving the text as a whole asks nothing of its buffer.
pub proof fn law_moving_the_text_keeps_it<S: Scalar>(
    tool: TextTool<S>,
    state: BufferState,
    scope: ActionScope,
    move_length: S,
    nudge: bool,
)
    requires
        tool.text is Some,
    ensures
        ({
            let action = if nudge {
                Action::NudgeOrigin
            } else {
                Action::MoveOrigin
            };
            let (after, outcome) = tool.buffer_action(state, action, scope, move_length);
            &&& outcome is Done
            &&& after.text == Some((Text { pos: after.text->0.pos, ..tool.text->0 }))
        }),
{
}

/// A nudge moves the text by one pixel in the direction of the arrow, and the nudge in the
/// opposite direction moves it back.
pub proof fn law_nudges_by_one_pixel(
    tool: TextTool<i64>,
    state: BufferState,
    move_length: i64,
    forward: bool,
    horizontal: bool,
)
    requires
        tool.text is Some,
        i64::MIN < tool.text->0.pos.x < i64::MAX,
        i64::MIN < tool.text->0.pos.y < i64::MAX,
    ensures
        ({
            let (scope, opposite) = match (forward, horizontal) {
                (true, true) => (ActionScope::Right, ActionScope::Left),
                (false, true) => (ActionScope::Left, ActionScope::Right),
                (true, false) => (ActionScope::Down, ActionScope::Up),
                (false, false) => (ActionScope::Up, ActionScope::Down),
            };
            let pos = tool.text->0.pos;
            let step: int = if forward {
                1
            } else {
                -1
            };
            let (there, outcome) = tool.buffer_action(
                state,
                Action::NudgeOrigin,
                scope,
                move_length,
            );
            let (back, _) = there.buffer_action(
                state,
                Action::NudgeOrigin,
                opposite,
                move_length,
            );
            &&& there.text->0.pos == if horizontal {
                Vec2D { x: (pos.x + step) as i64, y: pos.y }
            } else {
                Vec2D { x: pos.x, y: (pos.y + step) as i64 }
            }
            &&& outcome == Outcome::<i64>::Done(ToolUpdateResult::RedrawAndStopPropagation)
            &&& back.text == tool.text
        }),
{
}

} // verus!
