//! What events do to the text tool, step by step.
//!
//! Handling an event may take several steps, because the buffer belongs to the host: the tool asks
//! for one thing, and goes on when it is told the outcome.

use vstd::prelude::*;

use super::buffer::{
    cursor_motion, deletion_motion, Action, ActionScope, BufferState, Clipboard, Goal, Motion,
    PasteTicket, Reply, Request, TextPoint,
};
use super::content::Text;
use super::keys::{key_command, KeyCommand};
use crate::canvas::ByteRange;
use crate::ime::{InputContext, Preedit, PreeditSpan};
use crate::math::Vec2D;
use crate::scalar::Scalar;
use crate::sketch_board::{
    Key, KeyEventMsg, MouseButton, MouseEventMsg, MouseEventType, Sender, ToolUpdateResult,
};
use crate::style::Style;

verus! {

/// What an input method tells.
#[derive(Debug, PartialEq)]
pub enum TextEventMsg {
    /// The text is final.
    Commit(String),
    /// The text is still being composed.
    Preedit { text: String, cursor_chars: Option<usize>, spans: Vec<PreeditSpan> },
    /// Nothing is being composed any more.
    PreeditEnd,
}

/// What follows a deletion.
#[derive(Debug, PartialEq)]
pub enum After {
    /// The event is answered by whether anything was deleted.
    Answer,
    /// The text of an input method takes the place of what was deleted.
    CommitText(String),
    Newline,
    Paste { from: Clipboard, dragged: bool },
    Cut,
}

/// What the tool was doing when it asked for something.
#[derive(Debug, PartialEq)]
pub enum Pending<S> {
    /// Finding the end of what is to be deleted.
    DeleteTo { start: i32, after: After },
    Delete { after: After },
    /// Finding where the cursor goes. It came from `origin`, and something was `selected` then.
    CursorTo { origin: i32, selected: bool, goal: Goal },
    CursorCleared { origin: i32, selected: bool, at: i32 },
    CursorPlaced { origin: i32, selected: bool },
    /// Finding the loose end of a selection.
    SelectTo { anchor: i32, goal: Goal },
    /// The last thing to be done; this is the answer to the event.
    Finish(ToolUpdateResult<Text<S>>),
    OpenPaste { from: Clipboard, range: (i32, i32), dragged: bool },
    OpenCopy { start: i32, end: i32, cut: bool },
    Cut { start: i32, end: i32 },
    /// Handing over a text that is finished; the next one begins at `pos`.
    Commit { text: Text<S>, pos: Vec2D<S> },
    Opening { pos: Vec2D<S>, result: ToolUpdateResult<Text<S>> },
    ClickTo { presses: i32 },
    ClickPlaced { place: TextPoint, presses: i32 },
    WordStart { at: i32 },
    TextStart { at: i32 },
    /// Finding the second end of a selection that begins at `start`.
    SelectionEnd { start: i32 },
    DragTo { anchor: i32 },
}

/// How the handling of an event goes on.
#[derive(Debug, PartialEq)]
pub enum Outcome<S> {
    /// The buffer is asked for something.
    Buffer(u64, Request),
    /// A new, empty buffer is needed.
    NewBuffer,
    /// A clipboard is needed. Answered by whether there is one.
    OpenClipboard(Clipboard),
    /// The event is handled.
    Done(ToolUpdateResult<Text<S>>),
}

/// The text tool. `pending` tells what it waits for, and on which buffer.
#[derive(Debug, PartialEq)]
pub struct TextTool<S> {
    pub text: Option<Text<S>>,
    pub style: Style,
    pub input_enabled: bool,
    pub im_context: Option<InputContext>,
    pub sender: Option<Sender>,
    pub drag_start_pos: Vec2D<S>,
    pub dragged: bool,
    /// Alt was pressed, and no other key since.
    pub alt_tap: bool,
    pub pending: Option<(u64, Pending<S>)>,
}

/// A text that is not edited any more.
pub open spec fn finished_text<S>(text: Text<S>) -> Text<S> {
    Text { preedit: None, editing: false, im_context: None, draw_rect: false, ..text }
}

/// Whether the key is one of the Alt keys.
pub open spec fn is_alt(key: Key) -> bool {
    key is AltL || key is AltR
}

/// By how much an action of the given length moves the text.
pub open spec fn origin_offset<S: Scalar>(scope: ActionScope, length: S) -> Vec2D<S> {
    let zero = S::spec_from_int(0);
    match scope {
        ActionScope::Left => Vec2D { x: length.spec_negated(), y: zero },
        ActionScope::Right => Vec2D { x: length, y: zero },
        ActionScope::Up => Vec2D { x: zero, y: length.spec_negated() },
        ActionScope::Down => Vec2D { x: zero, y: length },
        _ => Vec2D { x: zero, y: zero },
    }
}

/// What a deletion without a movement deletes: the selection, if there is one.
pub open spec fn selected_range(state: BufferState) -> (i32, i32) {
    match state.selection {
        Some((start, end)) => (start.offset, end.offset),
        None => (state.insert.offset, state.insert.offset),
    }
}

/// The fixed and the loose end of a selection that is about to be changed: the cursor is fixed.
pub open spec fn selection_ends(state: BufferState) -> (TextPoint, TextPoint) {
    match state.selection {
        Some((start, end)) => if state.insert.offset == start.offset {
            (start, end)
        } else {
            (end, start)
        },
        None => (state.insert, state.insert),
    }
}

/// Where the cursor goes at once because something is selected: to the end of the selection in
/// the direction of the movement.
pub open spec fn selection_exit(state: BufferState, scope: ActionScope) -> Option<i32> {
    match state.selection {
        None => None,
        Some((start, end)) => match scope {
            ActionScope::ForwardChar | ActionScope::ForwardLineAndWord => Some(end.offset),
            ActionScope::BackwardChar | ActionScope::BackwardLineAndWord => Some(start.offset),
            _ => None,
        },
    }
}

pub open spec fn redraw_if<S>(changed: bool) -> ToolUpdateResult<Text<S>> {
    if changed {
        ToolUpdateResult::RedrawAndStopPropagation
    } else {
        ToolUpdateResult::StopPropagation
    }
}

impl<S: Scalar> TextTool<S> {
    /// The tool waits for its buffer to have done something.
    pub open spec fn asking(self, buffer: u64, pending: Pending<S>, request: Request) -> (
        Self,
        Outcome<S>,
    ) {
        (TextTool { pending: Some((buffer, pending)), ..self }, Outcome::Buffer(buffer, request))
    }

    /// The event is handled.
    pub open spec fn done(self, result: ToolUpdateResult<Text<S>>) -> (Self, Outcome<S>) {
        (TextTool { pending: None, ..self }, Outcome::Done(result))
    }

    /// The lines of the text as they were drawn last.
    pub open spec fn drawn_lines(self) -> Seq<ByteRange> {
        match self.text {
            Some(t) => match t.layout {
                Some(layout) => layout.line_ranges@,
                None => seq![],
            },
            None => seq![],
        }
    }

    pub open spec fn deleting(self, buffer: u64, range: (i32, i32), after: After) -> (
        Self,
        Outcome<S>,
    ) {
        self.asking(
            buffer,
            Pending::Delete { after },
            Request::Delete { start: range.0, end: range.1 },
        )
    }

    /// The cursor is put somewhere, with nothing selected.
    pub open spec fn placing(self, buffer: u64, state: BufferState, at: i32) -> (Self, Outcome<S>) {
        self.asking(
            buffer,
            Pending::CursorCleared {
                origin: state.insert.offset,
                selected: state.selection is Some,
                at,
            },
            Request::ClearSelection,
        )
    }

    /// An action on the buffer of the text that is being edited, which `state` is the state of.
    /// `move_length` is the length of a large step of the text as a whole.
    pub open spec fn buffer_action(
        self,
        state: BufferState,
        action: Action,
        scope: ActionScope,
        move_length: S,
    ) -> (Self, Outcome<S>)
        recommends
            self.text is Some,
    {
        let text = self.text->0;
        match action {
            Action::Delete => match (state.selection, deletion_motion(scope)) {
                (None, Some(motion)) => self.asking(
                    text.buffer,
                    Pending::DeleteTo { start: state.insert.offset, after: After::Answer },
                    Request::Move { from: state.insert.offset, motion },
                ),
                _ => self.deleting(text.buffer, selected_range(state), After::Answer),
            },
            Action::MoveCursor => match selection_exit(state, scope) {
                Some(at) => self.placing(text.buffer, state, at),
                None => match cursor_motion(scope, state.insert, state.text@, self.drawn_lines()) {
                    None => self.placing(text.buffer, state, state.insert.offset),
                    Some((motion, goal)) => self.asking(
                        text.buffer,
                        Pending::CursorTo {
                            origin: state.insert.offset,
                            selected: state.selection is Some,
                            goal,
                        },
                        Request::Move { from: state.insert.offset, motion },
                    ),
                },
            },
            Action::Select => {
                let (anchor, loose) = selection_ends(state);
                let finish = Pending::Finish(ToolUpdateResult::RedrawAndStopPropagation);
                let motion = match scope {
                    ActionScope::BufferStart | ActionScope::BufferEnd => None,
                    _ => cursor_motion(scope, loose, state.text@, self.drawn_lines()),
                };
                match (scope, motion) {
                    (ActionScope::SelectAll, _) => self.asking(
                        text.buffer,
                        finish,
                        Request::SelectAll,
                    ),
                    (_, None) => self.asking(
                        text.buffer,
                        finish,
                        Request::Select { insert: anchor.offset, bound: loose.offset },
                    ),
                    (_, Some((motion, goal))) => self.asking(
                        text.buffer,
                        Pending::SelectTo { anchor: anchor.offset, goal },
                        Request::Move { from: loose.offset, motion },
                    ),
                }
            },
            Action::MoveOrigin | Action::NudgeOrigin => {
                let length = if action is MoveOrigin {
                    move_length
                } else {
                    S::spec_from_int(1)
                };
                let offset = origin_offset(scope, length);
                if offset.spec_is_zero() {
                    self.done(ToolUpdateResult::StopPropagation)
                } else {
                    TextTool {
                        text: Some(Text { pos: text.pos.spec_plus(offset), ..text }),
                        ..self
                    }.done(ToolUpdateResult::RedrawAndStopPropagation)
                }
            },
        }
    }

    /// What follows a deletion on a buffer.
    pub open spec fn after_deletion(self, buffer: u64, deleted: bool, after: After) -> (
        Self,
        Outcome<S>,
    ) {
        match after {
            After::Answer => self.done(redraw_if(deleted)),
            After::CommitText(text) => TextTool {
                text: match self.text {
                    Some(t) => Some(Text { preedit: None, ..t }),
                    None => None,
                },
                ..self
            }.asking(buffer, Pending::Finish(ToolUpdateResult::Redraw), Request::Insert(text)),
            After::Newline => self.asking(
                buffer,
                Pending::Finish(ToolUpdateResult::RedrawAndStopPropagation),
                Request::InsertNewline,
            ),
            After::Paste { from, dragged } => self.asking(
                buffer,
                Pending::Finish(ToolUpdateResult::StopPropagation),
                Request::Paste(PasteTicket { from, dragged, sender: self.sender }),
            ),
            After::Cut => self.done(ToolUpdateResult::RedrawAndStopPropagation),
        }
    }

    /// A clipboard is opened, to paste from.
    pub open spec fn pasting(
        self,
        buffer: u64,
        state: BufferState,
        from: Clipboard,
        dragged: bool,
    ) -> (Self, Outcome<S>) {
        (
            TextTool {
                pending: Some(
                    (buffer, Pending::OpenPaste { from, range: selected_range(state), dragged }),
                ),
                ..self
            },
            Outcome::OpenClipboard(from),
        )
    }

    /// The text is handed over, without a new one.
    pub open spec fn committing(self, text: Text<S>) -> (Self, Outcome<S>) {
        TextTool { text: None, input_enabled: false, ..self }.asking(
            text.buffer,
            Pending::Finish(ToolUpdateResult::Commit(finished_text(text))),
            Request::ClearSelection,
        )
    }

    /// What a key does to a text that is being edited.
    pub open spec fn key_on_text(
        self,
        text: Text<S>,
        command: KeyCommand,
        state: BufferState,
        move_length: S,
    ) -> (Self, Outcome<S>) {
        match command {
            KeyCommand::Newline => self.deleting(
                text.buffer,
                selected_range(state),
                After::Newline,
            ),
            KeyCommand::Finish => if state.text@.len() == 0 {
                TextTool { text: None, input_enabled: false, ..self }.done(
                    ToolUpdateResult::RedrawAndStopPropagation,
                )
            } else {
                self.committing(text)
            },
            KeyCommand::Dismiss => TextTool { text: None, input_enabled: false, ..self }.done(
                ToolUpdateResult::Redraw,
            ),
            KeyCommand::AltDown => TextTool { alt_tap: true, ..self }.done(
                ToolUpdateResult::StopPropagation,
            ),
            KeyCommand::Edit(action, scope) => self.buffer_action(
                state,
                action,
                scope,
                move_length,
            ),
            KeyCommand::Paste(from) => self.pasting(text.buffer, state, from, false),
            KeyCommand::Copy | KeyCommand::Cut => match state.selection {
                Some((start, end)) => (
                    TextTool {
                        pending: Some(
                            (
                                text.buffer,
                                Pending::OpenCopy {
                                    start: start.offset,
                                    end: end.offset,
                                    cut: command is Cut,
                                },
                            ),
                        ),
                        ..self
                    },
                    Outcome::OpenClipboard(Clipboard::Standard),
                ),
                // With nothing to copy, the key is for the global shortcuts.
                None => self.done(
                    if command is Copy {
                        ToolUpdateResult::Unmodified
                    } else {
                        ToolUpdateResult::StopPropagation
                    },
                ),
            },
            KeyCommand::Swallow => self.done(ToolUpdateResult::StopPropagation),
            KeyCommand::PassOn => self.done(ToolUpdateResult::Unmodified),
        }
    }

    /// What a key does. Any key but Alt ends what might become a tap on Alt.
    pub open spec fn key_event(self, event: KeyEventMsg, state: BufferState, move_length: S) -> (
        Self,
        Outcome<S>,
    ) {
        let tool = TextTool { alt_tap: self.alt_tap && is_alt(event.key), ..self };
        match tool.text {
            Some(text) => tool.key_on_text(text, key_command(event), state, move_length),
            None => tool.done(ToolUpdateResult::Unmodified),
        }
    }

    /// What the release of a key does: a tap on Alt goes on to the next effect.
    pub open spec fn key_release(self, event: KeyEventMsg) -> (Self, ToolUpdateResult<Text<S>>) {
        if is_alt(event.key) && self.alt_tap {
            match self.text {
                Some(t) => (
                    TextTool {
                        alt_tap: false,
                        text: Some(Text { effect: t.effect.spec_next(), ..t }),
                        ..self
                    },
                    ToolUpdateResult::RedrawAndStopPropagation,
                ),
                None => (TextTool { alt_tap: false, ..self }, ToolUpdateResult::Unmodified),
            }
        } else {
            (self, ToolUpdateResult::Unmodified)
        }
    }

    /// Nothing is being composed any more.
    pub open spec fn preedit_ended(self) -> (Self, Outcome<S>)
        recommends
            self.text is Some,
    {
        let text = self.text->0;
        TextTool { text: Some(Text { preedit: None, ..text }), ..self }.done(
            if text.preedit is Some {
                ToolUpdateResult::Redraw
            } else {
                ToolUpdateResult::Unmodified
            },
        )
    }

    /// What is told by an input method.
    pub open spec fn text_event(self, event: TextEventMsg, state: BufferState) -> (
        Self,
        Outcome<S>,
    ) {
        match self.text {
            None => self.done(ToolUpdateResult::Unmodified),
            Some(t) => match event {
                TextEventMsg::Commit(text) => self.deleting(
                    t.buffer,
                    selected_range(state),
                    After::CommitText(text),
                ),
                TextEventMsg::Preedit { text, cursor_chars, spans } => if text@.len() == 0 {
                    self.preedit_ended()
                } else {
                    TextTool {
                        text: Some(
                            Text { preedit: Some(Preedit { text, cursor_chars, spans }), ..t },
                        ),
                        ..self
                    }.done(ToolUpdateResult::Redraw)
                },
                TextEventMsg::PreeditEnd => self.preedit_ended(),
            },
        }
    }

    /// Whether the text that is being edited was drawn where the position is.
    pub open spec fn text_at(self, pos: Vec2D<S>) -> bool {
        self.text matches Some(t) && t.layout_at(pos) is Some
    }

    /// Whether the characters of the text lie so that a click or a drag can be told where it
    /// goes: that fails only where it comes across a line without characters.
    pub open spec fn can_locate(self, event: MouseEventMsg<S>) -> bool {
        match (event.type_, event.button) {
            (MouseEventType::Click, MouseButton::Primary) => self.text_at(event.pos)
                ==> self.text->0.layout->0.spec_click_offset(event.pos) is Some,
            (MouseEventType::UpdateDrag, MouseButton::Primary) => {
                let pos = self.drag_start_pos.spec_plus(event.pos);
                self.text_at(pos) ==> self.text->0.layout->0.spec_drag_offset(pos) is Some
            },
            _ => true,
        }
    }

    /// A place is looked up by its offset.
    pub open spec fn locating(self, state: BufferState, pending: Pending<S>, offset: i32) -> (
        Self,
        Outcome<S>,
    ) {
        self.asking(
            self.text->0.buffer,
            pending,
            Request::Move { from: state.insert.offset, motion: Motion::SetOffset(offset) },
        )
    }

    /// A new text is begun, and the event is answered with `result` then.
    pub open spec fn opening(self, pos: Vec2D<S>, result: ToolUpdateResult<Text<S>>) -> (
        Self,
        Outcome<S>,
    ) {
        (
            TextTool { pending: Some((0, Pending::Opening { pos, result })), ..self },
            Outcome::NewBuffer,
        )
    }

    /// What a click does: on the text it places the cursor, elsewhere it begins a new text.
    pub open spec fn click(self, event: MouseEventMsg<S>, state: BufferState) -> (
        Self,
        Outcome<S>,
    ) {
        if self.text_at(event.pos) {
            self.locating(
                state,
                Pending::ClickTo { presses: event.n_pressed },
                self.text->0.layout->0.spec_click_offset(event.pos)->0,
            )
        } else {
            match self.text {
                Some(t) if state.text@.len() > 0 => TextTool { text: None, ..self }.asking(
                    t.buffer,
                    Pending::Commit { text: finished_text(t), pos: event.pos },
                    Request::ClearSelection,
                ),
                _ => self.opening(event.pos, ToolUpdateResult::Redraw),
            }
        }
    }

    /// What a mouse event does.
    pub open spec fn mouse_event(self, event: MouseEventMsg<S>, state: BufferState) -> (
        Self,
        Outcome<S>,
    ) {
        let stop_on_text = if self.text_at(event.pos) {
            ToolUpdateResult::StopPropagation
        } else {
            ToolUpdateResult::Unmodified
        };
        match (event.type_, event.button) {
            (MouseEventType::Click, MouseButton::Primary) => self.click(event, state),
            (MouseEventType::Release, MouseButton::Middle) => match self.text {
                Some(t) => self.pasting(t.buffer, state, Clipboard::Primary, self.dragged),
                None => self.done(ToolUpdateResult::StopPropagation),
            },
            (MouseEventType::BeginDrag, _) => TextTool {
                drag_start_pos: event.pos,
                ..self
            }.done(stop_on_text),
            (MouseEventType::UpdateDrag, MouseButton::Primary) => {
                let tool = TextTool { dragged: true, ..self };
                let pos = self.drag_start_pos.spec_plus(event.pos);
                if tool.text_at(pos) {
                    tool.locating(
                        state,
                        Pending::DragTo { anchor: state.insert.offset },
                        tool.text->0.layout->0.spec_drag_offset(pos)->0,
                    )
                } else {
                    tool.done(ToolUpdateResult::StopPropagation)
                }
            },
            (MouseEventType::UpdateDrag, _) => TextTool { dragged: true, ..self }.done(
                ToolUpdateResult::Unmodified,
            ),
            (MouseEventType::EndDrag, _) => TextTool { dragged: false, ..self }.done(stop_on_text),
            _ => self.done(ToolUpdateResult::Unmodified),
        }
    }

    pub open spec fn deactivated(self, state: BufferState) -> (Self, Outcome<S>) {
        let tool = TextTool { input_enabled: false, ..self };
        match self.text {
            None => tool.done(ToolUpdateResult::Unmodified),
            Some(t) => if state.text@.len() == 0 {
                TextTool { text: None, ..tool }.done(ToolUpdateResult::Redraw)
            } else {
                tool.committing(t)
            },
        }
    }

    /// The tool writes in another style.
    pub open spec fn styled(self, style: Style) -> (Self, ToolUpdateResult<Text<S>>) {
        match self.text {
            Some(t) => (
                TextTool { style, text: Some(Text { style, ..t }), ..self },
                ToolUpdateResult::Redraw,
            ),
            None => (TextTool { style, ..self }, ToolUpdateResult::Unmodified),
        }
    }

    /// Another input method is in use.
    pub open spec fn with_im_context(self, context: Option<InputContext>) -> Self {
        TextTool {
            im_context: context,
            text: match self.text {
                Some(t) => Some(Text { im_context: context, ..t }),
                None => None,
            },
            ..self
        }
    }

    /// A step through the history of the text.
    pub open spec fn history_step(self, request: Request) -> (Self, Outcome<S>) {
        match self.text {
            Some(t) => self.asking(
                t.buffer,
                Pending::Finish(ToolUpdateResult::Redraw),
                request,
            ),
            None => self.done(ToolUpdateResult::Unmodified),
        }
    }

    /// How the tool goes on when it is told the outcome of what it asked for. An outcome that it
    /// did not ask for ends the matter.
    pub open spec fn resumed(self, reply: Reply) -> (Self, Outcome<S>) {
        match self.pending {
            None => self.done(ToolUpdateResult::Unmodified),
            Some((buffer, pending)) => self.resumed_with(buffer, pending, reply),
        }
    }

    pub open spec fn resumed_with(self, buffer: u64, pending: Pending<S>, reply: Reply) -> (
        Self,
        Outcome<S>,
    ) {
        let finish = Pending::Finish(ToolUpdateResult::RedrawAndStopPropagation);
        match (pending, reply) {
            (Pending::DeleteTo { start, after }, Reply::Point(end)) => self.deleting(
                buffer,
                (start, end.offset),
                after,
            ),
            (Pending::Delete { after }, Reply::Flag(deleted)) => self.after_deletion(
                buffer,
                deleted,
                after,
            ),
            (Pending::CursorTo { origin, selected, goal }, Reply::Point(p)) => {
                match goal.spec_next(p) {
                    Some(motion) => self.asking(
                        buffer,
                        Pending::CursorTo { origin, selected, goal },
                        Request::Move { from: p.offset, motion },
                    ),
                    None => self.asking(
                        buffer,
                        Pending::CursorCleared { origin, selected, at: p.offset },
                        Request::ClearSelection,
                    ),
                }
            },
            (Pending::CursorCleared { origin, selected, at }, Reply::Done) => self.asking(
                buffer,
                Pending::CursorPlaced { origin, selected },
                Request::PlaceCursor { at },
            ),
            (Pending::CursorPlaced { origin, selected }, Reply::Point(p)) => self.done(
                redraw_if(p.offset != origin || selected),
            ),
            (Pending::SelectTo { anchor, goal }, Reply::Point(p)) => {
                match goal.spec_next(p) {
                    Some(motion) => self.asking(
                        buffer,
                        Pending::SelectTo { anchor, goal },
                        Request::Move { from: p.offset, motion },
                    ),
                    None => self.asking(
                        buffer,
                        finish,
                        Request::Select { insert: anchor, bound: p.offset },
                    ),
                }
            },
            (Pending::Finish(result), Reply::Done) => self.done(result),
            (Pending::OpenPaste { from, range, dragged }, Reply::Flag(there)) => if there {
                self.deleting(buffer, range, After::Paste { from, dragged })
            } else {
                self.done(ToolUpdateResult::StopPropagation)
            },
            (Pending::OpenCopy { start, end, cut }, Reply::Flag(there)) => if there {
                self.asking(
                    buffer,
                    if cut {
                        Pending::Cut { start, end }
                    } else {
                        Pending::Finish(ToolUpdateResult::StopPropagation)
                    },
                    Request::Copy { start, end },
                )
            } else {
                self.done(ToolUpdateResult::StopPropagation)
            },
            (Pending::Cut { start, end }, Reply::Done) => self.deleting(
                buffer,
                (start, end),
                After::Cut,
            ),
            (Pending::Commit { text, pos }, Reply::Done) => self.opening(
                pos,
                ToolUpdateResult::Commit(text),
            ),
            (Pending::Opening { pos, result }, Reply::Buffer { buffer, font_ids }) => TextTool {
                text: Some(Text::spec_new(pos, self.style, self.im_context, buffer, font_ids)),
                input_enabled: true,
                ..self
            }.done(result),
            (Pending::ClickTo { presses }, Reply::Point(at)) => self.asking(
                buffer,
                Pending::ClickPlaced { place: at, presses },
                Request::PlaceCursor { at: at.offset },
            ),
            (Pending::ClickPlaced { place, presses }, Reply::Point(_)) => if presses == 2 {
                self.asking(
                    buffer,
                    Pending::WordStart { at: place.offset },
                    Request::Move { from: place.offset, motion: Motion::BackwardWordStart },
                )
            } else if presses == 3 {
                self.select_all_from(buffer, place.offset, place)
            } else {
                self.done(ToolUpdateResult::RedrawAndStopPropagation)
            },
            (Pending::WordStart { at }, Reply::Point(p)) => self.asking(
                buffer,
                Pending::SelectionEnd { start: p.offset },
                Request::Move { from: at, motion: Motion::ForwardWordEnd },
            ),
            (Pending::TextStart { at }, Reply::Point(p)) => self.select_all_from(buffer, at, p),
            (Pending::SelectionEnd { start }, Reply::Point(p)) => self.asking(
                buffer,
                finish,
                Request::Select { insert: start, bound: p.offset },
            ),
            (Pending::DragTo { anchor }, Reply::Point(p)) => self.asking(
                buffer,
                finish,
                Request::Select { insert: anchor, bound: p.offset },
            ),
            _ => self.done(ToolUpdateResult::Unmodified),
        }
    }

    /// The selection of everything after a click at the offset `at`, which has been followed back
    /// to the place `p`.
    pub open spec fn select_all_from(self, buffer: u64, at: i32, p: TextPoint) -> (
        Self,
        Outcome<S>,
    ) {
        match Goal::BufferStart.spec_next(p) {
            Some(motion) => self.asking(
                buffer,
                Pending::TextStart { at },
                Request::Move { from: p.offset, motion },
            ),
            None => self.asking(
                buffer,
                Pending::SelectionEnd { start: p.offset },
                Request::Move { from: at, motion: Motion::ForwardToEnd },
            ),
        }
    }
}

} // verus!
