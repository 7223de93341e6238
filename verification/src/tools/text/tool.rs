//! The text tool: it handles events by the steps that they are made of.

use vstd::prelude::*;

use super::buffer::{
    cursor_motion, motion_for_cursor, motion_for_deletion, Action, ActionScope, BufferState,
    Clipboard, Goal, Motion, PasteTicket, Reply, Request, TextPoint,
};
use super::content::Text;
use super::keys::{command_for_key, KeyCommand};
use super::steps::{
    finished_text, selected_range, After, Outcome, Pending, TextEventMsg, TextTool,
};
use crate::canvas::ByteRange;
use crate::ime::{InputContext, Preedit};
use crate::math::Vec2D;
use crate::scalar::Scalar;
use crate::sketch_board::{
    Key, KeyEventMsg, MouseButton, MouseEventMsg, MouseEventType, Sender, ToolUpdateResult, Tools,
};
use crate::style::Style;

verus! {

impl<S: Scalar> TextTool<S> {
    /// A tool that writes in the given style, with no text yet.
    pub fn new(style: Style) -> (r: Self)
        ensures
            r == (TextTool::<S> {
                text: None,
                style,
                input_enabled: false,
                im_context: None,
                sender: None,
                drag_start_pos: Vec2D::spec_zero(),
                dragged: false,
                alt_tap: false,
                pending: None,
            }),
    {
        TextTool {
            text: None,
            style,
            input_enabled: false,
            im_context: None,
            sender: None,
            drag_start_pos: Vec2D::zero(),
            dragged: false,
            alt_tap: false,
            pending: None,
        }
    }

    fn ask(&mut self, buffer: u64, pending: Pending<S>, request: Request) -> (r: Outcome<S>)
        ensures
            (*final(self), r) == old(self).asking(buffer, pending, request),
    {
        self.pending = Some((buffer, pending));
        Outcome::Buffer(buffer, request)
    }

    fn finish(&mut self, result: ToolUpdateResult<Text<S>>) -> (r: Outcome<S>)
        ensures
            (*final(self), r) == old(self).done(result),
    {
        self.pending = None;
        Outcome::Done(result)
    }

    fn delete(&mut self, buffer: u64, range: (i32, i32), after: After) -> (r: Outcome<S>)
        ensures
            (*final(self), r) == old(self).deleting(buffer, range, after),
    {
        self.ask(
            buffer,
            Pending::Delete { after },
            Request::Delete { start: range.0, end: range.1 },
        )
    }

    fn place(&mut self, buffer: u64, state: &BufferState, at: i32) -> (r: Outcome<S>)
        ensures
            (*final(self), r) == old(self).placing(buffer, *state, at),
    {
        let pending = Pending::CursorCleared {
            origin: state.insert.offset,
            selected: state.selection.is_some(),
            at,
        };
        self.ask(buffer, pending, Request::ClearSelection)
    }

    fn find_motion(&self, scope: ActionScope, at: &TextPoint, state: &BufferState) -> (r: Option<
        (Motion, Goal),
    >)
        ensures
            r == cursor_motion(scope, *at, state.text@, self.drawn_lines()),
    {
        let content = state.text.as_str();
        if let Some(t) = &self.text {
            if let Some(layout) = &t.layout {
                return motion_for_cursor(scope, at, content, &layout.line_ranges);
            }
        }
        let none: Vec<ByteRange> = Vec::new();
        assert(none@ =~= seq![]);
        motion_for_cursor(scope, at, content, &none)
    }

    fn range_to_delete(state: &BufferState) -> (r: (i32, i32))
        ensures
            r == selected_range(*state),
    {
        match &state.selection {
            Some((start, end)) => (start.offset, end.offset),
            None => (state.insert.offset, state.insert.offset),
        }
    }

    /// Acts on the buffer of the text that is being edited, which `state` is the state of.
    pub fn handle_text_buffer_action(
        &mut self,
        state: &BufferState,
        action: Action,
        action_scope: ActionScope,
        move_length: S,
    ) -> (r: Outcome<S>)
        requires
            old(self).text is Some,
        ensures
            (*final(self), r) == old(self).buffer_action(
                *state,
                action,
                action_scope,
                move_length,
            ),
    {
        let buffer: u64 = match &self.text {
            Some(t) => t.buffer,
            None => 0,
        };
        let insert: i32 = state.insert.offset;
        match action {
            Action::Delete => {
                if state.selection.is_none() {
                    if let Some(motion) = motion_for_deletion(action_scope) {
                        return self.ask(
                            buffer,
                            Pending::DeleteTo { start: insert, after: After::Answer },
                            Request::Move { from: insert, motion },
                        );
                    }
                }
                self.delete(buffer, Self::range_to_delete(state), After::Answer)
            },
            Action::MoveCursor => {
                if let Some((start, end)) = &state.selection {
                    match action_scope {
                        ActionScope::ForwardChar | ActionScope::ForwardLineAndWord => {
                            return self.place(buffer, state, end.offset);
                        },
                        ActionScope::BackwardChar | ActionScope::BackwardLineAndWord => {
                            return self.place(buffer, state, start.offset);
                        },
                        _ => {},
                    }
                }
                match self.find_motion(action_scope, &state.insert, state) {
                    None => self.place(buffer, state, insert),
                    Some((motion, goal)) => {
                        let pending = Pending::CursorTo {
                            origin: insert,
                            selected: state.selection.is_some(),
                            goal,
                        };
                        self.ask(buffer, pending, Request::Move { from: insert, motion })
                    },
                }
            },
            Action::Select => {
                let finish = Pending::Finish(ToolUpdateResult::RedrawAndStopPropagation);
                let (anchor, loose) = match &state.selection {
                    Some((start, end)) => if insert == start.offset {
                        (*start, *end)
                    } else {
                        (*end, *start)
                    },
                    None => (state.insert, state.insert),
                };
                let motion = match action_scope {
                    ActionScope::SelectAll => {
                        return self.ask(buffer, finish, Request::SelectAll);
                    },
                    ActionScope::BufferStart | ActionScope::BufferEnd => None,
                    _ => self.find_motion(action_scope, &loose, state),
                };
                match motion {
                    None => self.ask(
                        buffer,
                        finish,
                        Request::Select { insert: anchor.offset, bound: loose.offset },
                    ),
                    Some((motion, goal)) => self.ask(
                        buffer,
                        Pending::SelectTo { anchor: anchor.offset, goal },
                        Request::Move { from: loose.offset, motion },
                    ),
                }
            },
            Action::MoveOrigin | Action::NudgeOrigin => {
                let length = match action {
                    Action::MoveOrigin => move_length,
                    _ => S::from_int(1),
                };
                let zero = S::from_int(0);
                let offset = match action_scope {
                    ActionScope::Left => Vec2D::new(length.negated(), zero),
                    ActionScope::Right => Vec2D::new(length, zero),
                    ActionScope::Up => Vec2D::new(zero, length.negated()),
                    ActionScope::Down => Vec2D::new(zero, length),
                    _ => Vec2D::new(zero, zero),
                };
                if offset.is_zero() {
                    self.finish(ToolUpdateResult::StopPropagation)
                } else {
                    if let Some(t) = &mut self.text {
                        t.pos = t.pos.plus(offset);
                    }
                    self.finish(ToolUpdateResult::RedrawAndStopPropagation)
                }
            },
        }
    }

    fn follow_deletion(&mut self, buffer: u64, deleted: bool, after: After) -> (r: Outcome<S>)
        ensures
            (*final(self), r) == old(self).after_deletion(buffer, deleted, after),
    {
        match after {
            After::Answer => if deleted {
                self.finish(ToolUpdateResult::RedrawAndStopPropagation)
            } else {
                self.finish(ToolUpdateResult::StopPropagation)
            },
            After::CommitText(text) => {
                if let Some(t) = &mut self.text {
                    t.preedit = None;
                }
                self.ask(buffer, Pending::Finish(ToolUpdateResult::Redraw), Request::Insert(text))
            },
            After::Newline => self.ask(
                buffer,
                Pending::Finish(ToolUpdateResult::RedrawAndStopPropagation),
                Request::InsertNewline,
            ),
            After::Paste { from, dragged } => {
                let ticket = PasteTicket { from, dragged, sender: self.sender };
                self.ask(
                    buffer,
                    Pending::Finish(ToolUpdateResult::StopPropagation),
                    Request::Paste(ticket),
                )
            },
            After::Cut => self.finish(ToolUpdateResult::RedrawAndStopPropagation),
        }
    }

    fn paste(&mut self, buffer: u64, state: &BufferState, from: Clipboard, dragged: bool) -> (r:
        Outcome<S>)
        ensures
            (*final(self), r) == old(self).pasting(buffer, *state, from, dragged),
    {
        let pending = Pending::OpenPaste { from, range: Self::range_to_delete(state), dragged };
        self.pending = Some((buffer, pending));
        Outcome::OpenClipboard(from)
    }

    fn commit(&mut self, mut text: Text<S>) -> (r: Outcome<S>)
        ensures
            (*final(self), r) == old(self).committing(text),
    {
        let buffer = text.buffer;
        text.finish();
        self.text = None;
        self.input_enabled = false;
        self.ask(
            buffer,
            Pending::Finish(ToolUpdateResult::Commit(text)),
            Request::ClearSelection,
        )
    }

    fn open_text(&mut self, pos: Vec2D<S>, result: ToolUpdateResult<Text<S>>) -> (r: Outcome<S>)
        ensures
            (*final(self), r) == old(self).opening(pos, result),
    {
        self.pending = Some((0, Pending::Opening { pos, result }));
        Outcome::NewBuffer
    }

    /// Handles a key. `state` is the state of the buffer of the text that is being edited; it does
    /// not matter if there is none. `move_length` is the length of a large step of the text as a
    /// whole.
    pub fn handle_key_event(&mut self, event: KeyEventMsg, state: &BufferState, move_length: S) -> (r:
        Outcome<S>)
        ensures
            (*final(self), r) == old(self).key_event(event, *state, move_length),
    {
        match event.key {
            Key::AltL | Key::AltR => {},
            _ => {
                self.alt_tap = false;
            },
        }
        let buffer: u64 = match &self.text {
            Some(t) => t.buffer,
            None => {
                return self.finish(ToolUpdateResult::Unmodified);
            },
        };
        match command_for_key(&event) {
            KeyCommand::Newline => self.delete(
                buffer,
                Self::range_to_delete(state),
                After::Newline,
            ),
            KeyCommand::Finish => {
                if !state.text.as_str().is_empty() {
                    if let Some(text) = self.text.take() {
                        return self.commit(text);
                    }
                }
                self.text = None;
                self.input_enabled = false;
                self.finish(ToolUpdateResult::RedrawAndStopPropagation)
            },
            KeyCommand::Dismiss => {
                let result = self.handle_dismissed();
                self.finish(result)
            },
            KeyCommand::AltDown => {
                self.alt_tap = true;
                self.finish(ToolUpdateResult::StopPropagation)
            },
            KeyCommand::Edit(action, scope) => self.handle_text_buffer_action(
                state,
                action,
                scope,
                move_length,
            ),
            KeyCommand::Paste(from) => self.paste(buffer, state, from, false),
            KeyCommand::Copy => match &state.selection {
                Some((start, end)) => self.copy(buffer, start.offset, end.offset, false),
                None => self.finish(ToolUpdateResult::Unmodified),
            },
            KeyCommand::Cut => match &state.selection {
                Some((start, end)) => self.copy(buffer, start.offset, end.offset, true),
                None => self.finish(ToolUpdateResult::StopPropagation),
            },
            KeyCommand::Swallow => self.finish(ToolUpdateResult::StopPropagation),
            KeyCommand::PassOn => self.finish(ToolUpdateResult::Unmodified),
        }
    }

    fn copy(&mut self, buffer: u64, start: i32, end: i32, cut: bool) -> (r: Outcome<S>)
        ensures
            *final(self) == (TextTool {
                pending: Some((buffer, Pending::OpenCopy { start, end, cut })),
                ..*old(self)
            }),
            r == Outcome::<S>::OpenClipboard(Clipboard::Standard),
    {
        self.pending = Some((buffer, Pending::OpenCopy { start, end, cut }));
        Outcome::OpenClipboard(Clipboard::Standard)
    }

    /// Handles the release of a key.
    pub fn handle_key_release_event(&mut self, event: KeyEventMsg) -> (r: ToolUpdateResult<Text<S>>)
        ensures
            (*final(self), r) == old(self).key_release(event),
    {
        let alt = match event.key {
            Key::AltL | Key::AltR => true,
            _ => false,
        };
        if alt && self.alt_tap {
            self.alt_tap = false;
            if let Some(t) = &mut self.text {
                t.effect = t.effect.next();
                return ToolUpdateResult::RedrawAndStopPropagation;
            }
        }
        ToolUpdateResult::Unmodified
    }

    /// Handles what an input method tells.
    pub fn handle_text_event(&mut self, event: TextEventMsg, state: &BufferState) -> (r: Outcome<S>)
        ensures
            (*final(self), r) == old(self).text_event(event, *state),
    {
        let buffer: u64 = match &self.text {
            Some(t) => t.buffer,
            None => {
                return self.finish(ToolUpdateResult::Unmodified);
            },
        };
        match event {
            TextEventMsg::Commit(text) => self.delete(
                buffer,
                Self::range_to_delete(state),
                After::CommitText(text),
            ),
            TextEventMsg::Preedit { text, cursor_chars, spans } => {
                if text.as_str().is_empty() {
                    self.end_preedit()
                } else {
                    if let Some(t) = &mut self.text {
                        t.preedit = Some(Preedit { text, cursor_chars, spans });
                    }
                    self.finish(ToolUpdateResult::Redraw)
                }
            },
            TextEventMsg::PreeditEnd => self.end_preedit(),
        }
    }

    fn end_preedit(&mut self) -> (r: Outcome<S>)
        requires
            old(self).text is Some,
        ensures
            (*final(self), r) == old(self).preedit_ended(),
    {
        let mut ended: bool = false;
        if let Some(t) = &mut self.text {
            ended = t.preedit.is_some();
            t.preedit = None;
        }
        if ended {
            self.finish(ToolUpdateResult::Redraw)
        } else {
            self.finish(ToolUpdateResult::Unmodified)
        }
    }

    fn is_on_text(&self, pos: Vec2D<S>) -> (r: bool)
        ensures
            r == self.text_at(pos),
    {
        match &self.text {
            Some(t) => t.is_at(pos),
            None => false,
        }
    }

    fn place_of_click(&self, pos: Vec2D<S>) -> (r: Option<i32>)
        ensures
            r == (if self.text_at(pos) {
                self.text->0.layout->0.spec_click_offset(pos)
            } else {
                Some(0i32)
            }),
    {
        match &self.text {
            Some(t) => match &t.layout {
                Some(layout) if t.is_at(pos) => layout.click_offset(pos),
                _ => Some(0),
            },
            None => Some(0),
        }
    }

    fn place_of_drag(&self, pos: Vec2D<S>) -> (r: Option<i32>)
        ensures
            r == (if self.text_at(pos) {
                self.text->0.layout->0.spec_drag_offset(pos)
            } else {
                Some(0i32)
            }),
    {
        match &self.text {
            Some(t) => match &t.layout {
                Some(layout) if t.is_at(pos) => layout.drag_offset(pos),
                _ => Some(0),
            },
            None => Some(0),
        }
    }

    /// Whether a click or a drag can be told where it goes.
    pub fn can_handle_mouse_event(&self, event: &MouseEventMsg<S>) -> (r: bool)
        ensures
            r == self.can_locate(*event),
    {
        match (event.type_, event.button) {
            (MouseEventType::Click, MouseButton::Primary) => {
                self.place_of_click(event.pos).is_some()
            },
            (MouseEventType::UpdateDrag, MouseButton::Primary) => {
                self.place_of_drag(self.drag_start_pos.plus(event.pos)).is_some()
            },
            _ => true,
        }
    }

    fn locate(&mut self, state: &BufferState, pending: Pending<S>, offset: i32) -> (r: Outcome<S>)
        requires
            old(self).text is Some,
        ensures
            (*final(self), r) == old(self).locating(*state, pending, offset),
    {
        let buffer: u64 = match &self.text {
            Some(t) => t.buffer,
            None => 0,
        };
        self.ask(
            buffer,
            pending,
            Request::Move { from: state.insert.offset, motion: Motion::SetOffset(offset) },
        )
    }

    fn handle_click(&mut self, event: MouseEventMsg<S>, state: &BufferState) -> (r: Outcome<S>)
        requires
            old(self).text_at(event.pos)
                ==> old(self).text->0.layout->0.spec_click_offset(event.pos) is Some,
        ensures
            (*final(self), r) == old(self).click(event, *state),
    {
        if self.is_on_text(event.pos) {
            if let Some(offset) = self.place_of_click(event.pos) {
                return self.locate(state, Pending::ClickTo { presses: event.n_pressed }, offset);
            }
        }
        if self.text.is_some() && !state.text.as_str().is_empty() {
            if let Some(mut text) = self.text.take() {
                let buffer = text.buffer;
                text.finish();
                return self.ask(
                    buffer,
                    Pending::Commit { text, pos: event.pos },
                    Request::ClearSelection,
                );
            }
        }
        self.open_text(event.pos, ToolUpdateResult::Redraw)
    }

    fn finish_on_text(&mut self, on_text: bool) -> (r: Outcome<S>)
        ensures
            (*final(self), r) == old(self).done(
                if on_text {
                    ToolUpdateResult::StopPropagation
                } else {
                    ToolUpdateResult::Unmodified
                },
            ),
    {
        if on_text {
            self.finish(ToolUpdateResult::StopPropagation)
        } else {
            self.finish(ToolUpdateResult::Unmodified)
        }
    }

    /// Handles a mouse event.
    pub fn handle_mouse_event(&mut self, event: MouseEventMsg<S>, state: &BufferState) -> (r:
        Outcome<S>)
        requires
            old(self).can_locate(event),
        ensures
            (*final(self), r) == old(self).mouse_event(event, *state),
    {
        match (event.type_, event.button) {
            (MouseEventType::Click, MouseButton::Primary) => self.handle_click(event, state),
            (MouseEventType::Release, MouseButton::Middle) => {
                let buffer: u64 = match &self.text {
                    Some(t) => t.buffer,
                    None => {
                        return self.finish(ToolUpdateResult::StopPropagation);
                    },
                };
                let dragged = self.dragged;
                self.paste(buffer, state, Clipboard::Primary, dragged)
            },
            (MouseEventType::BeginDrag, _) => {
                self.drag_start_pos = event.pos;
                let on_text = self.is_on_text(event.pos);
                self.finish_on_text(on_text)
            },
            (MouseEventType::UpdateDrag, MouseButton::Primary) => {
                self.dragged = true;
                let pos = self.drag_start_pos.plus(event.pos);
                if self.is_on_text(pos) {
                    if let Some(offset) = self.place_of_drag(pos) {
                        let pending = Pending::DragTo { anchor: state.insert.offset };
                        return self.locate(state, pending, offset);
                    }
                }
                self.finish(ToolUpdateResult::StopPropagation)
            },
            (MouseEventType::UpdateDrag, _) => {
                self.dragged = true;
                self.finish(ToolUpdateResult::Unmodified)
            },
            (MouseEventType::EndDrag, _) => {
                self.dragged = false;
                let on_text = self.is_on_text(event.pos);
                self.finish_on_text(on_text)
            },
            _ => self.finish(ToolUpdateResult::Unmodified),
        }
    }

    /// The tool is left: what was written so far is a text of its own.
    pub fn handle_deactivated(&mut self, state: &BufferState) -> (r: Outcome<S>)
        ensures
            (*final(self), r) == old(self).deactivated(*state),
    {
        self.input_enabled = false;
        match self.text.take() {
            None => self.finish(ToolUpdateResult::Unmodified),
            Some(text) => if state.text.as_str().is_empty() {
                self.finish(ToolUpdateResult::Redraw)
            } else {
                self.commit(text)
            },
        }
    }

    /// The text is given up.
    pub fn handle_dismissed(&mut self) -> (r: ToolUpdateResult<Text<S>>)
        ensures
            *final(self) == (TextTool { text: None, input_enabled: false, ..*old(self) }),
            r == ToolUpdateResult::<Text<S>>::Redraw,
    {
        self.input_enabled = false;
        self.text = None;
        ToolUpdateResult::Redraw
    }

    fn ask_for_history(&mut self, request: Request) -> (r: Outcome<S>)
        ensures
            (*final(self), r) == old(self).history_step(request),
    {
        match &self.text {
            Some(t) => {
                let buffer = t.buffer;
                self.ask(buffer, Pending::Finish(ToolUpdateResult::Redraw), request)
            },
            None => self.finish(ToolUpdateResult::Unmodified),
        }
    }

    /// Undoes the last change of the text.
    pub fn handle_undo(&mut self) -> (r: Outcome<S>)
        ensures
            (*final(self), r) == old(self).history_step(Request::Undo),
    {
        self.ask_for_history(Request::Undo)
    }

    /// Does the change again that was undone last.
    pub fn handle_redo(&mut self) -> (r: Outcome<S>)
        ensures
            (*final(self), r) == old(self).history_step(Request::Redo),
    {
        self.ask_for_history(Request::Redo)
    }

    fn select(&mut self, buffer: u64, insert: i32, bound: i32) -> (r: Outcome<S>)
        ensures
            (*final(self), r) == old(self).asking(
                buffer,
                Pending::Finish(ToolUpdateResult::RedrawAndStopPropagation),
                Request::Select { insert, bound },
            ),
    {
        self.ask(
            buffer,
            Pending::Finish(ToolUpdateResult::RedrawAndStopPropagation),
            Request::Select { insert, bound },
        )
    }

    fn look_for_start(&mut self, buffer: u64, at: i32, p: &TextPoint) -> (r: Outcome<S>)
        ensures
            (*final(self), r) == old(self).select_all_from(buffer, at, *p),
    {
        match Goal::BufferStart.next(p) {
            Some(motion) => self.ask(
                buffer,
                Pending::TextStart { at },
                Request::Move { from: p.offset, motion },
            ),
            None => self.ask(
                buffer,
                Pending::SelectionEnd { start: p.offset },
                Request::Move { from: at, motion: Motion::ForwardToEnd },
            ),
        }
    }

    /// Goes on with an event when what the tool asked for has been done.
    pub fn resume(&mut self, reply: Reply) -> (r: Outcome<S>)
        ensures
            (*final(self), r) == old(self).resumed(reply),
    {
        let (buffer, pending) = match self.pending.take() {
            Some(waiting) => waiting,
            None => {
                return self.finish(ToolUpdateResult::Unmodified);
            },
        };
        match (pending, reply) {
            (Pending::DeleteTo { start, after }, Reply::Point(end)) => self.delete(
                buffer,
                (start, end.offset),
                after,
            ),
            (Pending::Delete { after }, Reply::Flag(deleted)) => self.follow_deletion(
                buffer,
                deleted,
                after,
            ),
            (Pending::CursorTo { origin, selected, goal }, Reply::Point(p)) => match goal.next(&p) {
                Some(motion) => self.ask(
                    buffer,
                    Pending::CursorTo { origin, selected, goal },
                    Request::Move { from: p.offset, motion },
                ),
                None => self.ask(
                    buffer,
                    Pending::CursorCleared { origin, selected, at: p.offset },
                    Request::ClearSelection,
                ),
            },
            (Pending::CursorCleared { origin, selected, at }, Reply::Done) => self.ask(
                buffer,
                Pending::CursorPlaced { origin, selected },
                Request::PlaceCursor { at },
            ),
            (Pending::CursorPlaced { origin, selected }, Reply::Point(p)) => {
                if p.offset != origin || selected {
                    self.finish(ToolUpdateResult::RedrawAndStopPropagation)
                } else {
                    self.finish(ToolUpdateResult::StopPropagation)
                }
            },
            (Pending::SelectTo { anchor, goal }, Reply::Point(p)) => match goal.next(&p) {
                Some(motion) => self.ask(
                    buffer,
                    Pending::SelectTo { anchor, goal },
                    Request::Move { from: p.offset, motion },
                ),
                None => self.select(buffer, anchor, p.offset),
            },
            (Pending::Finish(result), Reply::Done) => self.finish(result),
            (Pending::OpenPaste { from, range, dragged }, Reply::Flag(there)) => if there {
                self.delete(buffer, range, After::Paste { from, dragged })
            } else {
                self.finish(ToolUpdateResult::StopPropagation)
            },
            (Pending::OpenCopy { start, end, cut }, Reply::Flag(there)) => if there {
                let pending = if cut {
                    Pending::Cut { start, end }
                } else {
                    Pending::Finish(ToolUpdateResult::StopPropagation)
                };
                self.ask(buffer, pending, Request::Copy { start, end })
            } else {
                self.finish(ToolUpdateResult::StopPropagation)
            },
            (Pending::Cut { start, end }, Reply::Done) => self.delete(
                buffer,
                (start, end),
                After::Cut,
            ),
            (Pending::Commit { text, pos }, Reply::Done) => self.open_text(
                pos,
                ToolUpdateResult::Commit(text),
            ),
            (Pending::Opening { pos, result }, Reply::Buffer { buffer, font_ids }) => {
                let text = Text::new(pos, self.style, self.im_context, buffer, font_ids);
                self.text = Some(text);
                self.set_input_enabled(true);
                self.finish(result)
            },
            (Pending::ClickTo { presses }, Reply::Point(at)) => self.ask(
                buffer,
                Pending::ClickPlaced { place: at, presses },
                Request::PlaceCursor { at: at.offset },
            ),
            (Pending::ClickPlaced { place, presses }, Reply::Point(_)) => if presses == 2 {
                self.ask(
                    buffer,
                    Pending::WordStart { at: place.offset },
                    Request::Move { from: place.offset, motion: Motion::BackwardWordStart },
                )
            } else if presses == 3 {
                self.look_for_start(buffer, place.offset, &place)
            } else {
                self.finish(ToolUpdateResult::RedrawAndStopPropagation)
            },
            (Pending::WordStart { at }, Reply::Point(p)) => self.ask(
                buffer,
                Pending::SelectionEnd { start: p.offset },
                Request::Move { from: at, motion: Motion::ForwardWordEnd },
            ),
            (Pending::TextStart { at }, Reply::Point(p)) => self.look_for_start(buffer, at, &p),
            (Pending::SelectionEnd { start }, Reply::Point(p)) => self.select(
                buffer,
                start,
                p.offset,
            ),
            (Pending::DragTo { anchor }, Reply::Point(p)) => self.select(buffer, anchor, p.offset),
            _ => self.finish(ToolUpdateResult::Unmodified),
        }
    }

    /// The style is for the text that is being edited, and for those to come.
    pub fn handle_style_event(&mut self, style: Style) -> (r: ToolUpdateResult<Text<S>>)
        ensures
            (*final(self), r) == old(self).styled(style),
    {
        self.style = style;
        if let Some(t) = &mut self.text {
            t.style = style;
            ToolUpdateResult::Redraw
        } else {
            ToolUpdateResult::Unmodified
        }
    }

    pub fn set_im_context(&mut self, context: Option<InputContext>)
        ensures
            *final(self) == old(self).with_im_context(context),
    {
        self.im_context = context;
        if let Some(text) = &mut self.text {
            text.im_context = context;
        }
    }

    /// The text that is being edited.
    pub fn get_drawable(&self) -> (r: Option<&Text<S>>)
        ensures
            r == (match self.text {
                Some(t) => Some(&t),
                None => None,
            }),
    {
        match &self.text {
            Some(t) => Some(t),
            None => None,
        }
    }

    pub fn active(&self) -> (r: bool)
        ensures
            r == (self.text is Some),
    {
        self.text.is_some()
    }

    pub fn get_tool_type(&self) -> (r: Tools)
        ensures
            r == Tools::Text,
    {
        Tools::Text
    }

    pub fn input_enabled(&self) -> (r: bool)
        ensures
            r == self.input_enabled,
    {
        self.input_enabled
    }

    pub fn set_input_enabled(&mut self, value: bool)
        ensures
            *final(self) == (TextTool { input_enabled: value, ..*old(self) }),
    {
        self.input_enabled = value;
    }

    pub fn set_sender(&mut self, sender: Sender)
        ensures
            *final(self) == (TextTool { sender: Some(sender), ..*old(self) }),
    {
        self.sender = Some(sender);
    }
}

impl<S: Scalar> Text<S> {
    fn finish(&mut self)
        ensures
            *final(self) == finished_text(*old(self)),
    {
        self.preedit = None;
        self.editing = false;
        self.im_context = None;
        self.draw_rect = false;
    }
}

} // verus!
