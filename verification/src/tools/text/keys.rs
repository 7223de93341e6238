//! What keys mean while a text is being edited.

use vstd::prelude::*;

use super::buffer::{Action, ActionScope, Clipboard};
use crate::sketch_board::{Key, KeyEventMsg};

verus! {

/// What a key asks of the text tool.
#[derive(Clone, Copy, Debug, PartialEq, Eq)]
pub enum KeyCommand {
    /// Break the line.
    Newline,
    /// The text is finished.
    Finish,
    /// The text is given up.
    Dismiss,
    /// Perhaps the first half of a tap on Alt.
    AltDown,
    Edit(Action, ActionScope),
    Paste(Clipboard),
    Copy,
    Cut,
    /// Nothing, but nobody else is to have the event either.
    Swallow,
    /// The event is for somebody else.
    PassOn,
}

/// Moves and selections with the arrow keys. Of the scopes, `word` is for Control, `char` for no
/// modifier or Shift, and `origin` for moving the text as a whole.
pub open spec fn arrow_key_command(
    event: KeyEventMsg,
    word: ActionScope,
    char: ActionScope,
    origin: ActionScope,
) -> KeyCommand {
    let m = event.modifier;
    if m.spec_exactly(false, false, true) {
        KeyCommand::PassOn
    } else if m.spec_exactly(false, true, false) {
        KeyCommand::Edit(Action::MoveCursor, word)
    } else if m.spec_exactly(true, false, false) {
        KeyCommand::Edit(Action::Select, char)
    } else if m.spec_exactly(false, true, true) {
        KeyCommand::Edit(Action::MoveOrigin, origin)
    } else if m.spec_exactly(true, true, true) {
        KeyCommand::Edit(Action::NudgeOrigin, origin)
    } else if m.spec_exactly(true, true, false) {
        KeyCommand::Edit(Action::Select, word)
    } else {
        KeyCommand::Edit(Action::MoveCursor, char)
    }
}

/// Moves and selections with Home and End: `buffer` for Control, `line` else.
pub open spec fn end_key_command(
    event: KeyEventMsg,
    buffer: ActionScope,
    line: ActionScope,
) -> KeyCommand {
    if event.modifier.spec_exactly(false, true, false) {
        KeyCommand::Edit(Action::MoveCursor, buffer)
    } else if event.modifier.spec_exactly(true, false, false) {
        KeyCommand::Edit(Action::Select, line)
    } else {
        KeyCommand::Edit(Action::MoveCursor, line)
    }
}

/// What a key asks of the text tool. Modifiers count only where no others are set.
pub open spec fn key_command(event: KeyEventMsg) -> KeyCommand {
    let control = event.modifier.spec_exactly(false, true, false);
    let shift = event.modifier.spec_exactly(true, false, false);
    match event.key {
        Key::Return => if shift {
            KeyCommand::Newline
        } else {
            KeyCommand::Finish
        },
        Key::Escape => KeyCommand::Dismiss,
        Key::AltL | Key::AltR => KeyCommand::AltDown,
        Key::BackSpace => KeyCommand::Edit(
            Action::Delete,
            if control {
                ActionScope::BackwardWord
            } else {
                ActionScope::BackwardChar
            },
        ),
        Key::Delete => KeyCommand::Edit(
            Action::Delete,
            if control {
                ActionScope::ForwardWord
            } else {
                ActionScope::ForwardChar
            },
        ),
        Key::Left => arrow_key_command(
            event,
            ActionScope::BackwardWord,
            ActionScope::BackwardChar,
            ActionScope::Left,
        ),
        Key::Right => arrow_key_command(
            event,
            ActionScope::ForwardWord,
            ActionScope::ForwardChar,
            ActionScope::Right,
        ),
        Key::Up => arrow_key_command(
            event,
            ActionScope::BackwardLineAndWord,
            ActionScope::BackwardLineAndWord,
            ActionScope::Up,
        ),
        Key::Down => arrow_key_command(
            event,
            ActionScope::ForwardLineAndWord,
            ActionScope::ForwardLineAndWord,
            ActionScope::Down,
        ),
        Key::Home => end_key_command(event, ActionScope::BufferStart, ActionScope::BackwardLine),
        Key::End => end_key_command(event, ActionScope::BufferEnd, ActionScope::ForwardLine),
        Key::LowerA | Key::UpperA => if control {
            KeyCommand::Edit(Action::Select, ActionScope::SelectAll)
        } else {
            KeyCommand::Swallow
        },
        Key::LowerV | Key::UpperV => KeyCommand::Paste(Clipboard::Standard),
        Key::LowerC | Key::UpperC => if control {
            KeyCommand::Copy
        } else {
            KeyCommand::PassOn
        },
        Key::LowerX | Key::UpperX => if control {
            KeyCommand::Cut
        } else {
            KeyCommand::Swallow
        },
        Key::Insert => if shift {
            KeyCommand::Paste(Clipboard::Primary)
        } else {
            KeyCommand::Swallow
        },
        Key::Other => KeyCommand::PassOn,
    }
}

fn command_for_arrow_key(
    event: &KeyEventMsg,
    word: ActionScope,
    char: ActionScope,
    origin: ActionScope,
) -> (r: KeyCommand)
    ensures
        r == arrow_key_command(*event, word, char, origin),
{
    let m = event.modifier;
    if m.exactly(false, false, true) {
        KeyCommand::PassOn
    } else if m.exactly(false, true, false) {
        KeyCommand::Edit(Action::MoveCursor, word)
    } else if m.exactly(true, false, false) {
        KeyCommand::Edit(Action::Select, char)
    } else if m.exactly(false, true, true) {
        KeyCommand::Edit(Action::MoveOrigin, origin)
    } else if m.exactly(true, true, true) {
        KeyCommand::Edit(Action::NudgeOrigin, origin)
    } else if m.exactly(true, true, false) {
        KeyCommand::Edit(Action::Select, word)
    } else {
        KeyCommand::Edit(Action::MoveCursor, char)
    }
}

fn command_for_end_key(event: &KeyEventMsg, buffer: ActionScope, line: ActionScope) -> (r:
    KeyCommand)
    ensures
        r == end_key_command(*event, buffer, line),
{
    if event.modifier.exactly(false, true, false) {
        KeyCommand::Edit(Action::MoveCursor, buffer)
    } else if event.modifier.exactly(true, false, false) {
        KeyCommand::Edit(Action::Select, line)
    } else {
        KeyCommand::Edit(Action::MoveCursor, line)
    }
}

/// What a key asks of the text tool.
pub fn command_for_key(event: &KeyEventMsg) -> (r: KeyCommand)
    ensures
        r == key_command(*event),
{
    let control = event.modifier.exactly(false, true, false);
    let shift = event.modifier.exactly(true, false, false);
    match event.key {
        Key::Return => if shift {
            KeyCommand::Newline
        } else {
            KeyCommand::Finish
        },
        Key::Escape => KeyCommand::Dismiss,
        Key::AltL | Key::AltR => KeyCommand::AltDown,
        Key::BackSpace => KeyCommand::Edit(
            Action::Delete,
            if control {
                ActionScope::BackwardWord
            } else {
                ActionScope::BackwardChar
            },
        ),
        Key::Delete => KeyCommand::Edit(
            Action::Delete,
            if control {
                ActionScope::ForwardWord
            } else {
                ActionScope::ForwardChar
            },
        ),
        Key::Left => command_for_arrow_key(
            event,
            ActionScope::BackwardWord,
            ActionScope::BackwardChar,
            ActionScope::Left,
        ),
        Key::Right => command_for_arrow_key(
            event,
            ActionScope::ForwardWord,
            ActionScope::ForwardChar,
            ActionScope::Right,
        ),
        Key::Up => command_for_arrow_key(
            event,
            ActionScope::BackwardLineAndWord,
            ActionScope::BackwardLineAndWord,
            ActionScope::Up,
        ),
        Key::Down => command_for_arrow_key(
            event,
            ActionScope::ForwardLineAndWord,
            ActionScope::ForwardLineAndWord,
            ActionScope::Down,
        ),
        Key::Home => {
            command_for_end_key(event, ActionScope::BufferStart, ActionScope::BackwardLine)
        },
        Key::End => command_for_end_key(event, ActionScope::BufferEnd, ActionScope::ForwardLine),
        Key::LowerA | Key::UpperA => if control {
            KeyCommand::Edit(Action::Select, ActionScope::SelectAll)
        } else {
            KeyCommand::Swallow
        },
        Key::LowerV | Key::UpperV => KeyCommand::Paste(Clipboard::Standard),
        Key::LowerC | Key::UpperC => if control {
            KeyCommand::Copy
        } else {
            KeyCommand::PassOn
        },
        Key::LowerX | Key::UpperX => if control {
            KeyCommand::Cut
        } else {
            KeyCommand::Swallow
        },
        Key::Insert => if shift {
            KeyCommand::Paste(Clipboard::Primary)
        } else {
            KeyCommand::Swallow
        },
        Key::Other => KeyCommand::PassOn,
    }
}

} // verus!
