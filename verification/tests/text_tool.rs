use sketch_tools::ime::{InputContext, Preedit, PreeditSpan};
use sketch_tools::math::{Rectangle, Vec2D};
use sketch_tools::canvas::ByteRange;
use sketch_tools::sketch_board::{
    Key, KeyEventMsg, Modifiers, MouseButton, MouseEventMsg, MouseEventType, Sender,
    ToolUpdateResult, Tools,
};
use sketch_tools::style::{Color, Style};
use sketch_tools::tools::text::buffer::{
    finish_paste, line_above, line_below, motion_for_cursor, motion_for_deletion, Action,
    ActionScope, BufferState, Clipboard, ClipboardText, Goal, Motion, PasteEffect, PasteTicket,
    Reply, Request, TextPoint,
};
use sketch_tools::tools::text::content::{Text, TextLayout};
use sketch_tools::tools::text::effect::TextEffect;
use sketch_tools::tools::text::keys::{command_for_key, KeyCommand};
use sketch_tools::tools::text::steps::{Outcome, TextEventMsg, TextTool};

type Tool = TextTool<i64>;
type Result = ToolUpdateResult<Text<i64>>;

const BUFFER: u64 = 7;

fn style() -> Style {
    Style { color: Color { r: 1, g: 2, b: 3, a: 255 }, paint: 4 }
}

fn point(offset: i32) -> TextPoint {
    TextPoint { offset, starts_line: offset == 0, is_start: offset == 0 }
}

fn state(text: &str, insert: i32) -> BufferState {
    BufferState { text: text.to_string(), insert: point(insert), selection: None }
}

fn selected(text: &str, insert: i32, start: i32, end: i32) -> BufferState {
    BufferState {
        text: text.to_string(),
        insert: point(insert),
        selection: Some((point(start), point(end))),
    }
}

fn modifiers(shift: bool, control: bool, alt: bool) -> Modifiers {
    Modifiers { shift, control, alt, other: false }
}

fn key(key: Key) -> KeyEventMsg {
    KeyEventMsg { key, modifier: Modifiers::none() }
}

fn with(key: Key, shift: bool, control: bool, alt: bool) -> KeyEventMsg {
    KeyEventMsg { key, modifier: modifiers(shift, control, alt) }
}

fn mouse(type_: MouseEventType, button: MouseButton, x: i64, y: i64) -> MouseEventMsg<i64> {
    MouseEventMsg {
        type_,
        button,
        modifier: Modifiers::none(),
        pos: Vec2D::new(x, y),
        n_pressed: 1,
    }
}

/// Two lines of three characters, each ten wide and twenty high.
fn layout() -> TextLayout {
    let glyph = |x, y| Rectangle::new(x, y, 10, 20);
    TextLayout {
        rect: Rectangle::new(99, 99, 52, 42),
        glyphs: vec![
            vec![glyph(100, 100), glyph(110, 100), glyph(120, 100)],
            vec![glyph(100, 120), glyph(110, 120), glyph(120, 120)],
        ],
        line_ranges: vec![ByteRange { start: 0, end: 3 }, ByteRange { start: 3, end: 6 }],
    }
}

/// A tool that is editing a text.
fn writing() -> Tool {
    let mut tool: Tool = TextTool::new(style());
    let outcome = tool.handle_mouse_event(
        mouse(MouseEventType::Click, MouseButton::Primary, 100, 120),
        &state("", 0),
    );
    assert_eq!(outcome, Outcome::NewBuffer);
    let outcome = tool.resume(Reply::Buffer { buffer: BUFFER, font_ids: vec![1, 2] });
    assert_eq!(outcome, Outcome::Done(Result::Redraw));
    tool
}

/// A tool that is editing a text which was drawn.
fn drawn() -> Tool {
    let mut tool = writing();
    if let Some(text) = &mut tool.text {
        text.layout = Some(layout());
    }
    tool
}

fn asks(request: Request) -> Outcome<i64> {
    Outcome::Buffer(BUFFER, request)
}

fn press(tool: &mut Tool, event: KeyEventMsg, state: &BufferState) -> Outcome<i64> {
    tool.handle_key_event(event, state, 10)
}

#[test]
fn click_begins_a_text() {
    let mut tool = writing();
    let text = tool.get_drawable().unwrap();
    assert_eq!(text.pos, Vec2D::new(100, 120));
    assert_eq!(text.style, style());
    assert_eq!(text.buffer, BUFFER);
    assert_eq!(text.font_ids, vec![1, 2]);
    assert_eq!(text.effect, TextEffect::Plain);
    assert!(text.editing && text.draw_rect && text.cursor_visible);
    assert!(text.preedit.is_none() && text.layout.is_none());
    assert!(tool.active() && tool.input_enabled());
    assert_eq!(tool.get_tool_type(), Tools::Text);
    tool.set_input_enabled(false);
    assert!(!tool.input_enabled());
}

#[test]
fn nothing_happens_without_a_text() {
    let mut tool: Tool = TextTool::new(style());
    let nothing = state("", 0);
    for k in [Key::Return, Key::Escape, Key::AltL, Key::Left, Key::LowerV, Key::Other] {
        assert_eq!(press(&mut tool, key(k), &nothing), Outcome::Done(Result::Unmodified));
    }
    assert_eq!(
        tool.handle_text_event(TextEventMsg::Commit("x".to_string()), &nothing),
        Outcome::Done(Result::Unmodified)
    );
    assert_eq!(tool.handle_undo(), Outcome::Done(Result::Unmodified));
    assert_eq!(tool.handle_redo(), Outcome::Done(Result::Unmodified));
    assert_eq!(tool.handle_deactivated(&nothing), Outcome::Done(Result::Unmodified));
    assert_eq!(tool.handle_key_release_event(key(Key::AltL)), Result::Unmodified);
    assert_eq!(tool.handle_style_event(style()), Result::Unmodified);
    assert_eq!(
        tool.handle_mouse_event(
            mouse(MouseEventType::Release, MouseButton::Middle, 0, 0),
            &nothing
        ),
        Outcome::Done(Result::StopPropagation)
    );
    assert_eq!(tool.resume(Reply::Done), Outcome::Done(Result::Unmodified));
    assert!(!tool.active());
}

#[test]
fn effects_come_round() {
    let mut effect = TextEffect::default();
    let mut seen = vec![];
    for _ in 0..4 {
        seen.push(effect);
        effect = effect.next();
    }
    assert_eq!(
        seen,
        vec![
            TextEffect::Plain,
            TextEffect::Inverted,
            TextEffect::Contrast,
            TextEffect::Shadow
        ]
    );
    assert_eq!(effect, TextEffect::Plain);
}

#[test]
fn alt_tap_goes_on_to_the_next_effect() {
    let mut tool = writing();
    assert_eq!(
        press(&mut tool, key(Key::AltL), &state("a", 1)),
        Outcome::Done(Result::StopPropagation)
    );
    assert_eq!(
        tool.handle_key_release_event(key(Key::AltR)),
        Result::RedrawAndStopPropagation
    );
    assert_eq!(tool.get_drawable().unwrap().effect, TextEffect::Inverted);
    // The tap is over.
    assert_eq!(tool.handle_key_release_event(key(Key::AltR)), Result::Unmodified);
    assert_eq!(tool.get_drawable().unwrap().effect, TextEffect::Inverted);
}

#[test]
fn alt_with_another_key_is_no_tap() {
    let mut tool = writing();
    press(&mut tool, key(Key::AltL), &state("a", 1));
    press(&mut tool, with(Key::Left, false, true, true), &state("a", 1));
    assert_eq!(tool.handle_key_release_event(key(Key::AltL)), Result::Unmodified);
    assert_eq!(tool.get_drawable().unwrap().effect, TextEffect::Plain);
}

#[test]
fn return_hands_the_text_over() {
    let mut tool = writing();
    tool.set_im_context(Some(InputContext { id: 5 }));
    assert_eq!(tool.get_drawable().unwrap().im_context, Some(InputContext { id: 5 }));
    assert_eq!(
        press(&mut tool, key(Key::Return), &state("abc", 3)),
        asks(Request::ClearSelection)
    );
    assert!(!tool.active() && !tool.input_enabled());
    match tool.resume(Reply::Done) {
        Outcome::Done(ToolUpdateResult::Commit(text)) => {
            assert_eq!(text.buffer, BUFFER);
            assert_eq!(text.pos, Vec2D::new(100, 120));
            assert!(!text.editing && !text.draw_rect);
            assert!(text.preedit.is_none() && text.im_context.is_none());
        }
        other => panic!("{other:?}"),
    }
}

#[test]
fn return_drops_an_empty_text() {
    let mut tool = writing();
    assert_eq!(
        press(&mut tool, key(Key::Return), &state("", 0)),
        Outcome::Done(Result::RedrawAndStopPropagation)
    );
    assert!(!tool.active() && !tool.input_enabled());
}

#[test]
fn leaving_the_tool() {
    let mut tool = writing();
    assert_eq!(tool.handle_deactivated(&state("", 0)), Outcome::Done(Result::Redraw));
    assert!(!tool.active());

    let mut tool = writing();
    assert_eq!(tool.handle_deactivated(&state("a", 0)), asks(Request::ClearSelection));
    assert!(!tool.active() && !tool.input_enabled());
    assert!(matches!(tool.resume(Reply::Done), Outcome::Done(ToolUpdateResult::Commit(_))));
}

#[test]
fn escape_gives_the_text_up() {
    let mut tool = writing();
    assert_eq!(
        press(&mut tool, key(Key::Escape), &state("abc", 3)),
        Outcome::Done(Result::Redraw)
    );
    assert!(!tool.active() && !tool.input_enabled());

    let mut tool = writing();
    assert_eq!(tool.handle_dismissed(), Result::Redraw);
    assert!(!tool.active());
}

#[test]
fn click_beside_the_text_begins_another() {
    let mut tool = drawn();
    let click = mouse(MouseEventType::Click, MouseButton::Primary, 10, 20);
    assert_eq!(tool.handle_mouse_event(click, &state("abcdef", 0)), asks(Request::ClearSelection));
    assert_eq!(tool.resume(Reply::Done), Outcome::NewBuffer);
    match tool.resume(Reply::Buffer { buffer: 9, font_ids: vec![] }) {
        Outcome::Done(ToolUpdateResult::Commit(text)) => {
            assert_eq!(text.buffer, BUFFER);
            assert!(!text.editing);
        }
        other => panic!("{other:?}"),
    }
    let text = tool.get_drawable().unwrap();
    assert_eq!((text.buffer, text.pos), (9, Vec2D::new(10, 20)));
    assert!(text.editing && tool.input_enabled());
}

#[test]
fn shift_return_breaks_the_line() {
    let mut tool = writing();
    assert_eq!(
        press(&mut tool, with(Key::Return, true, false, false), &selected("abc", 3, 1, 3)),
        asks(Request::Delete { start: 1, end: 3 })
    );
    assert_eq!(tool.resume(Reply::Flag(true)), asks(Request::InsertNewline));
    assert_eq!(tool.resume(Reply::Done), Outcome::Done(Result::RedrawAndStopPropagation));
}

#[test]
fn typing_replaces_the_selection() {
    let mut tool = writing();
    tool.handle_text_event(
        TextEventMsg::Preedit { text: "ni".to_string(), cursor_chars: Some(1), spans: vec![] },
        &state("abc", 0),
    );
    assert!(tool.get_drawable().unwrap().preedit.is_some());
    assert_eq!(
        tool.handle_text_event(
            TextEventMsg::Commit("x".to_string()),
            &selected("abc", 0, 0, 2)
        ),
        asks(Request::Delete { start: 0, end: 2 })
    );
    assert_eq!(tool.resume(Reply::Flag(false)), asks(Request::Insert("x".to_string())));
    assert!(tool.get_drawable().unwrap().preedit.is_none());
    assert_eq!(tool.resume(Reply::Done), Outcome::Done(Result::Redraw));
}

#[test]
fn composing_and_ending() {
    let mut tool = writing();
    let nothing = state("", 0);
    let span = PreeditSpan {
        range: ByteRange { start: 0, end: 2 },
        foreground: None,
        background: None,
        underline: sketch_tools::ime::UnderlineKind::Single,
        underline_color: None,
    };
    let composing = || TextEventMsg::Preedit {
        text: "ni".to_string(),
        cursor_chars: None,
        spans: vec![span],
    };
    let empty = || TextEventMsg::Preedit {
        text: String::new(),
        cursor_chars: None,
        spans: vec![],
    };
    assert_eq!(tool.handle_text_event(empty(), &nothing), Outcome::Done(Result::Unmodified));
    assert_eq!(tool.handle_text_event(composing(), &nothing), Outcome::Done(Result::Redraw));
    assert_eq!(
        tool.get_drawable().unwrap().preedit,
        Some(Preedit { text: "ni".to_string(), cursor_chars: None, spans: vec![span] })
    );
    assert_eq!(tool.handle_text_event(empty(), &nothing), Outcome::Done(Result::Redraw));
    assert_eq!(
        tool.handle_text_event(TextEventMsg::PreeditEnd, &nothing),
        Outcome::Done(Result::Unmodified)
    );
    tool.handle_text_event(composing(), &nothing);
    assert_eq!(
        tool.handle_text_event(TextEventMsg::PreeditEnd, &nothing),
        Outcome::Done(Result::Redraw)
    );
    assert!(tool.get_drawable().unwrap().preedit.is_none());
}

#[test]
fn deletion_without_a_selection_moves_first() {
    for (event, motion) in [
        (key(Key::BackSpace), Motion::BackwardChar),
        (key(Key::Delete), Motion::ForwardChar),
        (with(Key::BackSpace, false, true, false), Motion::BackwardWordStart),
        (with(Key::Delete, false, true, false), Motion::ForwardWordEnd),
        (with(Key::Delete, true, true, false), Motion::ForwardChar),
    ] {
        let mut tool = writing();
        assert_eq!(
            press(&mut tool, event, &state("abc", 2)),
            asks(Request::Move { from: 2, motion })
        );
        assert_eq!(
            tool.resume(Reply::Point(point(1))),
            asks(Request::Delete { start: 2, end: 1 })
        );
        assert_eq!(
            tool.resume(Reply::Flag(true)),
            Outcome::Done(Result::RedrawAndStopPropagation)
        );
    }
}

#[test]
fn deletion_takes_the_selection() {
    let mut tool = writing();
    assert_eq!(
        press(
            &mut tool,
            with(Key::BackSpace, false, true, false),
            &selected("abcdef", 4, 1, 4)
        ),
        asks(Request::Delete { start: 1, end: 4 })
    );
    assert_eq!(tool.resume(Reply::Flag(false)), Outcome::Done(Result::StopPropagation));
    assert_eq!(motion_for_deletion(ActionScope::ForwardLine), None);
}

#[test]
fn cursor_moves() {
    let mut tool = writing();
    assert_eq!(
        press(&mut tool, key(Key::Right), &state("abc", 1)),
        asks(Request::Move { from: 1, motion: Motion::ForwardChar })
    );
    assert_eq!(tool.resume(Reply::Point(point(2))), asks(Request::ClearSelection));
    assert_eq!(tool.resume(Reply::Done), asks(Request::PlaceCursor { at: 2 }));
    assert_eq!(
        tool.resume(Reply::Point(point(2))),
        Outcome::Done(Result::RedrawAndStopPropagation)
    );
    // At the end it stays, and nothing is redrawn.
    press(&mut tool, key(Key::Right), &state("abc", 3));
    tool.resume(Reply::Point(point(3)));
    tool.resume(Reply::Done);
    assert_eq!(tool.resume(Reply::Point(point(3))), Outcome::Done(Result::StopPropagation));
}

#[test]
fn cursor_leaves_a_selection_at_its_end() {
    for (k, at) in [(Key::Left, 1), (Key::Up, 1), (Key::Right, 4), (Key::Down, 4)] {
        let mut tool = drawn();
        assert_eq!(
            press(&mut tool, key(k), &selected("abcdef", 4, 1, 4)),
            asks(Request::ClearSelection)
        );
        assert_eq!(tool.resume(Reply::Done), asks(Request::PlaceCursor { at }));
        assert_eq!(
            tool.resume(Reply::Point(point(at))),
            Outcome::Done(Result::RedrawAndStopPropagation)
        );
    }
}

#[test]
fn home_goes_to_the_beginning_of_the_line() {
    let mut tool = writing();
    let inside = TextPoint { offset: 6, starts_line: false, is_start: false };
    let mut at = state("abc\ndef", 6);
    at.insert = inside;
    assert_eq!(
        press(&mut tool, key(Key::Home), &at),
        asks(Request::Move { from: 6, motion: Motion::BackwardChar })
    );
    assert_eq!(
        tool.resume(Reply::Point(TextPoint { offset: 5, ..inside })),
        asks(Request::Move { from: 5, motion: Motion::BackwardChar })
    );
    let begin = TextPoint { offset: 4, starts_line: true, is_start: false };
    assert_eq!(tool.resume(Reply::Point(begin)), asks(Request::ClearSelection));
    assert_eq!(tool.resume(Reply::Done), asks(Request::PlaceCursor { at: 4 }));
    tool.resume(Reply::Point(begin));
    // From there it goes on to the line above, and with Control to the beginning of all.
    at.insert = begin;
    assert_eq!(
        press(&mut tool, key(Key::Home), &at),
        asks(Request::Move { from: 4, motion: Motion::BackwardLine })
    );
    assert_eq!(
        press(&mut tool, with(Key::Home, false, true, false), &at),
        asks(Request::Move { from: 4, motion: Motion::BackwardLine })
    );
    assert_eq!(tool.resume(Reply::Point(point(0))), asks(Request::ClearSelection));
    assert_eq!(
        press(&mut tool, with(Key::Home, false, true, false), &state("abc", 0)),
        asks(Request::ClearSelection)
    );
}

#[test]
fn selecting_keeps_the_cursor() {
    let mut tool = writing();
    // The cursor is at the right end, so the left one moves.
    assert_eq!(
        press(&mut tool, with(Key::Left, true, false, false), &selected("abcdef", 4, 2, 4)),
        asks(Request::Move { from: 2, motion: Motion::BackwardChar })
    );
    assert_eq!(
        tool.resume(Reply::Point(point(1))),
        asks(Request::Select { insert: 4, bound: 1 })
    );
    assert_eq!(tool.resume(Reply::Done), Outcome::Done(Result::RedrawAndStopPropagation));
    assert_eq!(
        press(&mut tool, with(Key::Right, true, true, false), &selected("abcdef", 2, 2, 4)),
        asks(Request::Move { from: 4, motion: Motion::ForwardWordEnd })
    );
    assert_eq!(
        tool.resume(Reply::Point(point(6))),
        asks(Request::Select { insert: 2, bound: 6 })
    );
    assert_eq!(
        press(&mut tool, with(Key::UpperA, false, true, false), &state("abc", 0)),
        asks(Request::SelectAll)
    );
    assert_eq!(tool.resume(Reply::Done), Outcome::Done(Result::RedrawAndStopPropagation));
    // Selecting to the ends of the buffer is not offered: the selection stays as it is.
    assert_eq!(
        tool.handle_text_buffer_action(
            &state("abc", 1),
            Action::Select,
            ActionScope::BufferEnd,
            0
        ),
        asks(Request::Select { insert: 1, bound: 1 })
    );
}

#[test]
fn arrows_up_and_down_follow_the_drawn_lines() {
    let mut tool = drawn();
    assert_eq!(
        press(&mut tool, key(Key::Down), &state("abcdef", 1)),
        asks(Request::Move { from: 1, motion: Motion::SetOffset(4) })
    );
    tool.resume(Reply::Point(point(4)));
    assert_eq!(
        press(&mut tool, key(Key::Up), &state("abcdef", 5)),
        asks(Request::Move { from: 5, motion: Motion::SetOffset(2) })
    );
    // Before the text was drawn there are no lines to follow.
    let mut tool = writing();
    assert_eq!(
        press(&mut tool, key(Key::Down), &state("abcdef", 1)),
        asks(Request::Move { from: 1, motion: Motion::SetOffset(0) })
    );
}

#[test]
fn lines_above_and_below() {
    // Three lines; the second has one character, of two bytes.
    let content = "abcd\u{e9}xyz";
    let ranges = vec![
        ByteRange { start: 0, end: 4 },
        ByteRange { start: 4, end: 6 },
        ByteRange { start: 6, end: 9 },
    ];
    assert_eq!(line_below(content, &ranges, 1), 5);
    assert_eq!(line_below(content, &ranges, 3), 5);
    assert_eq!(line_below(content, &ranges, 0), 4);
    assert_eq!(line_below(content, &ranges, 5), 6);
    assert_eq!(line_below(content, &ranges, 7), 8);
    assert_eq!(line_above(content, &ranges, 7), 5);
    assert_eq!(line_above(content, &ranges, 6), 5);
    assert_eq!(line_above(content, &ranges, 4), 0);
    assert_eq!(line_above(content, &ranges, 5), 1);
    assert_eq!(line_above(content, &ranges, 3), 0);
    // Outside the lines.
    assert_eq!(line_above(content, &ranges, 40), 0);
    assert_eq!(line_below(content, &ranges, -1), 0);
}

#[test]
fn movements_by_scope() {
    let ranges = vec![];
    let at = TextPoint { offset: 3, starts_line: true, is_start: false };
    let motion = |scope| motion_for_cursor(scope, &at, "abcdef", &ranges);
    assert_eq!(motion(ActionScope::ForwardLine), Some((Motion::ForwardToLineEnd, Goal::Once)));
    assert_eq!(motion(ActionScope::BackwardLine), Some((Motion::BackwardLine, Goal::Once)));
    assert_eq!(motion(ActionScope::BufferEnd), Some((Motion::ForwardToEnd, Goal::Once)));
    assert_eq!(
        motion(ActionScope::BufferStart),
        Some((Motion::BackwardLine, Goal::BufferStart))
    );
    assert_eq!(motion(ActionScope::Nothing), None);
    assert_eq!(motion(ActionScope::Left), None);
    assert_eq!(Goal::LineStart.next(&at), None);
    assert_eq!(Goal::BufferStart.next(&at), Some(Motion::BackwardLine));
}

#[test]
fn text_is_moved_as_a_whole() {
    let mut tool = writing();
    let nothing = state("abc", 0);
    assert_eq!(
        press(&mut tool, with(Key::Right, false, true, true), &nothing),
        Outcome::Done(Result::RedrawAndStopPropagation)
    );
    assert_eq!(tool.get_drawable().unwrap().pos, Vec2D::new(110, 120));
    press(&mut tool, with(Key::Up, false, true, true), &nothing);
    assert_eq!(tool.get_drawable().unwrap().pos, Vec2D::new(110, 110));
    press(&mut tool, with(Key::Left, true, true, true), &nothing);
    assert_eq!(tool.get_drawable().unwrap().pos, Vec2D::new(109, 110));
    press(&mut tool, with(Key::Right, true, true, true), &nothing);
    press(&mut tool, with(Key::Down, true, true, true), &nothing);
    assert_eq!(tool.get_drawable().unwrap().pos, Vec2D::new(110, 111));
    // Steps of no length do nothing.
    assert_eq!(
        tool.handle_key_event(with(Key::Down, false, true, true), &nothing, 0),
        Outcome::Done(Result::StopPropagation)
    );
    assert_eq!(
        press(&mut tool, with(Key::Down, false, false, true), &nothing),
        Outcome::Done(Result::Unmodified)
    );
}

#[test]
fn copying_and_cutting() {
    let mut tool = writing();
    let some = selected("abcdef", 1, 1, 4);
    assert_eq!(
        press(&mut tool, with(Key::LowerC, false, true, false), &some),
        Outcome::OpenClipboard(Clipboard::Standard)
    );
    assert_eq!(tool.resume(Reply::Flag(true)), asks(Request::Copy { start: 1, end: 4 }));
    assert_eq!(tool.resume(Reply::Done), Outcome::Done(Result::StopPropagation));

    press(&mut tool, with(Key::LowerX, false, true, false), &some);
    assert_eq!(tool.resume(Reply::Flag(true)), asks(Request::Copy { start: 1, end: 4 }));
    assert_eq!(tool.resume(Reply::Done), asks(Request::Delete { start: 1, end: 4 }));
    assert_eq!(
        tool.resume(Reply::Flag(false)),
        Outcome::Done(Result::RedrawAndStopPropagation)
    );

    let none = state("abc", 1);
    assert_eq!(
        press(&mut tool, with(Key::UpperC, false, true, false), &none),
        Outcome::Done(Result::Unmodified)
    );
    assert_eq!(
        press(&mut tool, with(Key::LowerC, false, true, true), &some),
        Outcome::Done(Result::Unmodified)
    );
    assert_eq!(
        press(&mut tool, with(Key::UpperX, false, true, false), &none),
        Outcome::Done(Result::StopPropagation)
    );
}

#[test]
fn pasting() {
    let mut tool = writing();
    tool.set_sender(Sender { id: 11 });
    let some = selected("abcdef", 1, 1, 4);
    assert_eq!(
        press(&mut tool, key(Key::LowerV), &some),
        Outcome::OpenClipboard(Clipboard::Standard)
    );
    assert_eq!(tool.resume(Reply::Flag(true)), asks(Request::Delete { start: 1, end: 4 }));
    let ticket = PasteTicket {
        from: Clipboard::Standard,
        dragged: false,
        sender: Some(Sender { id: 11 }),
    };
    assert_eq!(tool.resume(Reply::Flag(true)), asks(Request::Paste(ticket)));
    assert_eq!(tool.resume(Reply::Done), Outcome::Done(Result::StopPropagation));

    assert_eq!(
        press(&mut tool, with(Key::Insert, true, false, false), &some),
        Outcome::OpenClipboard(Clipboard::Primary)
    );
    // There is no clipboard.
    assert_eq!(tool.resume(Reply::Flag(false)), Outcome::Done(Result::StopPropagation));
    assert_eq!(press(&mut tool, key(Key::Insert), &some), Outcome::Done(Result::StopPropagation));
}

#[test]
fn middle_button_pastes_unless_dragged() {
    let mut tool = drawn();
    let nothing = state("abcdef", 0);
    let release = mouse(MouseEventType::Release, MouseButton::Middle, 0, 0);
    assert_eq!(
        tool.handle_mouse_event(release, &nothing),
        Outcome::OpenClipboard(Clipboard::Primary)
    );
    tool.resume(Reply::Flag(true));
    let ticket = PasteTicket { from: Clipboard::Primary, dragged: false, sender: None };
    assert_eq!(tool.resume(Reply::Flag(false)), asks(Request::Paste(ticket)));
    assert_eq!(tool.resume(Reply::Done), Outcome::Done(Result::StopPropagation));

    tool.handle_mouse_event(
        mouse(MouseEventType::UpdateDrag, MouseButton::Middle, 0, 0),
        &nothing,
    );
    tool.handle_mouse_event(release, &nothing);
    tool.resume(Reply::Flag(true));
    let dragged = PasteTicket { dragged: true, ..ticket };
    assert_eq!(tool.resume(Reply::Flag(false)), asks(Request::Paste(dragged)));

    assert_eq!(
        finish_paste(ticket, ClipboardText::Text("x".to_string())),
        PasteEffect::Insert { text: "x".to_string(), notify: None }
    );
    assert_eq!(
        finish_paste(dragged, ClipboardText::Text("x".to_string())),
        PasteEffect::Drop
    );
    assert_eq!(finish_paste(dragged, ClipboardText::NoText), PasteEffect::ReportNoText);
    assert_eq!(finish_paste(ticket, ClipboardText::Failed), PasteEffect::ReportFailure);
}

#[test]
fn click_on_the_text_places_the_cursor() {
    let mut tool = drawn();
    let now = state("abcdef", 2);
    let places = |tool: &mut Tool, x, y| {
        let click = mouse(MouseEventType::Click, MouseButton::Primary, x, y);
        assert!(tool.can_handle_mouse_event(&click));
        match tool.handle_mouse_event(click, &now) {
            Outcome::Buffer(
                BUFFER,
                Request::Move { from: 2, motion: Motion::SetOffset(offset) },
            ) => offset,
            other => panic!("{other:?}"),
        }
    };
    assert_eq!(places(&mut tool, 102, 105), 0);
    assert_eq!(places(&mut tool, 107, 105), 1);
    assert_eq!(places(&mut tool, 105, 105), 0);
    assert_eq!(places(&mut tool, 118, 130), 5);
    // To the right of the first line: its last character. Of the last line: the end.
    assert_eq!(places(&mut tool, 145, 105), 2);
    assert_eq!(places(&mut tool, 145, 130), 6);

    assert_eq!(tool.resume(Reply::Point(point(6))), asks(Request::PlaceCursor { at: 6 }));
    assert_eq!(
        tool.resume(Reply::Point(point(6))),
        Outcome::Done(Result::RedrawAndStopPropagation)
    );
}

#[test]
fn double_and_triple_clicks_select() {
    let mut tool = drawn();
    let now = state("abcdef", 2);
    let mut click = mouse(MouseEventType::Click, MouseButton::Primary, 102, 130);
    click.n_pressed = 2;
    tool.handle_mouse_event(click, &now);
    tool.resume(Reply::Point(point(3)));
    assert_eq!(
        tool.resume(Reply::Point(point(3))),
        asks(Request::Move { from: 3, motion: Motion::BackwardWordStart })
    );
    assert_eq!(
        tool.resume(Reply::Point(point(1))),
        asks(Request::Move { from: 3, motion: Motion::ForwardWordEnd })
    );
    assert_eq!(
        tool.resume(Reply::Point(point(5))),
        asks(Request::Select { insert: 1, bound: 5 })
    );
    assert_eq!(tool.resume(Reply::Done), Outcome::Done(Result::RedrawAndStopPropagation));

    click.n_pressed = 3;
    tool.handle_mouse_event(click, &now);
    tool.resume(Reply::Point(point(3)));
    for _ in 0..2 {
        assert_eq!(
            tool.resume(Reply::Point(point(3))),
            asks(Request::Move { from: 3, motion: Motion::BackwardLine })
        );
    }
    assert_eq!(
        tool.resume(Reply::Point(point(0))),
        asks(Request::Move { from: 3, motion: Motion::ForwardToEnd })
    );
    assert_eq!(
        tool.resume(Reply::Point(point(6))),
        asks(Request::Select { insert: 0, bound: 6 })
    );
}

#[test]
fn drag_over_the_text_selects() {
    let mut tool = drawn();
    let now = state("abcdef", 1);
    assert_eq!(
        tool.handle_mouse_event(
            mouse(MouseEventType::BeginDrag, MouseButton::Primary, 102, 105),
            &now
        ),
        Outcome::Done(Result::StopPropagation)
    );
    let moved = mouse(MouseEventType::UpdateDrag, MouseButton::Primary, 20, 20);
    assert_eq!(
        tool.handle_mouse_event(moved, &now),
        asks(Request::Move { from: 1, motion: Motion::SetOffset(5) })
    );
    assert_eq!(
        tool.resume(Reply::Point(point(5))),
        asks(Request::Select { insert: 1, bound: 5 })
    );
    assert_eq!(tool.resume(Reply::Done), Outcome::Done(Result::RedrawAndStopPropagation));
    // Beside the first line it selects to the end of that line.
    let beside = mouse(MouseEventType::UpdateDrag, MouseButton::Primary, 43, 0);
    assert_eq!(
        tool.handle_mouse_event(beside, &now),
        asks(Request::Move { from: 1, motion: Motion::SetOffset(3) })
    );
    let outside = mouse(MouseEventType::UpdateDrag, MouseButton::Primary, 500, 0);
    assert_eq!(
        tool.handle_mouse_event(outside, &now),
        Outcome::Done(Result::StopPropagation)
    );
    let secondary = mouse(MouseEventType::UpdateDrag, MouseButton::Secondary, 0, 0);
    assert_eq!(tool.handle_mouse_event(secondary, &now), Outcome::Done(Result::Unmodified));
    assert!(tool.dragged);
    let end = mouse(MouseEventType::EndDrag, MouseButton::Primary, 20, 20);
    assert_eq!(tool.handle_mouse_event(end, &now), Outcome::Done(Result::Unmodified));
    assert!(!tool.dragged);
}

#[test]
fn lines_without_characters_cannot_be_pointed_at() {
    let mut tool = drawn();
    if let Some(text) = &mut tool.text {
        let mut layout = layout();
        layout.glyphs.push(vec![]);
        layout.rect = Rectangle::new(99, 99, 52, 62);
        text.layout = Some(layout);
    }
    let click = |y| mouse(MouseEventType::Click, MouseButton::Primary, 145, y);
    assert!(tool.can_handle_mouse_event(&click(105)));
    assert!(!tool.can_handle_mouse_event(&click(155)));
    let mut drag = mouse(MouseEventType::UpdateDrag, MouseButton::Primary, 145, 155);
    assert!(!tool.can_handle_mouse_event(&drag));
    drag.pos = Vec2D::new(145, 130);
    assert!(tool.can_handle_mouse_event(&drag));
    assert!(tool.can_handle_mouse_event(&mouse(
        MouseEventType::EndDrag,
        MouseButton::Primary,
        145,
        155
    )));
}

#[test]
fn history() {
    let mut tool = writing();
    assert_eq!(tool.handle_undo(), asks(Request::Undo));
    assert_eq!(tool.resume(Reply::Done), Outcome::Done(Result::Redraw));
    assert_eq!(tool.handle_redo(), asks(Request::Redo));
    assert_eq!(tool.resume(Reply::Done), Outcome::Done(Result::Redraw));
}

#[test]
fn style_is_for_this_text_and_those_to_come() {
    let mut tool = writing();
    let other = Style { color: Color { r: 9, g: 9, b: 9, a: 9 }, paint: 8 };
    assert_eq!(tool.handle_style_event(other), Result::Redraw);
    assert_eq!(tool.get_drawable().unwrap().style, other);
    tool.handle_dismissed();
    tool.handle_mouse_event(
        mouse(MouseEventType::Click, MouseButton::Primary, 1, 1),
        &state("", 0),
    );
    tool.resume(Reply::Buffer { buffer: 1, font_ids: vec![] });
    assert_eq!(tool.get_drawable().unwrap().style, other);
}

#[test]
fn an_outcome_that_was_not_asked_for_ends_the_event() {
    let mut tool = writing();
    press(&mut tool, key(Key::Right), &state("abc", 1));
    assert_eq!(tool.resume(Reply::Flag(true)), Outcome::Done(Result::Unmodified));
    assert!(tool.pending.is_none());
    assert!(tool.active());
}

#[test]
fn commands_of_keys() {
    let command = |event: KeyEventMsg| command_for_key(&event);
    assert_eq!(command(with(Key::Return, true, true, false)), KeyCommand::Finish);
    assert_eq!(command(with(Key::Return, true, false, false)), KeyCommand::Newline);
    assert_eq!(command(key(Key::LowerA)), KeyCommand::Swallow);
    assert_eq!(command(key(Key::LowerC)), KeyCommand::PassOn);
    assert_eq!(command(key(Key::LowerX)), KeyCommand::Swallow);
    assert_eq!(command(with(Key::UpperV, true, true, true)), KeyCommand::Paste(Clipboard::Standard));
    assert_eq!(command(key(Key::Other)), KeyCommand::PassOn);
    assert_eq!(
        command(with(Key::End, false, true, false)),
        KeyCommand::Edit(Action::MoveCursor, ActionScope::BufferEnd)
    );
    assert_eq!(
        command(with(Key::End, true, false, false)),
        KeyCommand::Edit(Action::Select, ActionScope::ForwardLine)
    );
    assert_eq!(
        command(with(Key::Left, true, false, true)),
        KeyCommand::Edit(Action::MoveCursor, ActionScope::BackwardChar)
    );
    assert_eq!(
        command(with(Key::Left, false, true, false)),
        KeyCommand::Edit(Action::MoveCursor, ActionScope::BackwardWord)
    );
    // A lock that is on makes every combination another one.
    let locked = Modifiers { other: true, ..modifiers(false, true, false) };
    assert_eq!(
        command(KeyEventMsg { key: Key::Left, modifier: locked }),
        KeyCommand::Edit(Action::MoveCursor, ActionScope::BackwardChar)
    );
}
