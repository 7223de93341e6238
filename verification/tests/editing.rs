use sketch_tools::canvas::ByteRange;
use sketch_tools::math::{Rectangle, Vec2D};
use sketch_tools::sketch_board::{
    Key, KeyEventMsg, Modifiers, MouseButton, MouseEventMsg, MouseEventType, ToolUpdateResult,
};
use sketch_tools::style::{Color, Style};
use sketch_tools::tools::text::buffer::{BufferState, Motion, Reply, Request, TextPoint};
use sketch_tools::tools::text::content::{Text, TextLayout};
use sketch_tools::tools::text::steps::{Outcome, TextEventMsg, TextTool};

type Result = ToolUpdateResult<Text<i64>>;

/// A text buffer, with its cursor and the other end of its selection.
#[derive(Clone, Debug, PartialEq)]
struct Buffer {
    chars: Vec<char>,
    insert: usize,
    bound: usize,
    clipboard: Option<String>,
}

impl Buffer {
    fn new(text: &str, insert: usize, bound: usize) -> Self {
        Buffer { chars: text.chars().collect(), insert, bound, clipboard: Some(String::new()) }
    }

    fn text(&self) -> String {
        self.chars.iter().collect()
    }

    fn point(&self, offset: usize) -> TextPoint {
        TextPoint {
            offset: offset as i32,
            starts_line: offset == 0 || self.chars[offset - 1] == '\n',
            is_start: offset == 0,
        }
    }

    fn state(&self) -> BufferState {
        let (low, high) = (self.insert.min(self.bound), self.insert.max(self.bound));
        BufferState {
            text: self.text(),
            insert: self.point(self.insert),
            selection: if low == high {
                None
            } else {
                Some((self.point(low), self.point(high)))
            },
        }
    }

    fn word(&self, at: usize) -> bool {
        at < self.chars.len() && self.chars[at].is_alphanumeric()
    }

    fn moved(&self, from: usize, motion: Motion) -> usize {
        let end = self.chars.len();
        let mut at = from;
        match motion {
            Motion::ForwardChar => (from + 1).min(end),
            Motion::BackwardChar => from.saturating_sub(1),
            Motion::ForwardToEnd => end,
            Motion::SetOffset(offset) => (offset as usize).min(end),
            Motion::ForwardToLineEnd => {
                if at < end && self.chars[at] == '\n' {
                    at += 1;
                }
                while at < end && self.chars[at] != '\n' {
                    at += 1;
                }
                at
            }
            Motion::BackwardLine => {
                while !self.point(at).starts_line {
                    at -= 1;
                }
                at = at.saturating_sub(1);
                while !self.point(at).starts_line {
                    at -= 1;
                }
                at
            }
            Motion::ForwardWordEnd => {
                while at < end && !self.word(at) {
                    at += 1;
                }
                while self.word(at) {
                    at += 1;
                }
                at
            }
            Motion::BackwardWordStart => {
                while at > 0 && !self.word(at - 1) {
                    at -= 1;
                }
                while at > 0 && self.word(at - 1) {
                    at -= 1;
                }
                at
            }
        }
    }

    fn insert_text(&mut self, text: &str) {
        let at = self.insert;
        let count = text.chars().count();
        self.chars.splice(at..at, text.chars());
        self.insert += count;
        if self.bound >= at {
            self.bound += count;
        }
    }

    fn perform(&mut self, request: Request) -> Reply {
        match request {
            Request::Move { from, motion } => {
                return Reply::Point(self.point(self.moved(from as usize, motion)));
            }
            Request::Delete { start, end } => {
                let (low, high) = (start.min(end) as usize, start.max(end) as usize);
                self.chars.drain(low..high);
                for mark in [&mut self.insert, &mut self.bound] {
                    if *mark >= high {
                        *mark -= high - low;
                    } else if *mark > low {
                        *mark = low;
                    }
                }
                return Reply::Flag(low < high);
            }
            Request::PlaceCursor { at } => {
                self.insert = at as usize;
                self.bound = at as usize;
                return Reply::Point(self.point(self.insert));
            }
            Request::Select { insert, bound } => {
                self.insert = insert as usize;
                self.bound = bound as usize;
            }
            Request::SelectAll => {
                self.insert = 0;
                self.bound = self.chars.len();
            }
            Request::ClearSelection => {
                self.insert = 0;
                self.bound = 0;
            }
            Request::Insert(text) => self.insert_text(&text),
            Request::InsertNewline => self.insert_text("\n"),
            Request::Copy { start, end } => {
                self.clipboard =
                    Some(self.chars[start as usize..end as usize].iter().collect());
            }
            Request::Paste(_) => {
                let text = self.clipboard.clone().unwrap();
                self.insert_text(&text);
            }
            Request::Undo | Request::Redo => {}
        }
        Reply::Done
    }

    fn settle(&mut self, tool: &mut TextTool<i64>, mut outcome: Outcome<i64>) -> Result {
        loop {
            let reply = match outcome {
                Outcome::Done(result) => return result,
                Outcome::Buffer(_, request) => self.perform(request),
                Outcome::OpenClipboard(_) => Reply::Flag(self.clipboard.is_some()),
                Outcome::NewBuffer => Reply::Buffer { buffer: 2, font_ids: vec![] },
            };
            outcome = tool.resume(reply);
        }
    }
}

fn writing() -> TextTool<i64> {
    let mut tool =
        TextTool::new(Style { color: Color { r: 0, g: 0, b: 0, a: 255 }, paint: 0 });
    let mut buffer = Buffer::new("", 0, 0);
    let event = MouseEventMsg {
        type_: MouseEventType::Click,
        button: MouseButton::Primary,
        modifier: Modifiers::none(),
        pos: Vec2D::new(0, 0),
        n_pressed: 1,
    };
    let outcome = tool.handle_mouse_event(event, &buffer.state());
    buffer.settle(&mut tool, outcome);
    tool
}

fn press(buffer: &mut Buffer, key: Key, shift: bool, control: bool) -> Result {
    let mut tool = writing();
    let modifier = Modifiers { shift, control, ..Modifiers::none() };
    let outcome = tool.handle_key_event(KeyEventMsg { key, modifier }, &buffer.state(), 10);
    buffer.settle(&mut tool, outcome)
}

fn marks(buffer: &Buffer) -> (String, usize, usize) {
    (buffer.text(), buffer.insert, buffer.bound)
}

#[test]
fn typing_puts_text_in_the_place_of_the_selection() {
    let mut tool = writing();
    let mut buffer = Buffer::new("abcdef", 4, 1);
    let outcome =
        tool.handle_text_event(TextEventMsg::Commit("\u{e9}!".to_string()), &buffer.state());
    assert_eq!(buffer.settle(&mut tool, outcome), Result::Redraw);
    assert_eq!(marks(&buffer), ("a\u{e9}!ef".to_string(), 3, 3));
}

#[test]
fn line_break_puts_a_line_break_in_the_place_of_the_selection() {
    let mut buffer = Buffer::new("abc", 1, 2);
    assert_eq!(
        press(&mut buffer, Key::Return, true, false),
        Result::RedrawAndStopPropagation
    );
    assert_eq!(marks(&buffer), ("a\nc".to_string(), 2, 2));
}

#[test]
fn deleting_characters() {
    let mut buffer = Buffer::new("abc", 2, 2);
    assert_eq!(
        press(&mut buffer, Key::BackSpace, false, false),
        Result::RedrawAndStopPropagation
    );
    assert_eq!(marks(&buffer), ("ac".to_string(), 1, 1));
    press(&mut buffer, Key::Delete, false, false);
    assert_eq!(marks(&buffer), ("a".to_string(), 1, 1));
    assert_eq!(press(&mut buffer, Key::Delete, false, false), Result::StopPropagation);
    assert_eq!(marks(&buffer), ("a".to_string(), 1, 1));
}

#[test]
fn deleting_words_and_selections() {
    let mut buffer = Buffer::new("one two three", 7, 7);
    press(&mut buffer, Key::BackSpace, false, true);
    assert_eq!(marks(&buffer), ("one  three".to_string(), 4, 4));
    press(&mut buffer, Key::Delete, false, true);
    assert_eq!(marks(&buffer), ("one ".to_string(), 4, 4));
    let mut buffer = Buffer::new("one two three", 3, 10);
    press(&mut buffer, Key::BackSpace, false, true);
    assert_eq!(marks(&buffer), ("oneree".to_string(), 3, 3));
}

#[test]
fn moving_by_characters() {
    let mut buffer = Buffer::new("abc", 1, 1);
    assert_eq!(
        press(&mut buffer, Key::Right, false, false),
        Result::RedrawAndStopPropagation
    );
    assert_eq!(marks(&buffer), ("abc".to_string(), 2, 2));
    let mut buffer = Buffer::new("abc", 0, 0);
    assert_eq!(press(&mut buffer, Key::Left, false, false), Result::StopPropagation);
    let mut buffer = Buffer::new("abcdef", 1, 4);
    press(&mut buffer, Key::Right, false, false);
    assert_eq!(marks(&buffer), ("abcdef".to_string(), 4, 4));
}

#[test]
fn selecting_by_characters_and_words() {
    let mut buffer = Buffer::new("one two", 4, 4);
    assert_eq!(
        press(&mut buffer, Key::Right, true, false),
        Result::RedrawAndStopPropagation
    );
    assert_eq!(marks(&buffer), ("one two".to_string(), 4, 5));
    press(&mut buffer, Key::Right, true, true);
    assert_eq!(marks(&buffer), ("one two".to_string(), 4, 7));
    press(&mut buffer, Key::Left, true, true);
    press(&mut buffer, Key::Left, true, true);
    assert_eq!(marks(&buffer), ("one two".to_string(), 4, 0));
    press(&mut buffer, Key::LowerA, false, true);
    assert_eq!(marks(&buffer), ("one two".to_string(), 0, 7));
}

#[test]
fn going_to_the_ends() {
    let mut buffer = Buffer::new("ab\ncd\nef", 4, 4);
    press(&mut buffer, Key::End, false, false);
    assert_eq!(buffer.insert, 5);
    press(&mut buffer, Key::Home, false, false);
    assert_eq!(buffer.insert, 3);
    press(&mut buffer, Key::Home, false, false);
    assert_eq!(buffer.insert, 0);
    press(&mut buffer, Key::End, false, true);
    assert_eq!(buffer.insert, 8);
    press(&mut buffer, Key::Home, false, true);
    assert_eq!(buffer.insert, 0);
}

#[test]
fn cutting_and_pasting() {
    let mut buffer = Buffer::new("abcdef", 1, 3);
    assert_eq!(
        press(&mut buffer, Key::LowerX, false, true),
        Result::RedrawAndStopPropagation
    );
    assert_eq!(marks(&buffer), ("adef".to_string(), 1, 1));
    assert_eq!(buffer.clipboard.as_deref(), Some("bc"));
    buffer.bound = 4;
    assert_eq!(press(&mut buffer, Key::LowerV, false, true), Result::StopPropagation);
    assert_eq!(marks(&buffer), ("abc".to_string(), 3, 3));

    // Without a clipboard nothing is lost.
    let mut buffer = Buffer { clipboard: None, ..Buffer::new("abcdef", 1, 3) };
    for key in [Key::LowerX, Key::LowerC, Key::LowerV] {
        assert_eq!(press(&mut buffer, key, false, true), Result::StopPropagation);
        assert_eq!(marks(&buffer), ("abcdef".to_string(), 1, 3));
    }
}

#[test]
fn finishing_clears_the_selection() {
    let mut buffer = Buffer::new("abcdef", 1, 3);
    let result = press(&mut buffer, Key::Return, false, false);
    assert!(matches!(result, ToolUpdateResult::Commit(_)));
    assert_eq!(marks(&buffer), ("abcdef".to_string(), 0, 0));
}

/// A tool whose text was drawn in three lines: "one ", "two" with its line break, and "six". Each
/// character is ten by twenty.
fn drawn() -> TextTool<i64> {
    let mut tool = writing();
    let line = |y: i32, n: i32| (0..n).map(|i| Rectangle::new(10 * i, y, 10, 20)).collect();
    if let Some(text) = &mut tool.text {
        text.layout = Some(TextLayout {
            rect: Rectangle::new(-1, -1, 102, 62),
            glyphs: vec![line(0, 4), line(20, 4), line(40, 3)],
            line_ranges: vec![
                ByteRange { start: 0, end: 4 },
                ByteRange { start: 4, end: 8 },
                ByteRange { start: 8, end: 11 },
            ],
        });
    }
    tool
}

const DRAWN: &str = "one two\nsix";

fn press_drawn(buffer: &mut Buffer, key: Key, shift: bool) {
    let mut tool = drawn();
    let modifier = Modifiers { shift, ..Modifiers::none() };
    let outcome = tool.handle_key_event(KeyEventMsg { key, modifier }, &buffer.state(), 10);
    buffer.settle(&mut tool, outcome);
}

fn point_at(buffer: &mut Buffer, type_: MouseEventType, x: i64, y: i64, n_pressed: i32) -> Result {
    let mut tool = drawn();
    let event = MouseEventMsg {
        type_,
        button: MouseButton::Primary,
        modifier: Modifiers::none(),
        pos: Vec2D::new(x, y),
        n_pressed,
    };
    assert!(tool.can_handle_mouse_event(&event));
    let outcome = tool.handle_mouse_event(event, &buffer.state());
    buffer.settle(&mut tool, outcome)
}

#[test]
fn going_up_and_down_by_drawn_lines() {
    let mut buffer = Buffer::new(DRAWN, 2, 2);
    press_drawn(&mut buffer, Key::Down, false);
    assert_eq!(marks(&buffer), (DRAWN.to_string(), 6, 6));
    press_drawn(&mut buffer, Key::Down, true);
    assert_eq!(marks(&buffer), (DRAWN.to_string(), 6, 10));
    press_drawn(&mut buffer, Key::Up, true);
    press_drawn(&mut buffer, Key::Up, true);
    assert_eq!(marks(&buffer), (DRAWN.to_string(), 6, 2));
}

#[test]
fn selecting_to_the_ends_of_the_line() {
    let mut buffer = Buffer::new("ab\ncd\nef", 4, 4);
    press(&mut buffer, Key::End, true, false);
    assert_eq!((buffer.insert, buffer.bound), (4, 5));
    press(&mut buffer, Key::End, true, false);
    assert_eq!((buffer.insert, buffer.bound), (4, 8));
    press(&mut buffer, Key::Home, true, false);
    assert_eq!((buffer.insert, buffer.bound), (4, 6));
    press(&mut buffer, Key::Home, true, false);
    assert_eq!((buffer.insert, buffer.bound), (4, 3));
}

#[test]
fn clicking_and_dragging() {
    let mut buffer = Buffer::new(DRAWN, 0, 3);
    assert_eq!(
        point_at(&mut buffer, MouseEventType::Click, 12, 25, 1),
        Result::RedrawAndStopPropagation
    );
    assert_eq!(marks(&buffer), (DRAWN.to_string(), 5, 5));
    assert_eq!(
        point_at(&mut buffer, MouseEventType::UpdateDrag, 12, 45, 1),
        Result::RedrawAndStopPropagation
    );
    assert_eq!(marks(&buffer), (DRAWN.to_string(), 5, 9));
}

#[test]
fn clicking_twice_and_three_times() {
    let mut buffer = Buffer::new(DRAWN, 0, 0);
    point_at(&mut buffer, MouseEventType::Click, 12, 25, 2);
    assert_eq!(marks(&buffer), (DRAWN.to_string(), 4, 7));
    point_at(&mut buffer, MouseEventType::Click, 12, 45, 3);
    assert_eq!(marks(&buffer), (DRAWN.to_string(), 0, 11));
    // From the beginning, too.
    let mut buffer = Buffer::new(DRAWN, 5, 5);
    point_at(&mut buffer, MouseEventType::Click, 2, 5, 3);
    assert_eq!(marks(&buffer), (DRAWN.to_string(), 0, 11));
}
