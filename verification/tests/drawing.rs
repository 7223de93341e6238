use sketch_tools::canvas::{ByteRange, DrawOp, Ink};
use sketch_tools::ime::{InputContext, Preedit, PreeditSpan, UnderlineKind};
use sketch_tools::math::{Rectangle, Vec2D};
use sketch_tools::scalar::Scalar;
use sketch_tools::style::{Color, Style, Tint};
use sketch_tools::tools::text::content::{DisplayContent, Text};
use sketch_tools::tools::text::draw::{
    can_underline, draw_underline_segment, ime_cursor_location, Drawing, Frame,
};
use sketch_tools::tools::text::effect::{Decoration, DecorationKind, TextEffect};
use sketch_tools::tools::text::index::{byte_index_from_char_index, char_index_from_byte_index};
use sketch_tools::tools::text::layout::{
    caret_anchor, caret_prefix, caret_top_left, cursor_metrics, epsilon, layout_lines,
    measured_span, measured_texts, preedit_segments, segment_for_line_span, selection_segments,
    text_in, text_width, without_newlines, CaretAnchor, CursorMetrics, FontMeasures, LineLayout, Segment, Span,
};
use sketch_tools::tools::text::plan::{Plan, PlanWidths, Widths};

#[derive(Clone, Copy, Debug, PartialEq)]
struct F32(f32);

impl Scalar for F32 {
    fn spec_plus(self, rhs: Self) -> Self {
        F32(self.0 + rhs.0)
    }
    fn plus(self, rhs: Self) -> Self {
        self.spec_plus(rhs)
    }
    fn spec_minus(self, rhs: Self) -> Self {
        F32(self.0 - rhs.0)
    }
    fn minus(self, rhs: Self) -> Self {
        self.spec_minus(rhs)
    }
    fn spec_times(self, rhs: Self) -> Self {
        F32(self.0 * rhs.0)
    }
    fn times(self, rhs: Self) -> Self {
        self.spec_times(rhs)
    }
    fn spec_over(self, rhs: Self) -> Self {
        F32(self.0 / rhs.0)
    }
    fn over(self, rhs: Self) -> Self {
        self.spec_over(rhs)
    }
    fn spec_negated(self) -> Self {
        F32(-self.0)
    }
    fn negated(self) -> Self {
        self.spec_negated()
    }
    fn spec_magnitude(self) -> Self {
        F32(self.0.abs())
    }
    fn magnitude(self) -> Self {
        self.spec_magnitude()
    }
    fn spec_larger(self, rhs: Self) -> Self {
        F32(self.0.max(rhs.0))
    }
    fn larger(self, rhs: Self) -> Self {
        self.spec_larger(rhs)
    }
    fn spec_floor(self) -> Self {
        F32(self.0.floor())
    }
    fn floor(self) -> Self {
        self.spec_floor()
    }
    fn spec_ceil(self) -> Self {
        F32(self.0.ceil())
    }
    fn ceil(self) -> Self {
        self.spec_ceil()
    }
    fn spec_below(self, rhs: Self) -> bool {
        self.0 < rhs.0
    }
    fn below(self, rhs: Self) -> bool {
        self.spec_below(rhs)
    }
    fn spec_at_most(self, rhs: Self) -> bool {
        self.0 <= rhs.0
    }
    fn at_most(self, rhs: Self) -> bool {
        self.spec_at_most(rhs)
    }
    fn spec_same(self, rhs: Self) -> bool {
        self.0 == rhs.0
    }
    fn same(self, rhs: Self) -> bool {
        self.spec_same(rhs)
    }
    fn spec_from_int(n: i32) -> Self {
        F32(n as f32)
    }
    fn from_int(n: i32) -> Self {
        Self::spec_from_int(n)
    }
    fn spec_to_int(self) -> i32 {
        self.0 as i32
    }
    fn to_int(self) -> i32 {
        self.spec_to_int()
    }
    fn spec_to_nearest(self) -> i32 {
        self.0.round() as i32
    }
    fn to_nearest(self) -> i32 {
        self.spec_to_nearest()
    }
    fn spec_largest() -> Self {
        F32(f32::MAX)
    }
    fn largest() -> Self {
        Self::spec_largest()
    }
}

fn vec(x: f32, y: f32) -> Vec2D<F32> {
    Vec2D::new(F32(x), F32(y))
}

const WHITE: Color = Color { r: 255, g: 255, b: 255, a: 255 };
const RED: Color = Color { r: 255, g: 0, b: 0, a: 255 };

fn text_at(x: f32, y: f32) -> Text<F32> {
    Text::new(vec(x, y), Style { color: WHITE, paint: 0 }, None, 1, vec![])
}

fn range(start: usize, end: usize) -> ByteRange {
    ByteRange { start, end }
}

fn composing(text: &str, cursor_chars: Option<usize>, spans: Vec<PreeditSpan>) -> Option<Preedit> {
    Some(Preedit { text: text.to_string(), cursor_chars, spans })
}

#[test]
fn positions_by_character_and_by_byte() {
    let text = "a\u{e9}\u{20ac}\u{1f600}z";
    let starts = [0, 1, 3, 6, 10, 11];
    for (k, start) in starts.into_iter().enumerate() {
        assert_eq!(byte_index_from_char_index(text, k), start);
        assert_eq!(char_index_from_byte_index(text, start), k);
    }
    assert_eq!(byte_index_from_char_index(text, 99), 11);
    assert_eq!(char_index_from_byte_index(text, 99), 5);
    // In the middle of a character.
    assert_eq!(char_index_from_byte_index(text, 2), 1);
    assert_eq!(char_index_from_byte_index(text, 9), 3);
    assert_eq!(char_index_from_byte_index("", 0), 0);
}

#[test]
fn decorations() {
    let color = RED;
    assert_eq!(TextEffect::Plain.decoration(color, F32(3.0)), None);
    assert_eq!(
        TextEffect::Inverted.decoration(color, F32(3.0)),
        Some(Decoration {
            color: Tint::Inverted(color),
            kind: DecorationKind::Outline { width: F32(6.0) },
        })
    );
    assert_eq!(
        TextEffect::Contrast.decoration(color, F32(3.0)),
        Some(Decoration {
            color: Tint::Contrast(color),
            kind: DecorationKind::Outline { width: F32(6.0) },
        })
    );
    assert_eq!(
        TextEffect::Shadow.decoration(color, F32(3.0)),
        Some(Decoration {
            color: Tint::ContrastWithAlpha(color, 160),
            kind: DecorationKind::Shadow { offset: vec(4.5, 4.5) },
        })
    );
}

#[test]
fn plain_text_is_shown_as_it_is() {
    let text = text_at(0.0, 0.0);
    assert_eq!(
        text.display_text("a\u{e9}b", 2),
        DisplayContent { text: "a\u{e9}b".to_string(), cursor_byte_pos: 3, preedit_range: None }
    );
    let mut finished = text_at(0.0, 0.0);
    finished.preedit = composing("xx", None, vec![]);
    finished.editing = false;
    assert_eq!(finished.display_text("ab", 1).text, "ab");
    let mut empty = text_at(0.0, 0.0);
    empty.preedit = composing("", None, vec![]);
    assert_eq!(empty.display_text("ab", 1).preedit_range, None);
}

#[test]
fn composition_is_put_in_at_the_cursor() {
    let mut text = text_at(0.0, 0.0);
    text.preedit = composing("\u{4f60}x", Some(1), vec![]);
    assert_eq!(
        text.display_text("\u{e9}bc", 1),
        DisplayContent {
            text: "\u{e9}\u{4f60}xbc".to_string(),
            cursor_byte_pos: 5,
            preedit_range: Some(range(2, 6)),
        }
    );
    // A cursor beyond the composition, or none, is at its end.
    text.preedit = composing("\u{4f60}x", Some(7), vec![]);
    assert_eq!(text.display_text("\u{e9}bc", 1).cursor_byte_pos, 6);
    text.preedit = composing("\u{4f60}x", None, vec![]);
    assert_eq!(text.display_text("\u{e9}bc", 9).cursor_byte_pos, 8);
}

#[test]
fn line_height_comes_from_the_first_measure_there_is() {
    let font = FontMeasures {
        cursor_height: Some(F32(20.0)),
        ascender: F32(30.0),
        descender: F32(-10.0),
        height: F32(50.0),
    };
    let metrics = cursor_metrics(&font, F32(2.0));
    assert_eq!((metrics.top_offset, metrics.line_height), (F32(-20.0), F32(20.0 * 1.2)));
    let unmeasured = FontMeasures { cursor_height: None, ..font };
    let metrics = cursor_metrics(&unmeasured, F32(2.0));
    assert_eq!((metrics.top_offset, metrics.line_height), (F32(-10.0), F32(12.0)));
    let flat = FontMeasures {
        cursor_height: Some(F32(0.0)),
        descender: F32(-30.0),
        ..font
    };
    let metrics = cursor_metrics(&flat, F32(2.0));
    assert_eq!((metrics.top_offset, metrics.line_height), (F32(-25.0), F32(25.0 * 1.2)));
    assert_eq!(epsilon::<F32>(), F32(f32::EPSILON));
}

fn lines() -> Vec<LineLayout<F32>> {
    // "ab\n", "cd", "e"
    layout_lines(&vec![range(0, 3), range(3, 5), range(5, 6)], F32(10.0), F32(24.0))
}

const TEXT: &str = "ab\ncde";

#[test]
fn lines_are_below_each_other() {
    let baselines: Vec<f32> = lines().iter().map(|l| l.baseline.0).collect();
    assert_eq!(baselines, vec![10.0, 34.0, 58.0]);
    assert_eq!(lines()[1].range, range(3, 5));
}

#[test]
fn segments_of_a_line() {
    let line = lines()[1];
    assert_eq!(
        segment_for_line_span(TEXT, line, 2, 5),
        Some(Segment { line, prefix: range(3, 3), selected: range(3, 5) })
    );
    assert_eq!(
        segment_for_line_span(TEXT, line, 4, 99),
        Some(Segment { line, prefix: range(3, 4), selected: range(4, 5) })
    );
    assert_eq!(segment_for_line_span(TEXT, line, 4, 4), None);
    assert_eq!(segment_for_line_span(TEXT, line, 0, 2), None);
    assert_eq!(segment_for_line_span(TEXT, line, 5, 6), None);
}

#[test]
fn selection_is_measured_line_by_line() {
    let lines = lines();
    assert_eq!(
        selection_segments(TEXT, &lines, (1, 4)),
        vec![
            Segment { line: lines[0], prefix: range(0, 1), selected: range(1, 3) },
            Segment { line: lines[1], prefix: range(3, 3), selected: range(3, 4) },
        ]
    );
    assert_eq!(selection_segments(TEXT, &lines, (2, 2)), vec![]);
}

#[test]
fn composition_is_measured_line_by_line() {
    let lines = lines();
    assert_eq!(
        preedit_segments(TEXT, &lines, 2, range(2, 4)),
        vec![
            Segment { line: lines[1], prefix: range(3, 4), selected: range(4, 5) },
            Segment { line: lines[2], prefix: range(5, 5), selected: range(5, 6) },
        ]
    );
    assert_eq!(preedit_segments(TEXT, &lines, usize::MAX, range(0, 1)), vec![]);
}

#[test]
fn widths() {
    assert_eq!(text_width("", Some(F32(3.0))), F32(0.0));
    assert_eq!(text_width("a", Some(F32(3.0))), F32(3.0));
    assert_eq!(text_width::<F32>("a", None), F32(0.0));
    assert_eq!(without_newlines("a\n\nb\n"), "ab");
    let line = lines()[0];
    let segment = Segment { line, prefix: range(0, 1), selected: range(1, 3) };
    let span = measured_span(F32(100.0), &segment, F32(7.5), F32(12.0));
    assert_eq!((span.start_x, span.end_x), (F32(107.5), F32(119.5)));
    let span = measured_span(F32(100.0), &segment, F32(7.5), F32(-1.0));
    assert_eq!((span.start_x, span.end_x), (F32(107.5), F32(107.5)));
}

#[test]
fn line_breaks_are_left_out_of_what_is_selected_only() {
    let text = "a\n\u{e9}\nb";
    let line = LineLayout { range: range(0, 6), baseline: F32(0.0) };
    let segment = Segment { line, prefix: range(0, 2), selected: range(2, 6) };
    assert_eq!(measured_texts(text, &segment), ("a\n".to_string(), "\u{e9}b".to_string()));
    assert_eq!(text_in(text, range(1, 4)), "\n\u{e9}");
    // In the middle of a character, beyond the end, and the wrong way round.
    assert_eq!(text_in(text, range(0, 3)), "a\n");
    assert_eq!(text_in(text, range(5, 99)), "b");
    assert_eq!(text_in(text, range(4, 1)), "");
}

#[test]
fn lines_reach_to_the_right_edge() {
    let text = text_at(100.5, 20.0);
    assert_eq!(text.wrap_width((vec(0.0, 0.0), vec(640.0, 480.0))), F32(539.5));
}

#[test]
fn lines_are_remembered_without_characters() {
    let mut text = text_at(100.0, 50.0);
    text.remember_lines(vec![range(0, 3)]);
    let layout = text.layout.as_ref().unwrap();
    assert_eq!(layout.line_ranges, vec![range(0, 3)]);
    assert!(layout.glyphs.is_empty());
    assert!(!text.is_at(vec(0.0, 0.0)));

    let frame = frame_of(&text, TEXT, 4, vec![range(0, 3), range(3, 6)], None);
    text.draw(frame);
    text.remember_lines(vec![range(0, 6)]);
    let layout = text.layout.as_ref().unwrap();
    assert_eq!(layout.line_ranges, vec![range(0, 6)]);
    assert_eq!(layout.rect, Rectangle::new(99, 31, 32, 50));
    assert_eq!(layout.glyphs.len(), 2);
}

#[test]
fn caret_is_where_the_cursor_stands() {
    let lines = lines();
    let cursor = CursorMetrics { top_offset: F32(-20.0), line_height: F32(24.0) };
    let pos = vec(100.0, 10.0);
    let at = |byte| caret_anchor(TEXT, &lines, byte);
    assert_eq!(at(1), CaretAnchor::InLine { line: lines[0], prefix: range(0, 1) });
    assert_eq!(caret_top_left(pos, &at(1), F32(8.0), cursor), vec(108.0, -10.0));
    // After a line break it is on the next line, after a soft break it is not.
    assert_eq!(at(3), CaretAnchor::InLine { line: lines[1], prefix: range(3, 3) });
    assert_eq!(at(5), CaretAnchor::InLine { line: lines[1], prefix: range(3, 5) });
    assert_eq!(at(6), CaretAnchor::InLine { line: lines[2], prefix: range(5, 6) });
    assert_eq!(at(7), CaretAnchor::PastEnd { line: lines[2], prefix: range(5, 6) });
    assert_eq!(caret_prefix(&at(7)), Some(range(5, 6)));
    assert_eq!(caret_top_left(pos, &at(7), F32(8.0), cursor), vec(108.0, 62.0));

    let broken = layout_lines(&vec![range(0, 3)], F32(10.0), F32(24.0));
    let anchor = caret_anchor("ab\n", &broken, 3);
    assert_eq!(anchor, CaretAnchor::BelowBreak { line: broken[0] });
    assert_eq!(caret_prefix(&anchor), None);
    assert_eq!(caret_top_left(pos, &anchor, F32(8.0), cursor), vec(100.0, 14.0));

    let none: Vec<LineLayout<F32>> = vec![];
    let anchor = caret_anchor("", &none, 0);
    assert_eq!(anchor, CaretAnchor::Origin);
    assert_eq!(caret_top_left(pos, &anchor, F32(8.0), cursor), vec(100.0, -10.0));
}

/// Every character is ten wide, but for line breaks.
fn widths_of(text: &str, segment: &Segment<F32>) -> Widths<F32> {
    let width = |part: &str| text_width(part, Some(F32(10.0 * part.chars().count() as f32)));
    let (prefix, selected) = measured_texts(text, segment);
    Widths { prefix: width(&prefix), selected: width(&selected) }
}

fn measure(text: &str, plan: &Plan<F32>) -> PlanWidths<F32> {
    let all = |segments: &Vec<Segment<F32>>| {
        segments.iter().map(|s| widths_of(text, s)).collect::<Vec<_>>()
    };
    PlanWidths {
        selection: plan.selection.as_ref().map(&all).unwrap_or_default(),
        glyphs: plan.glyphs.iter().map(&all).collect(),
        preedit: plan.preedit.iter().flatten().map(|s| all(&s.places)).collect(),
        caret: F32(
            caret_prefix(&plan.caret)
                .map(|r| 10.0 * text[r.start..r.end].chars().count() as f32)
                .unwrap_or(0.0),
        ),
    }
}

fn font() -> FontMeasures<F32> {
    FontMeasures {
        cursor_height: Some(F32(20.0)),
        ascender: F32(0.0),
        descender: F32(0.0),
        height: F32(0.0),
    }
}

fn frame_of(
    text: &Text<F32>,
    base: &str,
    cursor: usize,
    ranges: Vec<ByteRange>,
    selection: Option<(usize, usize)>,
) -> Frame<F32> {
    let display = text.display_text(base, cursor);
    let plan = text.plan(&display, &ranges, &font(), F32(1.0), selection);
    let widths = measure(&display.text, &plan);
    text.frame(plan, &widths, F32(3.0))
}

#[test]
fn frame_is_measured() {
    let text = text_at(100.0, 50.0);
    let frame = frame_of(&text, TEXT, 4, vec![range(0, 3), range(3, 6)], Some((1, 4)));
    assert_eq!(frame.cursor.line_height, F32(24.0));
    assert_eq!(frame.lines.len(), 2);
    let spans: Vec<(f32, f32)> =
        frame.selection.unwrap().iter().map(|s| (s.start_x.0, s.end_x.0)).collect();
    assert_eq!(spans, vec![(110.0, 120.0), (100.0, 110.0)]);
    let glyphs: Vec<Vec<(f32, f32)>> = frame
        .glyphs
        .iter()
        .map(|line| line.iter().map(|s| (s.start_x.0, s.end_x.0)).collect())
        .collect();
    assert_eq!(
        glyphs,
        vec![
            vec![(100.0, 110.0), (110.0, 120.0), (120.0, 120.0)],
            vec![(100.0, 110.0), (110.0, 120.0), (120.0, 130.0)],
        ]
    );
    assert!(frame.preedit.is_none());
    assert_eq!(frame.caret, vec(110.0, 54.0));
    assert_eq!(frame.line_width, F32(3.0));
}

fn fill(x: f32, y: f32, start: usize, end: usize) -> DrawOp<F32> {
    DrawOp::FillText { pos: vec(x, y), range: range(start, end), ink: Ink::Style }
}

#[test]
fn edited_text_is_drawn() {
    let mut text = text_at(100.0, 50.0);
    let frame = frame_of(&text, TEXT, 4, vec![range(0, 3), range(3, 6)], None);
    let Drawing { ops, ime_area } = text.draw(frame);
    assert_eq!(ops.len(), 4);
    // The rectangle round the text, with a pixel to spare on every side.
    assert_eq!(
        ops[0],
        DrawOp::MoveAndStrokeRect {
            from: vec(100.0, 50.0),
            pos: vec(99.0, 30.0 + 2.4 - 1.0),
            size: vec(32.0, 50.0),
            ink: Ink::Rgba { r: F32(1.0), g: F32(0.5), b: F32(0.3), a: F32(0.3) },
            width: F32(2.0),
        }
    );
    assert_eq!(ops[1], fill(100.0, 50.0, 0, 3));
    assert_eq!(ops[2], fill(100.0, 74.0, 3, 6));
    assert_eq!(
        ops[3],
        DrawOp::FillLine {
            from: vec(110.0, 54.0 + 2.4),
            to: vec(110.0, 78.0 + 2.4),
            ink: Ink::StyleDefaultFont,
        }
    );
    assert_eq!(ime_area, None);
    let layout = text.layout.as_ref().unwrap();
    assert_eq!(layout.rect, Rectangle::new(99, 31, 32, 50));
    assert_eq!(layout.line_ranges, vec![range(0, 3), range(3, 6)]);
    assert_eq!(layout.glyphs[0][1], Rectangle::new(110, 32, 10, 24));
    assert_eq!(layout.glyphs[1][2], Rectangle::new(120, 56, 10, 24));
    assert!(text.cursor_visible);
    assert!(text.is_at(vec(99.5, 40.0)));
    assert!(!text.is_at(vec(131.0, 40.0)));
}

#[test]
fn caret_is_hidden_beside_a_selection() {
    let mut text = text_at(100.0, 50.0);
    let frame = frame_of(&text, TEXT, 4, vec![range(0, 3), range(3, 6)], Some((1, 2)));
    let ops = text.draw(frame).ops;
    assert_eq!(
        ops[0],
        DrawOp::FillRect {
            pos: vec(110.0, 30.0 + 2.4),
            size: vec(10.0, 24.0),
            ink: Ink::Rgba { r: F32(0.3), g: F32(0.5), b: F32(1.0), a: F32(0.3) },
        }
    );
    assert!(!ops.iter().any(|op| matches!(op, DrawOp::FillLine { .. })));
    assert!(!text.cursor_visible);
}

#[test]
fn finished_text_shows_only_its_lines() {
    let mut text = text_at(100.0, 50.0);
    text.editing = false;
    text.draw_rect = false;
    text.im_context = None;
    text.effect = TextEffect::Shadow;
    let frame = frame_of(&text, TEXT, 0, vec![range(0, 3), range(3, 6)], None);
    let tint = Ink::StyleTinted(Tint::ContrastWithAlpha(WHITE, 160));
    assert_eq!(
        text.draw(frame).ops,
        vec![
            DrawOp::FillText { pos: vec(104.5, 54.5), range: range(0, 3), ink: tint },
            fill(100.0, 50.0, 0, 3),
            DrawOp::FillText { pos: vec(104.5, 78.5), range: range(3, 6), ink: tint },
            fill(100.0, 74.0, 3, 6),
        ]
    );
    text.effect = TextEffect::Inverted;
    let frame = frame_of(&text, TEXT, 0, vec![range(0, 3)], None);
    assert_eq!(
        text.draw(frame).ops,
        vec![
            DrawOp::StrokeText {
                pos: vec(100.0, 50.0),
                range: range(0, 3),
                ink: Ink::StyleTinted(Tint::Inverted(WHITE)),
                width: F32(6.0),
            },
            fill(100.0, 50.0, 0, 3),
        ]
    );
}

#[test]
fn composition_is_drawn_over_the_text() {
    let mut text = text_at(100.0, 50.0);
    text.draw_rect = false;
    text.im_context = Some(InputContext { id: 1 });
    text.preedit = composing(
        "xy",
        Some(1),
        vec![PreeditSpan {
            range: range(0, 1),
            foreground: Some(RED),
            background: Some(WHITE),
            underline: UnderlineKind::Double,
            underline_color: None,
        }],
    );
    let frame = frame_of(&text, "ab", 1, vec![range(0, 4)], None);
    let Drawing { ops, ime_area } = text.draw(frame);
    let line = |y: f32| DrawOp::StrokeLine {
        from: vec(110.0, y),
        to: vec(120.0, y),
        ink: Ink::Solid(RED),
        width: F32(1.0),
    };
    assert_eq!(
        ops[..8],
        [
            fill(100.0, 50.0, 0, 4),
            DrawOp::FillRect {
                pos: vec(110.0, 32.4),
                size: vec(10.0, 24.0),
                ink: Ink::Solid(WHITE),
            },
            DrawOp::Save,
            DrawOp::Scissor { pos: vec(109.0, 29.0), size: vec(12.0, 28.0) },
            DrawOp::FillText {
                pos: vec(100.0, 50.0),
                range: range(0, 4),
                ink: Ink::StyleRecoloured(RED),
            },
            DrawOp::Restore,
            line(55.0),
            line(56.5),
        ]
    );
    assert_eq!(ops.len(), 9);
    assert_eq!(ime_area, Some((vec(120.0, 32.4), vec(121.0, 57.4))));
}

#[test]
fn underlines() {
    let line = lines()[0];
    let place = Span { line, start_x: F32(10.0), end_x: F32(30.0) };
    let mut ops = vec![];
    draw_underline_segment(&mut ops, &place, F32(0.0), F32(100.0), UnderlineKind::Single, RED);
    assert_eq!(
        ops,
        vec![DrawOp::StrokeLine {
            from: vec(10.0, 102.0),
            to: vec(30.0, 102.0),
            ink: Ink::Solid(RED),
            width: F32(2.0),
        }]
    );
    let narrow = Span { end_x: F32(10.0), ..place };
    let mut ops = vec![];
    draw_underline_segment(&mut ops, &narrow, F32(0.0), F32(100.0), UnderlineKind::Double, RED);
    draw_underline_segment(&mut ops, &place, F32(0.0), F32(100.0), UnderlineKind::NoLine, RED);
    assert_eq!(ops, vec![]);
    assert!(can_underline(F32(2.0)));
    assert!(!can_underline(F32(1.9)));
    assert!(!can_underline(F32(f32::NAN)));
}

#[test]
fn caret_on_the_screen() {
    assert_eq!(
        ime_cursor_location(vec(101.0, -3.0), vec(104.0, 40.0), 2),
        Rectangle::new(50, -2, 2, 22)
    );
    // At least one pixel, at a scale of at least one.
    assert_eq!(
        ime_cursor_location(vec(10.7, 20.2), vec(10.7, 20.2), 0),
        Rectangle::new(10, 20, 1, 1)
    );
}

#[test]
fn fonts_of_a_text() {
    let mut text = text_at(0.0, 0.0);
    assert_eq!(text.fonts(9), vec![9]);
    text.font_ids = vec![3, 4];
    assert_eq!(text.fonts(9), vec![3, 4]);
}

#[test]
fn rectangles_of_whole_pixels() {
    let rect = Rectangle::new(10, 20, 5, 5);
    assert!(rect.contains_point(10, 20) && rect.contains_point(14, 24));
    assert!(!rect.contains_point(15, 20) && !rect.contains_point(10, 25));
    assert!(!Rectangle::new(0, 0, 0, 0).contains_point(0, 0));
    assert!(Rectangle::new(i32::MAX, 0, 5, 5).contains_point(i32::MAX, 0));
}
