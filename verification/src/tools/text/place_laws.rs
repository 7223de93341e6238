//! Where things are in a text: characters, lines, stretches, and what the mouse points at.

use vstd::prelude::*;
use vstd::utf8::{encode_scalar, encode_utf8};

use super::buffer::{line_at_from, line_offsets, offset_above, offset_below, place_in_line};
use super::content::{DisplayContent, Text};
use super::draw::Frame;
use super::effect::TextEffect;
use super::index::{
    byte_index, byte_len, char_start, chars_before, law_positions_by_byte_and_character,
    lemma_char_start_monotone, lemma_chars_before, lemma_encode_concat,
};
use super::layout::{
    baseline_of, caret_anchor_from, caret_at, char_segments, chars_in, composed_segment,
    composed_segments,
    ends_with_newline, glyph_segments_of, line_segment, metrics_of, selected_segment,
    selected_segments, span_of, CaretAnchor, FontMeasures, LineLayout, Segment,
};
use super::plan::{Plan, PlanWidths};
use super::pointer::{
    click_offset_from, drag_offset_from, glyph_at_from, not_below, past_middle, place_at_glyph,
    points_at,
};
use super::shown_laws::{
    below_lines, chars_in_lines, law_every_character_is_measured, line_holds, lines_hold,
};
use crate::canvas::ByteRange;
use crate::ime::InputContext;
use crate::math::{Rectangle, Vec2D};
use crate::math_laws::{greater, law_whole_pixel_quotients, lesser};
use crate::scalar::Scalar;
use crate::style::Style;

verus! {

// ---------------------------------------------------------------------------------------------
// Characters and bytes

/// A character begins behind the bytes of those before it, and the text ends behind all of its
/// bytes.
pub proof fn law_byte_of_a_character(chars: Seq<char>, k: int)
    requires
        k >= 0,
    ensures
        byte_index(chars, k) == encode_utf8(chars.take(lesser(k, chars.len() as int))).len(),
        k <= chars.len() ==> char_start(chars, k) == encode_utf8(chars.take(k)).len(),
        byte_len(chars) == encode_utf8(chars).len(),
{
    assert(chars.take(chars.len() as int) =~= chars);
}

/// The characters before a byte are as many as have all of their bytes before it.
pub proof fn law_characters_before_a_byte(chars: Seq<char>, byte: int)
    requires
        byte >= 0,
    ensures
        ({
            let k = chars_before(chars, byte) as int;
            &&& k <= chars.len()
            &&& encode_utf8(chars.take(k)).len() <= byte
            &&& k < chars.len() ==> byte < encode_utf8(chars.take(k + 1)).len()
        }),
{
    lemma_chars_before(chars, byte);
}

/// The characters between two bytes at which characters begin.
pub proof fn law_characters_in_a_range(text: Seq<char>, range: ByteRange, a: int, b: int)
    requires
        line_holds(text, range, a, b),
    ensures
        chars_in(text, range) == text.subrange(a, b),
{
    lemma_places(text, range, a, b);
}

proof fn lemma_places(text: Seq<char>, range: ByteRange, a: int, b: int)
    requires
        line_holds(text, range, a, b),
    ensures
        chars_before(text, range.start as int) == a,
        chars_before(text, range.end as int) == b,
{
    assert(text.take(text.len() as int) =~= text);
    law_positions_by_byte_and_character(text, a);
    law_positions_by_byte_and_character(text, b);
}

proof fn lemma_last_byte(c: char)
    ensures
        encode_scalar(c as u32).len() > 0,
        encode_scalar(c as u32).last() == 0x0a <==> c == '\n',
{
    let v = c as u32;
    if v > 0x7f {
        assert(0x80u8 | (v & 0x3f) as u8 >= 0x80u8) by (bit_vector);
    } else {
        assert((v & 0x7f) as u8 == 0x0au8 <==> v == 0x0a) by (bit_vector)
            requires
                v <= 0x7f,
        ;
    }
}

/// A line ends with a line break where its last character is one.
pub proof fn law_lines_with_a_line_break(text: Seq<char>, range: ByteRange, a: int, b: int)
    requires
        line_holds(text, range, a, b),
    ensures
        ends_with_newline(text, range) <==> a < b && text[b - 1] == '\n',
{
    assert(text.take(text.len() as int) =~= text);
    lemma_char_start_monotone(text, a, b);
    if a < b {
        let last = text[b - 1];
        let (before, after) = (text.take(b - 1), text.skip(b));
        assert(text =~= before.push(last) + after);
        lemma_encode_concat(before.push(last), after);
        assert(before.push(last) =~= before + seq![last]);
        lemma_encode_concat(before, seq![last]);
        assert(seq![last].drop_first() =~= seq![]);
        reveal_with_fuel(encode_utf8, 2);
        assert(encode_utf8(seq![last]) =~= encode_scalar(last as u32));
        lemma_last_byte(last);
        assert(text.take(b) =~= before.push(last));
        let bytes = encode_utf8(text);
        let end = range.end as int;
        assert(bytes[end - 1] == encode_scalar(last as u32).last());
    }
}

// ---------------------------------------------------------------------------------------------
// What is shown

/// What is shown is what the buffer holds, with what is being composed, if anything is, put in at
/// the cursor. The cursor is then where the input method has it in what is composed, or at its end.
pub proof fn law_what_is_shown<S>(
    text: Text<S>,
    base: Seq<char>,
    cursor: int,
    shown: DisplayContent,
)
    requires
        cursor >= 0,
        text.displays(base, cursor, shown),
    ensures
        ({
            let k = lesser(cursor, base.len() as int);
            let at = encode_utf8(base.take(k)).len();
            let composing = text.editing && (text.preedit matches Some(p) && p.text@.len() > 0);
            &&& !composing ==> shown.text@ == base && shown.cursor_byte_pos == at
                && shown.preedit_range is None
            &&& composing ==> {
                let preedit = text.preedit->0;
                let composed = preedit.text@;
                let c = match preedit.cursor_chars {
                    Some(n) => lesser(n as int, composed.len() as int),
                    None => composed.len() as int,
                };
                &&& shown.text@ == base.take(k) + composed + base.skip(k)
                &&& shown.cursor_byte_pos == at + encode_utf8(composed.take(c)).len()
                &&& shown.preedit_range matches Some(range) && range.start == at && range.end == at
                    + encode_utf8(composed).len()
            }
        }),
{
    law_byte_of_a_character(base, cursor);
    if let Some(preedit) = text.preedit {
        assert(preedit.text@.take(preedit.text@.len() as int) =~= preedit.text@);
    }
}

/// A new text is being edited, at its place and in its style, with its rectangle and its caret, and
/// nothing else yet.
pub proof fn law_new_text<S>(
    pos: Vec2D<S>,
    style: Style,
    im_context: Option<InputContext>,
    buffer: u64,
    font_ids: Vec<u64>,
)
    ensures
        ({
            let text = Text::spec_new(pos, style, im_context, buffer, font_ids);
            &&& text.pos == pos && text.style == style && text.im_context == im_context
            &&& text.buffer == buffer && text.font_ids == font_ids
            &&& text.editing && text.draw_rect && text.cursor_visible
            &&& text.preedit is None && text.layout is None
            &&& text.effect == TextEffect::Plain
        }),
{
}

// ---------------------------------------------------------------------------------------------
// Stretches of lines

/// What is measured for a stretch of characters is all that the stretch and the line have in
/// common, behind all that comes before it in the line. Nothing is where they have nothing in
/// common.
pub proof fn law_stretch_of_a_line<S>(
    text: Seq<char>,
    line: LineLayout<S>,
    from: int,
    to: int,
    byte: int,
)
    requires
        0 <= from,
        0 <= to,
        line.range.start <= line.range.end,
    ensures
        ({
            let common = line.range.start <= byte < line.range.end && byte_index(text, from) <= byte
                && byte < byte_index(text, to);
            match line_segment(text, line, from, to) {
                Some(segment) => {
                    &&& segment.selected.start <= byte < segment.selected.end <==> common
                    &&& segment.line == line
                    &&& segment.prefix.start == line.range.start
                    &&& segment.prefix.end == segment.selected.start
                },
                None => !common,
            }
        }),
{
    let n = text.len() as int;
    assert(text.take(n) =~= text);
    if from >= to {
        lemma_char_start_monotone(text, lesser(to, n), lesser(from, n));
    }
}

/// The segment of a line from one character to another.
pub open spec fn stretch<S>(text: Seq<char>, line: LineLayout<S>, from: int, to: int) -> Option<
    Segment<S>,
> {
    if from < to {
        Some(
            Segment {
                line,
                prefix: ByteRange {
                    start: line.range.start,
                    end: encode_utf8(text.take(from)).len() as usize,
                },
                selected: ByteRange {
                    start: encode_utf8(text.take(from)).len() as usize,
                    end: encode_utf8(text.take(to)).len() as usize,
                },
            },
        )
    } else {
        None
    }
}

proof fn lemma_stretch<S>(
    text: Seq<char>,
    line: LineLayout<S>,
    a: int,
    b: int,
    from: int,
    to: int,
)
    requires
        line_holds(text, line.range, a, b),
        a <= from,
        to <= b,
    ensures
        line_segment(text, line, from, to) == stretch(text, line, from, to),
{
    assert(text.take(text.len() as int) =~= text);
    if from < to {
        lemma_char_start_monotone(text, a, from);
        lemma_char_start_monotone(text, from, to);
        lemma_char_start_monotone(text, to, b);
        assert(byte_index(text, from) == char_start(text, from));
        assert(byte_index(text, to) == char_start(text, to));
    }
}

/// What is measured of a line for a selection are those of its characters that are selected.
pub proof fn law_selected_part_of_a_line<S>(
    text: Seq<char>,
    line: LineLayout<S>,
    a: int,
    b: int,
    selection: (usize, usize),
)
    requires
        line_holds(text, line.range, a, b),
    ensures
        selected_segment(text, line, selection) == stretch(
            text,
            line,
            greater(selection.0 as int, a),
            lesser(selection.1 as int, b),
        ),
{
    lemma_places(text, line.range, a, b);
    lemma_stretch(
        text,
        line,
        a,
        b,
        greater(selection.0 as int, a),
        lesser(selection.1 as int, b),
    );
}

/// What is measured of a line for a part of what is being composed, the characters from `c` up to,
/// but without, `d`, are those of its characters that belong to the part.
pub proof fn law_composed_part_of_a_line<S>(
    text: Seq<char>,
    line: LineLayout<S>,
    a: int,
    b: int,
    origin: int,
    span: ByteRange,
    c: int,
    d: int,
)
    requires
        line_holds(text, line.range, a, b),
        0 <= c <= d <= text.len(),
        origin + span.start == char_start(text, c),
        origin + span.end == char_start(text, d),
    ensures
        composed_segment(text, line, origin, span) == stretch(
            text,
            line,
            greater(c, a),
            lesser(d, b),
        ),
{
    let (from, to) = (greater(c, a), lesser(d, b));
    assert(text.take(text.len() as int) =~= text);
    if a < c {
        lemma_char_start_monotone(text, a, c);
    } else {
        lemma_char_start_monotone(text, c, a);
    }
    if b < d {
        lemma_char_start_monotone(text, b, d);
    } else {
        lemma_char_start_monotone(text, d, b);
    }
    law_positions_by_byte_and_character(text, from);
    law_positions_by_byte_and_character(text, to);
    if from < to {
        lemma_char_start_monotone(text, from, to);
    } else {
        lemma_char_start_monotone(text, to, from);
    }
    lemma_stretch(text, line, a, b, from, to);
}

/// The stretches of a selection, and of what is being composed, come in the order of the lines, one
/// for each line that has one.
pub proof fn law_stretches_in_the_order_of_lines<S>(
    text: Seq<char>,
    lines: Seq<LineLayout<S>>,
    selection: (usize, usize),
    origin: int,
    span: ByteRange,
    n: nat,
)
    ensures
        ({
            let selected = |k: nat| selected_segments(text, lines, selection, k);
            let composed = |k: nat| composed_segments(text, lines, origin, span, k);
            &&& selected(0).len() == 0 && composed(0).len() == 0
            &&& selected(n + 1) == match selected_segment(text, lines[n as int], selection) {
                Some(segment) => selected(n).push(segment),
                None => selected(n),
            }
            &&& composed(n + 1) == match composed_segment(text, lines[n as int], origin, span) {
                Some(segment) => composed(n).push(segment),
                None => composed(n),
            }
        }),
{
}

/// Every character of a line is measured behind all that comes before it in the line.
pub proof fn law_characters_are_measured_behind_each_other<S>(
    text: Seq<char>,
    line: LineLayout<S>,
    a: int,
    b: int,
    i: int,
)
    requires
        line_holds(text, line.range, a, b),
        0 <= i < b - a,
    ensures
        glyph_segments_of(text, line).len() == b - a,
        Some(glyph_segments_of(text, line)[i]) == stretch(text, line, a + i, a + i + 1),
{
    law_every_character_is_measured(text, line, a, b);
    lemma_places(text, line.range, a, b);
    lemma_glyph(text, line, a, b, b, i);
}

proof fn lemma_glyph<S>(
    text: Seq<char>,
    line: LineLayout<S>,
    a: int,
    b: int,
    to: int,
    i: int,
)
    requires
        line_holds(text, line.range, a, b),
        a <= to <= b,
        0 <= i < to - a,
    ensures
        char_segments(text, line, a, to).len() == to - a,
        Some(char_segments(text, line, a, to)[i]) == stretch(text, line, a + i, a + i + 1),
    decreases to - a,
{
    reveal_with_fuel(char_segments, 2);
    lemma_stretch(text, line, a, b, to - 1, to);
    if to - 1 > a {
        lemma_glyph(
            text,
            line,
            a,
            b,
            to - 1,
            if i < to - 1 - a {
                i
            } else {
                0
            },
        );
    }
}

// ---------------------------------------------------------------------------------------------
// The plan and the frame

/// A plan has its lines below each other, from the text's own height on, and measures for them what
/// is selected, every character, and every part of what is being composed.
pub proof fn law_what_is_planned<S: Scalar>(
    text: Text<S>,
    display: DisplayContent,
    ranges: Seq<ByteRange>,
    font: FontMeasures<S>,
    scale: S,
    selection: Option<(usize, usize)>,
    plan: Plan<S>,
    i: int,
)
    requires
        text.planned(display, ranges, font, scale, selection, plan),
    ensures
        ({
            let shown = display.text@;
            let lines = plan.lines@;
            let height = plan.cursor.line_height;
            let composing = text.editing && text.preedit is Some && display.preedit_range is Some;
            &&& plan.cursor == metrics_of(font, scale)
            &&& lines.len() == ranges.len() && plan.glyphs@.len() == ranges.len()
            &&& 0 <= i < ranges.len() ==> lines[i].range == ranges[i] && lines[i].baseline
                == baseline_of(text.pos.y, height, i as nat) && plan.glyphs@[i]@
                == glyph_segments_of(shown, lines[i])
            &&& plan.selection is Some <==> selection is Some
            &&& selection matches Some(s) ==> plan.selection->0@ == selected_segments(
                shown,
                lines,
                s,
                lines.len(),
            )
            &&& plan.preedit is Some <==> composing
            &&& composing ==> {
                let spans = text.preedit->0.spans@;
                let parts = plan.preedit->0@;
                &&& parts.len() == spans.len()
                &&& 0 <= i < spans.len() ==> parts[i].span == spans[i] && parts[i].places@
                    == composed_segments(
                    shown,
                    lines,
                    display.preedit_range->0.start as int,
                    spans[i].range,
                    lines.len(),
                )
            }
            &&& plan.caret == caret_anchor_from(
                shown,
                lines,
                display.cursor_byte_pos as int,
                0,
                None,
            )
        }),
{
}

/// A frame has each stretch of its plan where its own widths put it.
pub proof fn law_what_is_framed<S: Scalar>(
    text: Text<S>,
    plan: Plan<S>,
    widths: PlanWidths<S>,
    line_width: S,
    frame: Frame<S>,
    i: int,
    j: int,
)
    requires
        text.framed(plan, widths, line_width, frame),
        widths.glyphs@.len() == plan.glyphs@.len(),
        plan.selection matches Some(s) ==> widths.selection@.len() == s@.len(),
        plan.preedit matches Some(s) ==> widths.preedit@.len() == s@.len(),
        0 <= i,
        0 <= j,
    ensures
        ({
            let left = text.pos.x;
            &&& frame.lines@ == plan.lines@ && frame.cursor == plan.cursor
            &&& frame.line_width == line_width
            &&& frame.caret == caret_at(text.pos, plan.caret, widths.caret, plan.cursor)
            &&& frame.selection is Some <==> plan.selection is Some
            &&& plan.selection matches Some(segments) ==> {
                let spans = frame.selection->0@;
                let w = widths.selection@;
                &&& spans.len() == segments@.len()
                &&& i < segments@.len() ==> spans[i] == span_of(
                    left,
                    segments@[i],
                    w[i].prefix,
                    w[i].selected,
                )
            }
            &&& frame.glyphs@.len() == plan.glyphs@.len()
            &&& i < plan.glyphs@.len() && j < plan.glyphs@[i]@.len() && j
                < widths.glyphs@[i]@.len() ==> frame.glyphs@[i]@[j] == span_of(
                left,
                plan.glyphs@[i]@[j],
                widths.glyphs@[i]@[j].prefix,
                widths.glyphs@[i]@[j].selected,
            )
            &&& frame.preedit is Some <==> plan.preedit is Some
            &&& plan.preedit matches Some(parts) ==> {
                let spans = frame.preedit->0@;
                &&& spans.len() == parts@.len()
                &&& i < parts@.len() ==> spans[i].span == parts@[i].span
                &&& i < parts@.len() && j < parts@[i].places@.len() && j
                    < widths.preedit@[i]@.len() ==> spans[i].places@[j] == span_of(
                    left,
                    parts@[i].places@[j],
                    widths.preedit@[i]@[j].prefix,
                    widths.preedit@[i]@[j].selected,
                )
            }
        }),
{
}

// ---------------------------------------------------------------------------------------------
// The caret

/// A caret at the beginning of the text is at the beginning of the first line, and where there are
/// no lines it is where the text would begin.
pub proof fn law_caret_at_the_beginning<S>(
    text: Seq<char>,
    lines: Seq<LineLayout<S>>,
    cursor: usize,
)
    ensures
        lines.len() == 0 ==> caret_anchor_from(text, lines, cursor as int, 0, None)
            == CaretAnchor::<S>::Origin,
        lines.len() > 0 && cursor == lines[0].range.start && cursor < lines[0].range.end
            ==> caret_anchor_from(text, lines, cursor as int, 0, None) == (CaretAnchor::InLine {
            line: lines[0],
            prefix: ByteRange { start: cursor, end: cursor },
        }),
{
}

proof fn lemma_past_all<S>(text: Seq<char>, lines: Seq<LineLayout<S>>, cursor: int, i: int)
    requires
        0 <= i <= lines.len(),
        lines.len() > 0,
        forall|k: int| 0 <= k < lines.len() ==> (#[trigger] lines[k]).range.end < cursor,
    ensures
        caret_anchor_from(text, lines, cursor, i, None) == (CaretAnchor::PastEnd {
            line: lines.last(),
            prefix: lines.last().range,
        }),
    decreases lines.len() - i,
{
    if i < lines.len() {
        assert(lines[i].range.end < cursor);
        lemma_past_all(text, lines, cursor, i + 1);
    }
}

/// A caret past the end of all lines is below the last line, behind its text.
pub proof fn law_caret_past_the_end<S>(text: Seq<char>, lines: Seq<LineLayout<S>>, cursor: usize)
    requires
        lines.len() > 0,
        forall|k: int| 0 <= k < lines.len() ==> (#[trigger] lines[k]).range.end < cursor,
    ensures
        caret_anchor_from(text, lines, cursor as int, 0, None) == (CaretAnchor::PastEnd {
            line: lines.last(),
            prefix: lines.last().range,
        }),
{
    lemma_past_all(text, lines, cursor as int, 0);
}

// ---------------------------------------------------------------------------------------------
// Steps up and down

/// Whether every line has characters.
pub open spec fn growing(starts: Seq<int>) -> bool {
    forall|i: int, j: int| 0 <= i < j < starts.len() ==> #[trigger] starts[i] < #[trigger] starts[j]
}

proof fn lemma_line_of_an_offset(
    content: Seq<char>,
    ranges: Seq<ByteRange>,
    starts: Seq<int>,
    offset: int,
    line: int,
    n: int,
)
    requires
        lines_hold(content, ranges, starts),
        growing(starts),
        0 <= n <= line < ranges.len(),
        starts[line] < offset <= starts[line + 1] || (line == 0 && offset == 0),
    ensures
        line_at_from(content, ranges, offset, n) == Some(line),
    decreases line - n,
{
    assert(line_holds(content, ranges[n], starts[n], starts[n + 1]));
    lemma_places(content, ranges[n], starts[n], starts[n + 1]);
    if n < line {
        assert(starts[n] < starts[n + 1]);
        if n + 1 < line {
            assert(starts[n + 1] < starts[line]);
        }
        lemma_line_of_an_offset(content, ranges, starts, offset, line, n + 1);
    } else if line == 0 {
        assert(starts[0] < starts[1]);
    }
}

/// A step down goes to the next line, as far from its beginning as before or to its end if that is
/// nearer, and from the last line to its end. A step up goes to the line before likewise, and from
/// the first line to its beginning. An offset at the end of a line counts as in that line.
pub proof fn law_steps_by_line(
    content: Seq<char>,
    ranges: Seq<ByteRange>,
    starts: Seq<int>,
    offset: int,
    line: int,
)
    requires
        lines_hold(content, ranges, starts),
        growing(starts),
        0 <= line < ranges.len(),
        starts[line] < offset <= starts[line + 1] || (line == 0 && offset == 0),
    ensures
        ({
            let column = offset - starts[line];
            &&& offset_below(content, ranges, offset) == (if line + 1 == ranges.len() {
                starts[line + 1]
            } else {
                lesser(starts[line + 1] + column, starts[line + 2])
            })
            &&& offset_above(content, ranges, offset) == (if line == 0 {
                0
            } else {
                lesser(starts[line - 1] + column, starts[line])
            })
        }),
{
    lemma_line_of_an_offset(content, ranges, starts, offset, line, 0);
    assert(line_holds(content, ranges[line], starts[line], starts[line + 1]));
    lemma_places(content, ranges[line], starts[line], starts[line + 1]);
    if line + 1 < ranges.len() {
        assert(line_holds(content, ranges[line + 1], starts[line + 1], starts[line + 2]));
        lemma_places(content, ranges[line + 1], starts[line + 1], starts[line + 2]);
    }
    if line > 0 {
        assert(line_holds(content, ranges[line - 1], starts[line - 1], starts[line]));
        lemma_places(content, ranges[line - 1], starts[line - 1], starts[line]);
    }
}

proof fn lemma_no_line(content: Seq<char>, ranges: Seq<ByteRange>, offset: int, n: int)
    requires
        0 <= n,
        forall|i: int|
            0 <= i < ranges.len() ==> {
                let (start, end) = line_offsets(content, #[trigger] ranges[i]);
                offset < start || end < offset
            },
    ensures
        line_at_from(content, ranges, offset, n) is None,
    decreases ranges.len() - n,
{
    if n < ranges.len() {
        let (start, end) = line_offsets(content, ranges[n]);
        assert(offset < start || end < offset);
        lemma_no_line(content, ranges, offset, n + 1);
    }
}

/// From outside all lines, steps up and down go to the beginning of the text.
pub proof fn law_steps_from_outside_the_lines(
    content: Seq<char>,
    ranges: Seq<ByteRange>,
    offset: int,
)
    requires
        forall|i: int|
            0 <= i < ranges.len() ==> {
                let (start, end) = line_offsets(content, #[trigger] ranges[i]);
                offset < start || end < offset
            },
    ensures
        offset_below(content, ranges, offset) == 0,
        offset_above(content, ranges, offset) == 0,
{
    lemma_no_line(content, ranges, offset, 0);
}

/// The first and the last place of a line, and a place in it by its distance from the first.
pub proof fn law_places_of_a_line(
    content: Seq<char>,
    range: ByteRange,
    a: int,
    b: int,
    column: int,
)
    requires
        line_holds(content, range, a, b),
    ensures
        line_offsets(content, range) == (a, b),
        place_in_line(content, range, column) == lesser(a + column, b),
{
    lemma_places(content, range, a, b);
}

// ---------------------------------------------------------------------------------------------
// What the mouse points at

/// The mouse points at a rectangle where its pixel is one of the rectangle's.
pub proof fn law_pointing_at_a_rectangle(rect: Rectangle, pos: Vec2D<i64>)
    requires
        i32::MIN <= pos.x <= i32::MAX,
        i32::MIN <= pos.y <= i32::MAX,
    ensures
        points_at(rect, pos) <==> 0 <= pos.x - rect.x && pos.x - rect.x < rect.width && 0 <= pos.y
            - rect.y && pos.y - rect.y < rect.height,
{
}

/// In every number type, the mouse is taken at its whole pixel, and compared with the middle of a
/// character and with the lower edge of a line as it is.
pub proof fn law_pointing_in_every_number_type<S: Scalar>(rect: Rectangle, pos: Vec2D<S>)
    ensures
        ({
            let (x, y) = (pos.x.spec_to_int(), pos.y.spec_to_int());
            let half = S::spec_from_int(rect.width).spec_over(S::spec_from_int(2));
            let bottom = rect.y + rect.height;
            &&& points_at(rect, pos) <==> rect.x <= x && x < rect.x + rect.width && rect.y <= y && y
                < rect.y + rect.height
            &&& past_middle(rect, pos) <==> S::spec_from_int(rect.x).spec_plus(half).spec_below(
                pos.x,
            )
            &&& i32::MIN <= bottom <= i32::MAX ==> (not_below(rect, pos) <==> pos.y.spec_at_most(
                S::spec_from_int(bottom as i32),
            ))
        }),
{
}

/// The place that is pointed at is behind a character exactly if the mouse is farther from the left
/// edge of the character than from its right edge, and else before it.
pub proof fn law_halves_of_a_character(line: Seq<Rectangle>, pos: Vec2D<i64>, j: int)
    requires
        line[j].width >= 0,
    ensures
        2 * (pos.x - line[j].x) > line[j].width ==> place_at_glyph(line, pos, j) == j + 1,
        2 * (pos.x - line[j].x) <= line[j].width ==> place_at_glyph(line, pos, j) == j,
{
    law_whole_pixel_quotients(line[j].width as i64, 2);
}

/// A line is not above the mouse while the mouse is not below its lower edge.
pub proof fn law_lines_above_the_mouse(first: Rectangle, pos: Vec2D<i64>)
    requires
        first.y + first.height <= i32::MAX,
        first.y + first.height >= i32::MIN,
    ensures
        not_below(first, pos) <==> pos.y - first.y <= first.height,
{
}

/// The character that is pointed at is the first of its line whose rectangle has the mouse in it.
pub proof fn law_first_character_pointed_at<S: Scalar>(
    line: Seq<Rectangle>,
    pos: Vec2D<S>,
    j: int,
)
    requires
        0 <= j <= line.len(),
    ensures
        match glyph_at_from(line, pos, j) {
            Some(k) => j <= k < line.len() && points_at(line[k], pos) && forall|i: int|
                j <= i < k ==> !points_at(#[trigger] line[i], pos),
            None => forall|i: int| j <= i < line.len() ==> !points_at(#[trigger] line[i], pos),
        },
    decreases line.len() - j,
{
    if j < line.len() {
        law_first_character_pointed_at(line, pos, j + 1);
    }
}

proof fn lemma_skip_lines<S: Scalar>(glyphs: Seq<Vec<Rectangle>>, pos: Vec2D<S>, n: int, i: int)
    requires
        0 <= i <= n <= glyphs.len(),
        below_lines(glyphs, pos, n),
    ensures
        click_offset_from(glyphs, pos, i, chars_in_lines(glyphs, i)) == click_offset_from(
            glyphs,
            pos,
            n,
            chars_in_lines(glyphs, n),
        ),
        drag_offset_from(glyphs, pos, i, chars_in_lines(glyphs, i)) == drag_offset_from(
            glyphs,
            pos,
            n,
            chars_in_lines(glyphs, n),
        ),
    decreases n - i,
{
    if i < n {
        assert(glyphs[i]@.len() > 0);
        assert(chars_in_lines(glyphs, i + 1) == chars_in_lines(glyphs, i) + glyphs[i]@.len());
        lemma_skip_lines(glyphs, pos, n, i + 1);
    }
}

/// Beside the characters of a line that is not the last, a click goes before its last character.
/// Beside or below the last line, or where nothing was drawn, clicks and drags go to the end.
pub proof fn law_clicking_beside_a_line<S: Scalar>(
    glyphs: Seq<Vec<Rectangle>>,
    pos: Vec2D<S>,
    n: int,
)
    requires
        0 <= n <= glyphs.len(),
        below_lines(glyphs, pos, n),
        n < glyphs.len() ==> glyphs[n]@.len() > 0 && glyph_at_from(glyphs[n]@, pos, 0) is None
            && not_below(glyphs[n]@[0], pos),
    ensures
        ({
            let all = chars_in_lines(glyphs, glyphs.len() as int);
            let click = click_offset_from(glyphs, pos, 0, 0);
            &&& n + 1 < glyphs.len() ==> click == Some(chars_in_lines(glyphs, n + 1) - 1)
            &&& n + 1 >= glyphs.len() ==> click == Some(all)
            &&& n + 1 >= glyphs.len() ==> drag_offset_from(glyphs, pos, 0, 0) == Some(all)
        }),
{
    lemma_skip_lines(glyphs, pos, n, 0);
    if n < glyphs.len() {
        assert(chars_in_lines(glyphs, n + 1) == chars_in_lines(glyphs, n) + glyphs[n]@.len());
        reveal_with_fuel(click_offset_from, 3);
    }
}

/// A line without characters that is come across cannot be told a place in.
pub proof fn law_pointing_across_an_empty_line<S: Scalar>(
    glyphs: Seq<Vec<Rectangle>>,
    pos: Vec2D<S>,
    n: int,
)
    requires
        0 <= n < glyphs.len(),
        below_lines(glyphs, pos, n),
        glyphs[n]@.len() == 0,
    ensures
        click_offset_from(glyphs, pos, 0, 0) is None,
        drag_offset_from(glyphs, pos, 0, 0) is None,
{
    lemma_skip_lines(glyphs, pos, n, 0);
}

/// As many characters come before a line as the lines before it have.
pub proof fn law_counting_characters(glyphs: Seq<Vec<Rectangle>>, n: int)
    requires
        0 <= n < glyphs.len(),
    ensures
        chars_in_lines(glyphs, 0) == 0,
        chars_in_lines(glyphs, n + 1) - chars_in_lines(glyphs, n) == glyphs[n]@.len(),
{
}

/// The layout of a text is found by the mouse inside its rectangle, and nowhere else.
pub proof fn law_text_under_the_mouse<S: Scalar>(text: Text<S>, pos: Vec2D<S>)
    ensures
        text.layout is None ==> text.layout_at(pos) is None,
        text.layout matches Some(layout) ==> (text.layout_at(pos) is Some <==> points_at(
            layout.rect,
            pos,
        )),
        text.layout_at(pos) is Some ==> text.layout_at(pos) == text.layout,
{
}

} // verus!
