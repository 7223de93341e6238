//! What holds of a text as it is shown: where its characters, its lines and its caret are.

use vstd::prelude::*;

use super::buffer::{line_at_from, line_offsets, offset_above, offset_below};
use super::content::{preedit_cursor, DisplayContent, Text, TextLayout};
use super::draw::{
    background_ops, bounds_op, foreground_ops, line_ops, lines_ops, overlay_ops,
    preedit_background_ops, preedit_ops, preedit_overlay_ops, selection_op, span_background_ops,
    span_overlay_ops, span_width, text_bounds, underline_color, underline_ops, Frame,
    MeasuredSpan, TextBounds,
};
use super::effect::Decoration;
use super::index::{
    byte_index, byte_len, char_start, chars_before, law_positions_by_byte_and_character,
    lemma_char_start_monotone, lemma_chars_before, lemma_encode_concat,
};
use super::layout::{
    caret_anchor_from, char_segments, ends_with_newline, epsilon_spec, glyph_segments_of,
    line_segment, CaretAnchor, CursorMetrics, FontMeasures, LineLayout, Span,
};
use super::plan::{Plan, PlanWidths};
use super::pointer::{
    click_offset_from, drag_offset_from, glyph_at_from, not_below, place_at_glyph,
};
use super::steps::finished_text;
use crate::canvas::{ByteRange, DrawOp, Ink};
use crate::math::{Rectangle, Vec2D};
use crate::scalar::{Scalar, EXACT};
use crate::style::Style;

verus! {

// ---------------------------------------------------------------------------------------------
// Characters

/// What is shown without what is being composed is what the buffer holds. What is being composed
/// is where the display says, and the cursor stands in it or at one of its ends.
pub proof fn law_composition_is_put_in<S>(
    text: Text<S>,
    base: Seq<char>,
    cursor: int,
    shown: DisplayContent,
)
    requires
        cursor >= 0,
        text.shown_preedit() is Some,
        text.displays(base, cursor, shown),
    ensures
        ({
            let composed = text.shown_preedit()->0.text@;
            let range = shown.preedit_range->0;
            let k = if cursor < base.len() {
                cursor
            } else {
                base.len() as int
            };
            &&& shown.text@.take(k) + shown.text@.skip(k + composed.len()) == base
            &&& shown.text@.subrange(k, k + composed.len()) == composed
            &&& range.start == byte_index(shown.text@, k)
            &&& range.end == byte_index(shown.text@, k + composed.len())
            &&& range.start <= shown.cursor_byte_pos <= range.end
        }),
{
    let preedit = text.shown_preedit()->0;
    let composed = preedit.text@;
    let k = if cursor < base.len() {
        cursor
    } else {
        base.len() as int
    };
    let n = composed.len() as int;
    let (before, after) = (base.take(k), base.skip(k));
    let whole = shown.text@;
    assert(whole.take(k) + whole.skip(k + n) =~= base);
    assert(whole.subrange(k, k + n) =~= composed);

    assert(base.take(base.len() as int) =~= base);
    assert(byte_index(base, cursor) == byte_len(before));
    assert(whole.take(k) =~= before);
    assert(whole.take(k + n) =~= before + composed);
    assert(whole.take(whole.len() as int) =~= whole);
    lemma_encode_concat(before, composed);
    assert(byte_index(whole, k) == byte_len(before));
    assert(byte_index(whole, k + n) == byte_len(before + composed));

    assert(composed.take(n) =~= composed);
    let at = preedit_cursor(preedit);
    lemma_char_start_monotone(composed, at, n);
}

/// Where nothing is being composed, exactly what the buffer holds is shown.
pub proof fn law_plain_text_is_shown<S>(
    text: Text<S>,
    base: Seq<char>,
    cursor: int,
    shown: DisplayContent,
)
    requires
        text.displays(base, cursor, shown),
        !text.editing || text.preedit is None,
    ensures
        shown.text@ == base,
        shown.preedit_range is None,
        shown.cursor_byte_pos == byte_index(base, cursor),
{
}

// ---------------------------------------------------------------------------------------------
// Lines

proof fn lemma_line_at_from(content: Seq<char>, ranges: Seq<ByteRange>, offset: int, n: int)
    ensures
        line_at_from(content, ranges, offset, n) matches Some(i) ==> n <= i < ranges.len() && ({
            let (start, end) = line_offsets(content, ranges[i]);
            start <= offset <= end
        }),
    decreases ranges.len() - n,
{
    if 0 <= n < ranges.len() {
        lemma_line_at_from(content, ranges, offset, n + 1);
    }
}

/// A step down from a line that is not the last ends in the line below it, and a step up from a
/// line that is not the first in the line above it, at the same distance from its beginning as far
/// as it reaches.
pub proof fn law_vertical_steps(
    content: Seq<char>,
    ranges: Seq<ByteRange>,
    offset: int,
    line: int,
)
    requires
        line_at_from(content, ranges, offset, 0) == Some(line),
        forall|i: int| 0 <= i < ranges.len() ==> (#[trigger] ranges[i]).start <= ranges[i].end,
    ensures
        ({
            let column = offset - line_offsets(content, ranges[line]).0;
            &&& line < ranges.len() - 1 ==> {
                let (start, end) = line_offsets(content, ranges[line + 1]);
                let below = offset_below(content, ranges, offset);
                start <= below <= end && (below == start + column || (below == end && end - start
                    < column))
            }
            &&& line > 0 ==> {
                let (start, end) = line_offsets(content, ranges[line - 1]);
                let above = offset_above(content, ranges, offset);
                start <= above <= end && (above == start + column || (above == end && end - start
                    < column))
            }
        }),
{
    lemma_line_at_from(content, ranges, offset, 0);
    if line < ranges.len() - 1 {
        lemma_chars_before_monotone(
            content,
            ranges[line + 1].start as int,
            ranges[line + 1].end as int,
        );
    }
    if line > 0 {
        lemma_chars_before_monotone(
            content,
            ranges[line - 1].start as int,
            ranges[line - 1].end as int,
        );
    }
}

proof fn lemma_chars_before_monotone(chars: Seq<char>, a: int, b: int)
    requires
        0 <= a <= b,
    ensures
        chars_before(chars, a) <= chars_before(chars, b),
{
    lemma_chars_before(chars, a);
    lemma_chars_before(chars, b);
    let (j, k) = (chars_before(chars, a) as int, chars_before(chars, b) as int);
    if k < j {
        lemma_char_start_monotone(chars, k + 1, j);
    }
}

/// Steps up and down never leave the text.
pub proof fn law_vertical_steps_stay_in_the_text(
    content: Seq<char>,
    ranges: Seq<ByteRange>,
    offset: int,
)
    ensures
        0 <= offset_below(content, ranges, offset) <= content.len(),
        0 <= offset_above(content, ranges, offset) <= content.len(),
{
    lemma_line_at_from(content, ranges, offset, 0);
    if let Some(i) = line_at_from(content, ranges, offset, 0) {
        lemma_line_is_in_the_text(content, ranges[i]);
        if i < ranges.len() - 1 {
            lemma_line_is_in_the_text(content, ranges[i + 1]);
        }
        if i > 0 {
            lemma_line_is_in_the_text(content, ranges[i - 1]);
        }
    }
}

proof fn lemma_line_is_in_the_text(content: Seq<char>, range: ByteRange)
    ensures
        line_offsets(content, range).0 <= content.len(),
        line_offsets(content, range).1 <= content.len(),
{
    lemma_chars_before(content, range.start as int);
    lemma_chars_before(content, range.end as int);
}

// ---------------------------------------------------------------------------------------------
// What is measured

/// What is measured of a line for a stretch of characters is inside the line and inside the
/// stretch, and what is measured before it is all that comes before it in the line.
pub proof fn law_segments_are_inside<S>(text: Seq<char>, line: LineLayout<S>, from: int, to: int)
    ensures
        line_segment(text, line, from, to) matches Some(segment) ==> {
            let (prefix, selected) = (segment.prefix, segment.selected);
            &&& segment.line == line
            &&& line.range.start <= selected.start < selected.end <= line.range.end
            &&& byte_index(text, from) <= selected.start
            &&& selected.end <= byte_index(text, to)
            &&& prefix.start == line.range.start && prefix.end == selected.start
        },
{
}

/// Whether a line consists of the characters from `a` up to, but without, `b`.
pub open spec fn line_holds(text: Seq<char>, range: ByteRange, a: int, b: int) -> bool {
    0 <= a <= b <= text.len() && range.start == char_start(text, a) && range.end == char_start(
        text,
        b,
    )
}

proof fn lemma_char_segments<S>(
    text: Seq<char>,
    line: LineLayout<S>,
    a: int,
    b: int,
    to: int,
)
    requires
        line_holds(text, line.range, a, b),
        a <= to <= b,
    ensures
        char_segments(text, line, a, to).len() == to - a,
        forall|i: int|
            0 <= i < to - a ==> (#[trigger] char_segments(text, line, a, to)[i]).selected == (
            ByteRange {
                start: char_start(text, a + i) as usize,
                end: char_start(text, a + i + 1) as usize,
            }),
    decreases to - a,
{
    if a < to {
        lemma_char_segments(text, line, a, b, to - 1);
        lemma_char_start_monotone(text, a, to - 1);
        lemma_char_start_monotone(text, to - 1, to);
        lemma_char_start_monotone(text, to, b);
        assert(text.take(text.len() as int) =~= text);
        assert(byte_index(text, to - 1) == char_start(text, to - 1));
        assert(byte_index(text, to) == char_start(text, to));
        assert(line_segment(text, line, to - 1, to) is Some);
    }
}

/// Every character of a line is measured by itself, in the order of the line.
pub proof fn law_every_character_is_measured<S>(
    text: Seq<char>,
    line: LineLayout<S>,
    a: int,
    b: int,
)
    requires
        line_holds(text, line.range, a, b),
    ensures
        glyph_segments_of(text, line).len() == b - a,
        forall|i: int|
            0 <= i < b - a ==> (#[trigger] glyph_segments_of(text, line)[i]).selected == (
            ByteRange {
                start: char_start(text, a + i) as usize,
                end: char_start(text, a + i + 1) as usize,
            }),
{
    assert(text.take(text.len() as int) =~= text);
    law_positions_by_byte_and_character(text, a);
    law_positions_by_byte_and_character(text, b);
    lemma_char_segments(text, line, a, b, b);
}

/// Whether what was measured of a character is within the bound in which sums of coordinates are
/// exact.
pub open spec fn exact_span(span: Span<i64>) -> bool {
    -EXACT <= span.start_x <= EXACT && -EXACT <= span.end_x <= EXACT
}

/// Whether every character of the lines is within that bound.
pub open spec fn exact_lines(lines: Seq<Vec<Span<i64>>>) -> bool {
    forall|i: int, j: int|
        0 <= i < lines.len() && 0 <= j < lines[i]@.len() ==> exact_span(#[trigger] lines[i]@[j])
}

/// Whether the rectangle so far is within the bound.
spec fn sound_bounds(bounds: TextBounds<i64>) -> bool {
    &&& bounds.empty || -EXACT - 1 <= bounds.tl.x <= EXACT
    &&& 0 <= bounds.wh.x <= 2 * EXACT + 1
}

proof fn lemma_grow_line(
    bounds: TextBounds<i64>,
    spans: Seq<Span<i64>>,
    cursor: CursorMetrics<i64>,
    n: nat,
)
    requires
        n <= spans.len(),
        sound_bounds(bounds),
        forall|j: int| 0 <= j < spans.len() ==> exact_span(#[trigger] spans[j]),
    ensures
        ({
            let after = bounds.grow_line(spans, cursor, n);
            &&& sound_bounds(after)
            &&& after.empty <==> bounds.empty && n == 0
            &&& !bounds.empty ==> after.tl == bounds.tl
            &&& after.wh.x >= bounds.wh.x
            &&& forall|j: int|
                0 <= j < n ==> (#[trigger] spans[j]).end_x - after.tl.x <= after.wh.x
        }),
    decreases n,
{
    if n > 0 {
        lemma_grow_line(bounds, spans, cursor, (n - 1) as nat);
        assert(exact_span(spans[n - 1]));
    }
}

proof fn lemma_grow_lines(lines: Seq<Vec<Span<i64>>>, cursor: CursorMetrics<i64>, n: nat)
    requires
        n <= lines.len(),
        exact_lines(lines),
    ensures
        ({
            let after = TextBounds::<i64>::spec_new().grow_lines(lines, cursor, n);
            &&& sound_bounds(after)
            &&& after.empty ==> forall|i: int| 0 <= i < n ==> (#[trigger] lines[i])@.len() == 0
            &&& forall|i: int, j: int|
                0 <= i < n && 0 <= j < lines[i]@.len() ==> (#[trigger] lines[i]@[j]).end_x
                    - after.tl.x <= after.wh.x
        }),
    decreases n,
{
    if n > 0 {
        lemma_grow_lines(lines, cursor, (n - 1) as nat);
        let before = TextBounds::<i64>::spec_new().grow_lines(lines, cursor, (n - 1) as nat);
        let line = lines[n - 1]@;
        assert forall|j: int| 0 <= j < line.len() implies exact_span(#[trigger] line[j]) by {
            assert(exact_span(lines[n - 1]@[j]));
        }
        lemma_grow_line(before, line, cursor, line.len());
    }
}

/// The rectangle round a text reaches the right end of every character, with a pixel to spare.
pub proof fn law_rectangle_reaches_every_character(
    lines: Seq<Vec<Span<i64>>>,
    cursor: CursorMetrics<i64>,
    i: int,
    j: int,
)
    requires
        exact_lines(lines),
        0 <= i < lines.len(),
        0 <= j < lines[i]@.len(),
    ensures
        ({
            let bounds = text_bounds(lines, cursor);
            lines[i]@[j].end_x < bounds.tl.x + bounds.wh.x
        }),
{
    lemma_grow_lines(lines, cursor, lines.len());
    assert(lines[i]@[j].end_x - TextBounds::<i64>::spec_new().grow_lines(
        lines,
        cursor,
        lines.len(),
    ).tl.x <= TextBounds::<i64>::spec_new().grow_lines(lines, cursor, lines.len()).wh.x);
}

// ---------------------------------------------------------------------------------------------
// The caret

/// Whether lines follow each other without gaps, none of them empty.
pub open spec fn lines_follow<S>(lines: Seq<LineLayout<S>>) -> bool {
    &&& forall|i: int|
        0 <= i < lines.len() ==> (#[trigger] lines[i]).range.start < lines[i].range.end
    &&& forall|i: int, j: int|
        0 <= i && j == i + 1 && j < lines.len() ==> (#[trigger] lines[i]).range.end == (
        #[trigger] lines[j]).range.start
}

proof fn lemma_earlier_lines_end_before<S>(lines: Seq<LineLayout<S>>, i: int, n: int)
    requires
        lines_follow(lines),
        0 <= i < n < lines.len(),
    ensures
        lines[i].range.end <= lines[n].range.start,
    decreases n - i,
{
    if i + 1 < n {
        lemma_earlier_lines_end_before(lines, i + 1, n);
        assert(lines[i].range.end == lines[i + 1].range.start);
    } else {
        assert(lines[i].range.end == lines[n].range.start);
    }
}

/// The lines that end before the caret are passed over.
proof fn lemma_caret_skips<S>(
    text: Seq<char>,
    lines: Seq<LineLayout<S>>,
    cursor: int,
    n: int,
    i: int,
)
    requires
        lines_follow(lines),
        0 <= i <= n < lines.len(),
        lines[n].range.start < cursor,
    ensures
        caret_anchor_from(text, lines, cursor, i, None) == caret_anchor_from(
            text,
            lines,
            cursor,
            n,
            None,
        ),
    decreases n - i,
{
    if i < n {
        lemma_earlier_lines_end_before(lines, i, n);
        lemma_caret_skips(text, lines, cursor, n, i + 1);
    }
}

/// A caret inside a line is in that line, after what comes before it there.
pub proof fn law_caret_inside_a_line<S>(
    text: Seq<char>,
    lines: Seq<LineLayout<S>>,
    cursor: usize,
    n: int,
)
    requires
        lines_follow(lines),
        0 <= n < lines.len(),
        lines[n].range.start < cursor < lines[n].range.end,
    ensures
        caret_anchor_from(text, lines, cursor as int, 0, None) == (CaretAnchor::InLine {
            line: lines[n],
            prefix: ByteRange { start: lines[n].range.start, end: cursor },
        }),
{
    lemma_caret_skips(text, lines, cursor as int, n, 0);
}

/// A caret right after a line break is at the beginning of the next line, also where that line
/// has no characters yet.
pub proof fn law_caret_after_a_line_break<S>(
    text: Seq<char>,
    lines: Seq<LineLayout<S>>,
    cursor: usize,
    n: int,
)
    requires
        lines_follow(lines),
        0 <= n < lines.len(),
        cursor == lines[n].range.end,
        ends_with_newline(text, lines[n].range),
    ensures
        caret_anchor_from(text, lines, cursor as int, 0, None) == (if n + 1 < lines.len() {
            CaretAnchor::InLine {
                line: lines[n + 1],
                prefix: ByteRange { start: cursor, end: cursor },
            }
        } else {
            CaretAnchor::BelowBreak { line: lines[n] }
        }),
{
    lemma_caret_skips(text, lines, cursor as int, n, 0);
    if n + 1 < lines.len() {
        assert(lines[n].range.end == lines[n + 1].range.start);
    }
    reveal_with_fuel(caret_anchor_from, 3);
}

/// A caret at the end of a line that ends without a line break stays in that line.
pub proof fn law_caret_at_a_soft_break<S>(
    text: Seq<char>,
    lines: Seq<LineLayout<S>>,
    cursor: usize,
    n: int,
)
    requires
        lines_follow(lines),
        0 <= n < lines.len(),
        cursor == lines[n].range.end,
        !ends_with_newline(text, lines[n].range),
    ensures
        caret_anchor_from(text, lines, cursor as int, 0, None) == (CaretAnchor::InLine {
            line: lines[n],
            prefix: lines[n].range,
        }),
{
    lemma_caret_skips(text, lines, cursor as int, n, 0);
}

// ---------------------------------------------------------------------------------------------
// The mouse

/// The number of characters in the first `n` lines.
pub open spec fn chars_in_lines(glyphs: Seq<Vec<Rectangle>>, n: int) -> int
    decreases n,
{
    if n <= 0 {
        0
    } else {
        chars_in_lines(glyphs, n - 1) + glyphs[n - 1]@.len()
    }
}

proof fn lemma_glyph_at_from<S: Scalar>(line: Seq<Rectangle>, pos: Vec2D<S>, j: int)
    ensures
        glyph_at_from(line, pos, j) matches Some(k) ==> j <= k < line.len(),
    decreases line.len() - j,
{
    if 0 <= j < line.len() {
        lemma_glyph_at_from(line, pos, j + 1);
    }
}

proof fn lemma_chars_in_lines_grow(glyphs: Seq<Vec<Rectangle>>, i: int, n: int)
    requires
        0 <= i <= n <= glyphs.len(),
    ensures
        0 <= chars_in_lines(glyphs, i) <= chars_in_lines(glyphs, n),
    decreases n,
{
    if i < n {
        lemma_chars_in_lines_grow(glyphs, i, n - 1);
    } else if i > 0 {
        lemma_chars_in_lines_grow(glyphs, i - 1, i - 1);
    }
}

proof fn lemma_pointer_stays<S: Scalar>(glyphs: Seq<Vec<Rectangle>>, pos: Vec2D<S>, i: int)
    requires
        0 <= i <= glyphs.len(),
    ensures
        ({
            let count = chars_in_lines(glyphs, i);
            let all = chars_in_lines(glyphs, glyphs.len() as int);
            &&& click_offset_from(glyphs, pos, i, count) matches Some(n) ==> 0 <= n <= all
            &&& drag_offset_from(glyphs, pos, i, count) matches Some(n) ==> 0 <= n <= all
        }),
    decreases glyphs.len() - i,
{
    lemma_chars_in_lines_grow(glyphs, i, glyphs.len() as int);
    if i < glyphs.len() {
        lemma_glyph_at_from(glyphs[i]@, pos, 0);
        lemma_chars_in_lines_grow(glyphs, i + 1, glyphs.len() as int);
        assert(chars_in_lines(glyphs, i + 1) == chars_in_lines(glyphs, i) + glyphs[i]@.len());
        lemma_pointer_stays(glyphs, pos, i + 1);
    }
}

/// A click or a drag never goes beyond the characters that are drawn.
pub proof fn law_pointer_stays_in_the_text<S: Scalar>(glyphs: Seq<Vec<Rectangle>>, pos: Vec2D<S>)
    ensures
        ({
            let all = chars_in_lines(glyphs, glyphs.len() as int);
            &&& click_offset_from(glyphs, pos, 0, 0) matches Some(n) ==> 0 <= n <= all
            &&& drag_offset_from(glyphs, pos, 0, 0) matches Some(n) ==> 0 <= n <= all
        }),
{
    lemma_pointer_stays(glyphs, pos, 0);
}

/// Whether a position is below the first `n` lines, so that no character of theirs is meant.
pub open spec fn below_lines<S: Scalar>(
    glyphs: Seq<Vec<Rectangle>>,
    pos: Vec2D<S>,
    n: int,
) -> bool {
    forall|i: int|
        0 <= i < n ==> (#[trigger] glyphs[i])@.len() > 0 && !not_below(glyphs[i]@[0], pos)
            && glyph_at_from(glyphs[i]@, pos, 0) is None
}

proof fn lemma_pointer_skips<S: Scalar>(
    glyphs: Seq<Vec<Rectangle>>,
    pos: Vec2D<S>,
    n: int,
    i: int,
)
    requires
        0 <= i <= n < glyphs.len(),
        below_lines(glyphs, pos, n),
    ensures
        click_offset_from(glyphs, pos, i, chars_in_lines(glyphs, i)) == click_offset_from(
            glyphs,
            pos,
            n,
            chars_in_lines(glyphs, n),
        ),
        drag_offset_from(glyphs, pos, i, chars_in_lines(glyphs, i)) == drag_offset_from(
            glyphs,
            pos,
            n,
            chars_in_lines(glyphs, n),
        ),
    decreases n - i,
{
    if i < n {
        assert(glyphs[i]@.len() > 0);
        assert(chars_in_lines(glyphs, i + 1) == chars_in_lines(glyphs, i) + glyphs[i]@.len());
        lemma_pointer_skips(glyphs, pos, n, i + 1);
    }
}

/// A click and a drag on a character go to its place in the text: before it or, in its right half,
/// behind it.
pub proof fn law_pointing_at_a_character<S: Scalar>(
    glyphs: Seq<Vec<Rectangle>>,
    pos: Vec2D<S>,
    n: int,
    j: int,
)
    requires
        0 <= n < glyphs.len(),
        below_lines(glyphs, pos, n),
        glyph_at_from(glyphs[n]@, pos, 0) == Some(j),
    ensures
        click_offset_from(glyphs, pos, 0, 0) == Some(
            chars_in_lines(glyphs, n) + place_at_glyph(glyphs[n]@, pos, j),
        ),
        drag_offset_from(glyphs, pos, 0, 0) == click_offset_from(glyphs, pos, 0, 0),
{
    lemma_pointer_skips(glyphs, pos, n, 0);
}

/// Beside the characters of a line, a drag selects to the end of that line.
pub proof fn law_dragging_beside_a_line<S: Scalar>(
    glyphs: Seq<Vec<Rectangle>>,
    pos: Vec2D<S>,
    n: int,
)
    requires
        0 <= n < glyphs.len(),
        below_lines(glyphs, pos, n),
        glyphs[n]@.len() > 0,
        glyph_at_from(glyphs[n]@, pos, 0) is None,
        not_below(glyphs[n]@[0], pos),
    ensures
        drag_offset_from(glyphs, pos, 0, 0) == Some(chars_in_lines(glyphs, n + 1)),
{
    lemma_pointer_skips(glyphs, pos, n, 0);
}

/// Whether every segment of a plan was measured.
pub open spec fn all_measured<S>(plan: Plan<S>, widths: PlanWidths<S>) -> bool {
    &&& widths.glyphs@.len() == plan.glyphs@.len()
    &&& forall|i: int|
        0 <= i < plan.glyphs@.len() ==> (#[trigger] widths.glyphs@[i])@.len()
            == plan.glyphs@[i]@.len()
}

/// Whether lines hold the text from its beginning on, line `i` the characters from `starts[i]` up
/// to, but without, `starts[i + 1]`.
pub open spec fn lines_hold(text: Seq<char>, ranges: Seq<ByteRange>, starts: Seq<int>) -> bool {
    &&& starts.len() == ranges.len() + 1
    &&& starts[0] == 0
    &&& forall|i: int, j: int|
        0 <= i < ranges.len() && j == i + 1 ==> line_holds(
            text,
            ranges[i],
            #[trigger] starts[i],
            #[trigger] starts[j],
        )
}

/// After a text was drawn, the characters that a click counts are those of the text: as many come
/// before a line as the text has before it.
pub proof fn law_drawn_characters_are_those_of_the_text<S: Scalar>(
    text: Text<S>,
    display: DisplayContent,
    ranges: Seq<ByteRange>,
    starts: Seq<int>,
    font: FontMeasures<S>,
    scale: S,
    selection: Option<(usize, usize)>,
    plan: Plan<S>,
    widths: PlanWidths<S>,
    line_width: S,
    frame: Frame<S>,
    layout: TextLayout,
    n: int,
)
    requires
        text.planned(display, ranges, font, scale, selection, plan),
        text.framed(plan, widths, line_width, frame),
        Text::laid_out(frame, layout),
        all_measured(plan, widths),
        lines_hold(display.text@, ranges, starts),
        0 <= n <= ranges.len(),
    ensures
        chars_in_lines(layout.glyphs@, n) == starts[n],
    decreases n,
{
    if n > 0 {
        law_drawn_characters_are_those_of_the_text(
            text,
            display,
            ranges,
            starts,
            font,
            scale,
            selection,
            plan,
            widths,
            line_width,
            frame,
            layout,
            n - 1,
        );
        let line = LineLayout {
            range: ranges[n - 1],
            baseline: plan.lines@[n - 1].baseline,
        };
        assert(plan.lines@[n - 1] == line);
        assert(line_holds(display.text@, ranges[n - 1], starts[n - 1], starts[n]));
        law_every_character_is_measured(display.text@, line, starts[n - 1], starts[n]);
        assert(plan.glyphs@[n - 1]@ == glyph_segments_of(display.text@, line));
        assert(widths.glyphs@[n - 1]@.len() == plan.glyphs@[n - 1]@.len());
        assert(frame.glyphs@[n - 1]@.len() == plan.glyphs@[n - 1]@.len());
        assert(layout.glyphs@[n - 1]@.len() == frame.glyphs@[n - 1]@.len());
    }
}

// ---------------------------------------------------------------------------------------------
// Drawing

proof fn lemma_line_is_among_ops<S: Scalar>(
    left: S,
    decoration: Option<Decoration<S>>,
    lines: Seq<LineLayout<S>>,
    n: nat,
    i: int,
) -> (k: int)
    requires
        0 <= i < n <= lines.len(),
    ensures
        0 <= k < lines_ops(left, decoration, lines, n).len(),
        lines_ops(left, decoration, lines, n)[k] == (DrawOp::FillText {
            pos: Vec2D { x: left, y: lines[i].baseline },
            range: lines[i].range,
            ink: Ink::Style,
        }),
    decreases n,
{
    let before = lines_ops(left, decoration, lines, (n - 1) as nat);
    if i == n - 1 {
        let last = line_ops(left, decoration, lines[i]);
        (before.len() + last.len() - 1) as int
    } else {
        lemma_line_is_among_ops(left, decoration, lines, (n - 1) as nat, i)
    }
}

/// Every line of a text is drawn at its baseline, whatever else is drawn.
pub proof fn law_every_line_is_drawn<S: Scalar>(text: Text<S>, frame: Frame<S>, i: int)
    requires
        0 <= i < frame.lines@.len(),
    ensures
        text.spec_draw(frame).contains(
            (DrawOp::FillText {
                pos: Vec2D { x: text.pos.x, y: frame.lines@[i].baseline },
                range: frame.lines@[i].range,
                ink: Ink::Style,
            }),
        ),
{
    let decoration = text.effect.spec_decoration(text.style.color, frame.line_width);
    let lines = lines_ops(text.pos.x, decoration, frame.lines@, frame.lines@.len());
    let k = lemma_line_is_among_ops(text.pos.x, decoration, frame.lines@, frame.lines@.len(), i);
    let selection = match frame.selection {
        Some(spans) => spans@.map_values(|s: Span<S>| selection_op(s, frame.cursor)),
        None => seq![],
    };
    let bounds = if text.draw_rect {
        seq![bounds_op(text.pos, text_bounds(frame.glyphs@, frame.cursor))]
    } else {
        seq![]
    };
    let at = selection.len() + bounds.len() + k;
    assert(text.spec_draw(frame)[at] == lines[k]);
}

/// A text that is finished shows its lines with their effect, and nothing else, where nothing is
/// selected.
pub proof fn law_finished_text_is_plain<S: Scalar>(text: Text<S>, frame: Frame<S>)
    requires
        frame.selection is None,
    ensures
        finished_text(text).spec_draw(frame) == lines_ops(
            text.pos.x,
            text.effect.spec_decoration(text.style.color, frame.line_width),
            frame.lines@,
            frame.lines@.len(),
        ),
{
    assert(finished_text(text).spec_draw(frame) =~= lines_ops(
        text.pos.x,
        text.effect.spec_decoration(text.style.color, frame.line_width),
        frame.lines@,
        frame.lines@.len(),
    ));
}

/// Whether some commands are among others, one after the other.
pub open spec fn among<S>(part: Seq<DrawOp<S>>, ops: Seq<DrawOp<S>>, at: int) -> bool {
    0 <= at && at + part.len() <= ops.len() && ops.subrange(at, at + part.len()) == part
}

proof fn lemma_among_first<S>(part: Seq<DrawOp<S>>, a: Seq<DrawOp<S>>, b: Seq<DrawOp<S>>, at: int)
    requires
        among(part, a, at),
    ensures
        among(part, a + b, at),
{
    assert((a + b).subrange(at, at + part.len()) =~= a.subrange(at, at + part.len()));
}

proof fn lemma_among_second<S>(
    part: Seq<DrawOp<S>>,
    a: Seq<DrawOp<S>>,
    b: Seq<DrawOp<S>>,
    at: int,
)
    requires
        among(part, b, at),
    ensures
        among(part, a + b, at + a.len()),
{
    assert((a + b).subrange(at + a.len(), at + a.len() + part.len()) =~= b.subrange(
        at,
        at + part.len(),
    ));
}

proof fn lemma_place_background<S: Scalar>(
    measured: MeasuredSpan<S>,
    cursor: CursorMetrics<S>,
    n: nat,
    j: int,
) -> (at: int)
    requires
        measured.span.background is Some,
        0 <= j < n <= measured.places@.len(),
    ensures
        among(
            background_ops(measured.places@[j], measured.span.background->0, cursor),
            span_background_ops(measured, cursor, n),
            at,
        ),
    decreases n,
{
    let part = background_ops(measured.places@[j], measured.span.background->0, cursor);
    let before = span_background_ops(measured, cursor, (n - 1) as nat);
    let last = background_ops(measured.places@[n - 1], measured.span.background->0, cursor);
    if j == n - 1 {
        assert(last.subrange(0, last.len() as int) =~= last);
        lemma_among_second(part, before, last, 0);
        before.len() as int
    } else {
        let at = lemma_place_background(measured, cursor, (n - 1) as nat, j);
        lemma_among_first(part, before, last, at);
        at
    }
}

proof fn lemma_span_background<S: Scalar>(
    measured: Seq<MeasuredSpan<S>>,
    cursor: CursorMetrics<S>,
    n: nat,
    i: int,
    j: int,
) -> (at: int)
    requires
        0 <= i < n <= measured.len(),
        measured[i].span.background is Some,
        0 <= j < measured[i].places@.len(),
    ensures
        among(
            background_ops(measured[i].places@[j], measured[i].span.background->0, cursor),
            preedit_background_ops(measured, cursor, n),
            at,
        ),
    decreases n,
{
    let part = background_ops(measured[i].places@[j], measured[i].span.background->0, cursor);
    let before = preedit_background_ops(measured, cursor, (n - 1) as nat);
    let last = span_background_ops(measured[n - 1], cursor, measured[n - 1].places@.len());
    if i == n - 1 {
        let at = lemma_place_background(measured[i], cursor, measured[i].places@.len(), j);
        lemma_among_second(part, before, last, at);
        at + before.len()
    } else {
        let at = lemma_span_background(measured, cursor, (n - 1) as nat, i, j);
        lemma_among_first(part, before, last, at);
        at
    }
}

proof fn lemma_place_overlay<S: Scalar>(
    left: S,
    style: Style,
    measured: MeasuredSpan<S>,
    cursor: CursorMetrics<S>,
    n: nat,
    j: int,
) -> (at: int)
    requires
        0 <= j < n <= measured.places@.len(),
    ensures
        among(
            overlay_ops(left, style, measured.span, measured.places@[j], cursor),
            span_overlay_ops(left, style, measured, cursor, n),
            at,
        ),
    decreases n,
{
    let part = overlay_ops(left, style, measured.span, measured.places@[j], cursor);
    let before = span_overlay_ops(left, style, measured, cursor, (n - 1) as nat);
    let last = overlay_ops(left, style, measured.span, measured.places@[n - 1], cursor);
    if j == n - 1 {
        assert(last.subrange(0, last.len() as int) =~= last);
        lemma_among_second(part, before, last, 0);
        before.len() as int
    } else {
        let at = lemma_place_overlay(left, style, measured, cursor, (n - 1) as nat, j);
        lemma_among_first(part, before, last, at);
        at
    }
}

proof fn lemma_span_overlay<S: Scalar>(
    left: S,
    style: Style,
    measured: Seq<MeasuredSpan<S>>,
    cursor: CursorMetrics<S>,
    n: nat,
    i: int,
    j: int,
) -> (at: int)
    requires
        0 <= i < n <= measured.len(),
        0 <= j < measured[i].places@.len(),
    ensures
        among(
            overlay_ops(left, style, measured[i].span, measured[i].places@[j], cursor),
            preedit_overlay_ops(left, style, measured, cursor, n),
            at,
        ),
    decreases n,
{
    let part = overlay_ops(left, style, measured[i].span, measured[i].places@[j], cursor);
    let before = preedit_overlay_ops(left, style, measured, cursor, (n - 1) as nat);
    let last = span_overlay_ops(
        left,
        style,
        measured[n - 1],
        cursor,
        measured[n - 1].places@.len(),
    );
    if i == n - 1 {
        let at = lemma_place_overlay(
            left,
            style,
            measured[i],
            cursor,
            measured[i].places@.len(),
            j,
        );
        lemma_among_second(part, before, last, at);
        at + before.len()
    } else {
        let at = lemma_span_overlay(left, style, measured, cursor, (n - 1) as nat, i, j);
        lemma_among_first(part, before, last, at);
        at
    }
}

/// Every part of a text that is being composed is drawn in each of its places: its background, its
/// colour and its underline, as far as it has them. All backgrounds come first. In a place that is
/// too narrow to be seen nothing is drawn.
pub proof fn law_composed_text_is_marked<S: Scalar>(
    left: S,
    style: Style,
    measured: Seq<MeasuredSpan<S>>,
    cursor: CursorMetrics<S>,
    i: int,
    j: int,
)
    requires
        0 <= i < measured.len(),
        0 <= j < measured[i].places@.len(),
    ensures
        ({
            let span = measured[i].span;
            let place = measured[i].places@[j];
            let ops = preedit_ops(left, style, measured, cursor);
            let backgrounds = preedit_background_ops(measured, cursor, measured.len()).len();
            let line_top = place.line.baseline.spec_plus(cursor.top_offset);
            let color = underline_color(span, style);
            let too_narrow = span_width(place).spec_at_most(epsilon_spec());
            &&& span.background matches Some(color) ==> exists|at: int|
                #[trigger] among(background_ops(place, color, cursor), ops, at) && at
                    + background_ops(place, color, cursor).len() <= backgrounds
            &&& exists|at: int|
                at >= backgrounds && #[trigger] among(
                    overlay_ops(left, style, span, place, cursor),
                    ops,
                    at,
                )
            &&& overlay_ops(left, style, span, place, cursor) == (match span.foreground {
                Some(color) => foreground_ops(left, place, color, cursor),
                None => seq![],
            }) + underline_ops(place, line_top, cursor.line_height, span.underline, color)
            &&& too_narrow ==> background_ops(place, color, cursor).len() == 0 && foreground_ops(
                left,
                place,
                color,
                cursor,
            ).len() == 0
            &&& place.end_x.spec_minus(place.start_x).spec_at_most(epsilon_spec())
                ==> underline_ops(
                place,
                line_top,
                cursor.line_height,
                span.underline,
                color,
            ).len() == 0
        }),
{
    let span = measured[i].span;
    let place = measured[i].places@[j];
    let n = measured.len();
    let backgrounds = preedit_background_ops(measured, cursor, n);
    let overlays = preedit_overlay_ops(left, style, measured, cursor, n);
    if let Some(color) = span.background {
        let at = lemma_span_background(measured, cursor, n, i, j);
        lemma_among_first(background_ops(place, color, cursor), backgrounds, overlays, at);
        assert(among(
            background_ops(place, color, cursor),
            preedit_ops(left, style, measured, cursor),
            at,
        ));
    }
    let at = lemma_span_overlay(left, style, measured, cursor, n, i, j);
    lemma_among_second(
        overlay_ops(left, style, span, place, cursor),
        backgrounds,
        overlays,
        at,
    );
    assert(among(
        overlay_ops(left, style, span, place, cursor),
        preedit_ops(left, style, measured, cursor),
        at + backgrounds.len(),
    ));
    if span.underline is NoLine {
        let line_top = place.line.baseline.spec_plus(cursor.top_offset);
        assert(underline_ops(
            place,
            line_top,
            cursor.line_height,
            span.underline,
            underline_color(span, style),
        ) =~= seq![]);
    }
}

/// Whether none of the commands draws a caret.
pub open spec fn without_caret<S>(ops: Seq<DrawOp<S>>) -> bool {
    forall|i: int| 0 <= i < ops.len() ==> !(#[trigger] ops[i] is FillLine)
}

proof fn lemma_lines_without_caret<S: Scalar>(
    left: S,
    decoration: Option<Decoration<S>>,
    lines: Seq<LineLayout<S>>,
    n: nat,
)
    ensures
        without_caret(lines_ops(left, decoration, lines, n)),
    decreases n,
{
    if n > 0 {
        lemma_lines_without_caret(left, decoration, lines, (n - 1) as nat);
    }
}

proof fn lemma_backgrounds_without_caret<S: Scalar>(
    measured: Seq<MeasuredSpan<S>>,
    cursor: CursorMetrics<S>,
    n: nat,
)
    ensures
        without_caret(preedit_background_ops(measured, cursor, n)),
    decreases n,
{
    if n > 0 {
        lemma_backgrounds_without_caret(measured, cursor, (n - 1) as nat);
        lemma_background_without_caret(measured[n - 1], cursor, measured[n - 1].places@.len());
    }
}

proof fn lemma_background_without_caret<S: Scalar>(
    measured: MeasuredSpan<S>,
    cursor: CursorMetrics<S>,
    n: nat,
)
    ensures
        without_caret(span_background_ops(measured, cursor, n)),
    decreases n,
{
    if n > 0 && measured.span.background is Some {
        lemma_background_without_caret(measured, cursor, (n - 1) as nat);
        assert(without_caret(
            background_ops(measured.places@[n - 1], measured.span.background->0, cursor),
        ));
    }
}

proof fn lemma_overlays_without_caret<S: Scalar>(
    left: S,
    style: Style,
    measured: Seq<MeasuredSpan<S>>,
    cursor: CursorMetrics<S>,
    n: nat,
)
    ensures
        without_caret(preedit_overlay_ops(left, style, measured, cursor, n)),
    decreases n,
{
    if n > 0 {
        lemma_overlays_without_caret(left, style, measured, cursor, (n - 1) as nat);
        lemma_overlay_without_caret(
            left,
            style,
            measured[n - 1],
            cursor,
            measured[n - 1].places@.len(),
        );
    }
}

proof fn lemma_overlay_without_caret<S: Scalar>(
    left: S,
    style: Style,
    measured: MeasuredSpan<S>,
    cursor: CursorMetrics<S>,
    n: nat,
)
    ensures
        without_caret(span_overlay_ops(left, style, measured, cursor, n)),
    decreases n,
{
    if n > 0 {
        lemma_overlay_without_caret(left, style, measured, cursor, (n - 1) as nat);
        assert(without_caret(
            overlay_ops(left, style, measured.span, measured.places@[n - 1], cursor),
        ));
    }
}

/// A caret is drawn exactly where the text is being edited and nothing is selected: one, and last
/// of all.
pub proof fn law_caret_shows_without_a_selection<S: Scalar>(text: Text<S>, frame: Frame<S>)
    ensures
        ({
            let ops = text.spec_draw(frame);
            if text.editing && frame.selection is None {
                ops.len() > 0 && ops.last() is FillLine && without_caret(ops.drop_last())
            } else {
                without_caret(ops)
            }
        }),
{
    let decoration = text.effect.spec_decoration(text.style.color, frame.line_width);
    lemma_lines_without_caret(text.pos.x, decoration, frame.lines@, frame.lines@.len());
    if let Some(measured) = text.drawn_preedit(frame) {
        lemma_backgrounds_without_caret(measured, frame.cursor, measured.len());
        lemma_overlays_without_caret(
            text.pos.x,
            text.style,
            measured,
            frame.cursor,
            measured.len(),
        );
        assert(without_caret(preedit_ops(text.pos.x, text.style, measured, frame.cursor)));
    }
}

} // verus!
