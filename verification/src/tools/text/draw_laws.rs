//! What a drawn text looks like.

use vstd::prelude::*;

use super::content::{Text, TextLayout};
use super::draw::{
    background_ops, bounds_op, caret_area, caret_location, caret_ops, foreground_ops, glyph_rect,
    has_underline, lines_ops, mark_top_spec, overlay_ops, preedit_background_ops, preedit_ops,
    preedit_overlay_ops, selection_op, span_background_ops, span_overlay_ops, text_bounds,
    underline_color, underline_fits, underline_ops, Frame, MeasuredSpan, TextBounds,
};
use super::effect::{Decoration, DecorationKind, TextEffect};
use super::layout::{
    baseline_of, caret_at, caret_prefix_of, epsilon_spec, glyph_height, metrics_of, span_of,
    CaretAnchor, CursorMetrics, FontMeasures, LineLayout, Segment, Span,
};
use super::shown_laws::{exact_span, law_rectangle_reaches_every_character};
use super::steps::finished_text;
use crate::canvas::{ByteRange, DrawOp, Ink};
use crate::ime::{PreeditSpan, UnderlineKind};
use crate::math::{Rectangle, Vec2D};
use crate::math_laws::law_whole_pixel_quotients;
use crate::scalar::{Scalar, EXACT};
use crate::style::{Color, Style, Tint};

verus! {

/// The number `n` tenths.
pub open spec fn tenths<S: Scalar>(n: i32) -> S {
    S::spec_from_int(n).spec_over(S::spec_from_int(10))
}

// ---------------------------------------------------------------------------------------------
// Effects

/// The order in which the effects follow each other, and what each of them is: no decoration, an
/// outline twice as wide as the line in the inverse or in the contrasting colour, and a shadow in
/// the contrasting colour, displaced by one and a half times the line.
pub proof fn law_effects_and_their_decorations<S: Scalar>(color: Color, width: S)
    ensures
        TextEffect::Plain.spec_next() == TextEffect::Inverted,
        TextEffect::Inverted.spec_next() == TextEffect::Contrast,
        TextEffect::Contrast.spec_next() == TextEffect::Shadow,
        TextEffect::Shadow.spec_next() == TextEffect::Plain,
        ({
            let twice = width.spec_times(S::spec_from_int(2));
            let far = width.spec_times(S::spec_from_int(3).spec_over(S::spec_from_int(2)));
            &&& TextEffect::Plain.spec_decoration(color, width) is None
            &&& TextEffect::Inverted.spec_decoration(color, width) == Some(
                (Decoration {
                    color: Tint::Inverted(color),
                    kind: DecorationKind::Outline { width: twice },
                }),
            )
            &&& TextEffect::Contrast.spec_decoration(color, width) == Some(
                (Decoration {
                    color: Tint::Contrast(color),
                    kind: DecorationKind::Outline { width: twice },
                }),
            )
            &&& TextEffect::Shadow.spec_decoration(color, width) == Some(
                (Decoration {
                    color: Tint::ContrastWithAlpha(color, 160),
                    kind: DecorationKind::Shadow { offset: Vec2D { x: far, y: far } },
                }),
            )
        }),
{
}

// ---------------------------------------------------------------------------------------------
// Lines

/// The height of the glyphs is that of the cursor where it was measured above zero; else the extent
/// of the font from its descent to its ascent, where there is one; else the height of the font.
/// What the font tells is at the scale of the canvas.
pub proof fn law_height_of_glyphs(font: FontMeasures<i64>, scale: i64)
    requires
        -EXACT <= font.ascender <= EXACT,
        -EXACT <= font.descender <= EXACT,
        scale > 0,
    ensures
        ({
            let extent = vstd::math::abs(font.ascender + font.descender) as int;
            let height = glyph_height(font, scale) as int;
            let measured = font.cursor_height matches Some(h) && h > 0;
            &&& measured ==> height == font.cursor_height->0
            &&& !measured && extent >= scale ==> 0 <= extent - height * scale < scale
            &&& !measured && extent == 0 ==> height == font.height.spec_over(scale)
        }),
{
    let extent = vstd::math::abs(font.ascender + font.descender) as int;
    law_whole_pixel_quotients(1, 0x80_0000);
    assert(<i64 as Scalar>::spec_from_int(0x80_0000) == 0x80_0000);
    assert(epsilon_spec::<i64>() == 0);
    if extent >= scale {
        law_whole_pixel_quotients(extent as i64, scale);
        let q = (extent as i64).spec_over(scale) as int;
        assert(q > 0) by (nonlinear_arith)
            requires
                extent - q * scale < scale,
                extent >= scale,
                scale > 0,
        ;
    }
}

/// In every number type, where the height of the glyphs comes from.
pub proof fn law_source_of_the_height<S: Scalar>(font: FontMeasures<S>, scale: S)
    ensures
        ({
            let zero = S::spec_from_int(0);
            let cursor = match font.cursor_height {
                Some(height) => height,
                None => zero,
            };
            let extent = font.ascender.spec_plus(font.descender).spec_magnitude();
            let tiny = S::spec_from_int(1).spec_over(S::spec_from_int(0x80_0000));
            let scaled = extent.spec_over(scale);
            let height = glyph_height(font, scale);
            let by_extent = cursor.spec_at_most(zero) && tiny.spec_below(extent);
            &&& !cursor.spec_at_most(zero) ==> height == cursor
            &&& by_extent && !scaled.spec_at_most(zero) ==> height == scaled
            &&& cursor.spec_at_most(zero) && (!by_extent || scaled.spec_at_most(zero)) ==> height
                == font.height.spec_over(scale)
        }),
{
}

/// A line begins a glyph's height above its baseline, and is twelve tenths of that high.
pub proof fn law_lines_are_a_fifth_higher<S: Scalar>(font: FontMeasures<S>, scale: S)
    ensures
        metrics_of(font, scale).top_offset == glyph_height(font, scale).spec_negated(),
        metrics_of(font, scale).line_height == glyph_height(font, scale).spec_times(tenths(12)),
        epsilon_spec::<S>() == S::spec_from_int(1).spec_over(S::spec_from_int(0x80_0000)),
{
}

/// Baselines are the height of a line apart, and the first is where the text is.
pub proof fn law_baselines(top: i64, line_height: i64, n: nat)
    requires
        -EXACT <= top <= EXACT,
        0 <= line_height,
        n * line_height <= EXACT,
    ensures
        baseline_of(top, line_height, n) == top + n * line_height,
    decreases n,
{
    if n > 0 {
        assert(n * line_height == (n - 1) * line_height + line_height) by (nonlinear_arith);
        assert((n - 1) * line_height >= 0) by (nonlinear_arith)
            requires
                n > 0,
                line_height >= 0,
        ;
        law_baselines(top, line_height, (n - 1) as nat);
    } else {
        assert(0 * line_height == 0) by (nonlinear_arith);
    }
}

/// In every number type, the first baseline is at the top, and the next one a line further.
pub proof fn law_next_baseline<S: Scalar>(top: S, line_height: S, n: nat)
    ensures
        baseline_of(top, line_height, 0) == top,
        baseline_of(top, line_height, n + 1) == baseline_of(top, line_height, n).spec_plus(
            line_height,
        ),
{
}

/// What marks text is a tenth of the height of a line lower than the line.
pub proof fn law_marks_are_a_tenth_lower<S: Scalar>(line: LineLayout<S>, cursor: CursorMetrics<S>)
    ensures
        mark_top_spec(line, cursor) == line.baseline.spec_plus(cursor.top_offset).spec_plus(
            cursor.line_height.spec_times(tenths(1)),
        ),
{
}

/// A stretch begins behind what is before it in the line, and is as wide as it was measured, but
/// never less than nothing.
pub proof fn law_place_of_a_stretch(
    left: i64,
    segment: Segment<i64>,
    prefix_width: i64,
    selected_width: i64,
)
    requires
        -EXACT <= left <= EXACT,
        -EXACT <= prefix_width <= EXACT,
        -EXACT <= selected_width <= EXACT,
    ensures
        ({
            let span = span_of(left, segment, prefix_width, selected_width);
            &&& span.line == segment.line
            &&& span.start_x - left == prefix_width
            &&& selected_width >= 0 ==> span.end_x - span.start_x == selected_width
            &&& selected_width < 0 ==> span.end_x == span.start_x
        }),
{
}

/// In every number type, where a stretch is.
pub proof fn law_ends_of_a_stretch<S: Scalar>(
    left: S,
    segment: Segment<S>,
    prefix_width: S,
    selected_width: S,
)
    ensures
        ({
            let span = span_of(left, segment, prefix_width, selected_width);
            let width = selected_width.spec_larger(S::spec_from_int(0));
            &&& span.line == segment.line
            &&& span.start_x == left.spec_plus(prefix_width)
            &&& span.end_x == left.spec_plus(prefix_width).spec_plus(width)
        }),
{
}

// ---------------------------------------------------------------------------------------------
// The rectangle round the text

/// In every number type, a character begins the rectangle a pixel to the left and above itself if
/// it is the first, and widens it to its right end and to a pixel below its lower end.
pub proof fn law_one_more_character<S: Scalar>(
    bounds: TextBounds<S>,
    span: Span<S>,
    cursor: CursorMetrics<S>,
)
    ensures
        ({
            let after = bounds.spec_grow(span, cursor);
            let one = S::spec_from_int(1);
            let top = mark_top_spec(span.line, cursor);
            &&& !after.empty
            &&& bounds.empty ==> after.tl.x == span.start_x.spec_minus(one) && after.tl.y
                == top.spec_minus(one)
            &&& !bounds.empty ==> after.tl == bounds.tl
            &&& after.wh.x == span.end_x.spec_minus(after.tl.x).spec_larger(bounds.wh.x)
            &&& after.wh.y == top.spec_plus(cursor.line_height).spec_minus(
                after.tl.y,
            ).spec_plus(one)
        }),
{
}

/// Whether a character is within the bound in which sums of coordinates are exact.
pub open spec fn exact_mark(span: Span<i64>, cursor: CursorMetrics<i64>) -> bool {
    &&& -EXACT <= span.start_x <= EXACT
    &&& -EXACT <= span.end_x <= EXACT
    &&& -EXACT <= mark_top_spec(span.line, cursor) <= EXACT
}

/// Whether every character of the lines is within that bound.
pub open spec fn exact_marks(lines: Seq<Vec<Span<i64>>>, cursor: CursorMetrics<i64>) -> bool {
    &&& 0 <= cursor.line_height <= EXACT
    &&& forall|i: int, j: int|
        0 <= i < lines.len() && 0 <= j < lines[i]@.len() ==> exact_mark(
            #[trigger] lines[i]@[j],
            cursor,
        )
}

/// Whether the lines from `a` up to `b` are those with the first and the last character.
pub open spec fn first_and_last<T>(lines: Seq<Vec<T>>, a: int, b: int) -> bool {
    &&& 0 <= a <= b < lines.len()
    &&& lines[a]@.len() > 0
    &&& lines[b]@.len() > 0
    &&& forall|i: int| 0 <= i < lines.len() && (i < a || i > b) ==> (#[trigger] lines[i])@.len()
        == 0
}

proof fn lemma_line_of_characters(
    bounds: TextBounds<i64>,
    spans: Seq<Span<i64>>,
    cursor: CursorMetrics<i64>,
    n: nat,
)
    requires
        n <= spans.len(),
        bounds.empty || (-EXACT - 1 <= bounds.tl.x <= EXACT && -EXACT - 1 <= bounds.tl.y <= EXACT),
        0 <= bounds.wh.x <= 2 * EXACT + 1,
        0 <= cursor.line_height <= EXACT,
        forall|j: int| 0 <= j < spans.len() ==> exact_mark(#[trigger] spans[j], cursor),
    ensures
        ({
            let after = bounds.grow_line(spans, cursor, n);
            &&& n == 0 ==> after == bounds
            &&& 0 <= after.wh.x <= 2 * EXACT + 1
            &&& n > 0 ==> {
                &&& !after.empty
                &&& bounds.empty ==> after.tl.x == spans[0].start_x - 1 && after.tl.y
                    == mark_top_spec(spans[0].line, cursor) - 1
                &&& !bounds.empty ==> after.tl == bounds.tl
                &&& after.tl.y + after.wh.y == mark_top_spec(spans[n - 1].line, cursor)
                    + cursor.line_height + 1
            }
            &&& after.wh.x == bounds.wh.x || exists|j: int|
                0 <= j < n && (#[trigger] spans[j]).end_x - after.tl.x == after.wh.x
        }),
    decreases n,
{
    if n > 0 {
        lemma_line_of_characters(bounds, spans, cursor, (n - 1) as nat);
        assert(exact_mark(spans[n - 1], cursor));
        assert(exact_mark(spans[0], cursor));
        let before = bounds.grow_line(spans, cursor, (n - 1) as nat);
        let after = bounds.grow_line(spans, cursor, n);
        if after.wh.x != before.wh.x {
            assert(spans[n - 1].end_x - after.tl.x == after.wh.x);
        } else if before.wh.x != bounds.wh.x {
            let j = choose|j: int|
                0 <= j < n - 1 && (#[trigger] spans[j]).end_x - before.tl.x == before.wh.x;
            assert(spans[j].end_x - after.tl.x == after.wh.x);
        }
    }
}

proof fn lemma_lines_of_characters(
    lines: Seq<Vec<Span<i64>>>,
    cursor: CursorMetrics<i64>,
    a: int,
    b: int,
    n: nat,
)
    requires
        exact_marks(lines, cursor),
        first_and_last(lines, a, b),
        n <= lines.len(),
    ensures
        ({
            let after = TextBounds::<i64>::spec_new().grow_lines(lines, cursor, n);
            &&& n <= a ==> after == TextBounds::<i64>::spec_new()
            &&& 0 <= after.wh.x <= 2 * EXACT + 1
            &&& n > a ==> {
                &&& !after.empty
                &&& after.tl.x == lines[a]@[0].start_x - 1
                &&& after.tl.y == mark_top_spec(lines[a]@[0].line, cursor) - 1
            }
            &&& n > b ==> after.tl.y + after.wh.y == mark_top_spec(lines[b]@.last().line, cursor)
                + cursor.line_height + 1
            &&& after.wh.x == 0 || exists|i: int, j: int|
                0 <= i < n && 0 <= j < lines[i]@.len() && (#[trigger] lines[i]@[j]).end_x
                    - after.tl.x == after.wh.x
        }),
    decreases n,
{
    if n > 0 {
        lemma_lines_of_characters(lines, cursor, a, b, (n - 1) as nat);
        let before = TextBounds::<i64>::spec_new().grow_lines(lines, cursor, (n - 1) as nat);
        let after = TextBounds::<i64>::spec_new().grow_lines(lines, cursor, n);
        let line = lines[n - 1]@;
        assert forall|j: int| 0 <= j < line.len() implies exact_mark(
            #[trigger] line[j],
            cursor,
        ) by {
            assert(exact_mark(lines[n - 1]@[j], cursor));
        }
        if n - 1 > a {
            assert(exact_mark(lines[a]@[0], cursor));
        }
        lemma_line_of_characters(before, line, cursor, line.len());
        if after.wh.x != before.wh.x {
            let j = choose|j: int|
                0 <= j < line.len() && (#[trigger] line[j]).end_x - after.tl.x == after.wh.x;
            assert(lines[n - 1]@[j].end_x - after.tl.x == after.wh.x);
        } else if before.wh.x != 0 {
            let (i, j) = choose|i: int, j: int|
                0 <= i < n - 1 && 0 <= j < lines[i]@.len() && (#[trigger] lines[i]@[j]).end_x
                    - before.tl.x == before.wh.x;
            assert(lines[i]@.len() > 0);
            assert(after.tl == before.tl);
            assert(lines[i]@[j].end_x - after.tl.x == after.wh.x);
        }
    }
}

/// The rectangle round a text begins a pixel to the left of its first character and a pixel above
/// it, and ends a pixel below its last character, whatever lines are between them.
pub proof fn law_rectangle_from_first_to_last(
    lines: Seq<Vec<Span<i64>>>,
    cursor: CursorMetrics<i64>,
    a: int,
    b: int,
)
    requires
        exact_marks(lines, cursor),
        first_and_last(lines, a, b),
    ensures
        ({
            let bounds = text_bounds(lines, cursor);
            let (first, last) = (lines[a]@[0], lines[b]@.last());
            &&& bounds.tl.x == first.start_x - 1
            &&& bounds.tl.y == mark_top_spec(first.line, cursor) - 1
            &&& bounds.tl.y + bounds.wh.y == mark_top_spec(last.line, cursor) + cursor.line_height
                + 1
        }),
{
    lemma_lines_of_characters(lines, cursor, a, b, lines.len());
}

/// The rectangle round a text ends a pixel to the right of the character that reaches farthest, or
/// a pixel from where it begins if none reaches so far.
pub proof fn law_rectangle_ends_at_the_farthest_character(
    lines: Seq<Vec<Span<i64>>>,
    cursor: CursorMetrics<i64>,
    a: int,
    b: int,
)
    requires
        exact_marks(lines, cursor),
        first_and_last(lines, a, b),
    ensures
        ({
            let bounds = text_bounds(lines, cursor);
            let right = bounds.tl.x + bounds.wh.x;
            &&& bounds.wh.x >= 1
            &&& forall|i: int, j: int|
                0 <= i < lines.len() && 0 <= j < lines[i]@.len() ==> (#[trigger] lines[i]@[j]).end_x
                    + 1 <= right
            &&& bounds.wh.x == 1 || exists|i: int, j: int|
                0 <= i < lines.len() && 0 <= j < lines[i]@.len() && (
                #[trigger] lines[i]@[j]).end_x + 1 == right
        }),
{
    lemma_lines_of_characters(lines, cursor, a, b, lines.len());
    let grown = TextBounds::<i64>::spec_new().grow_lines(lines, cursor, lines.len());
    let bounds = text_bounds(lines, cursor);
    assert(exact_mark(lines[a]@[0], cursor));
    assert forall|i: int, j: int|
        0 <= i < lines.len() && 0 <= j < lines[i]@.len() implies exact_span(
        #[trigger] lines[i]@[j],
    ) by {
        assert(exact_mark(lines[i]@[j], cursor));
    }
    assert forall|i: int, j: int|
        0 <= i < lines.len() && 0 <= j < lines[i]@.len() implies (#[trigger] lines[i]@[j]).end_x + 1
        <= bounds.tl.x + bounds.wh.x by {
        law_rectangle_reaches_every_character(lines, cursor, i, j);
    }
    if grown.wh.x != 0 {
        let (i, j) = choose|i: int, j: int|
            0 <= i < lines.len() && 0 <= j < lines[i]@.len() && (#[trigger] lines[i]@[j]).end_x
                - grown.tl.x == grown.wh.x;
        assert(lines[i]@[j].end_x + 1 == bounds.tl.x + bounds.wh.x);
    }
}

/// The rectangle round a text without characters is a pixel wide at the origin.
pub proof fn law_rectangle_round_nothing(lines: Seq<Vec<Span<i64>>>, cursor: CursorMetrics<i64>)
    requires
        forall|i: int| 0 <= i < lines.len() ==> (#[trigger] lines[i])@.len() == 0,
    ensures
        text_bounds(lines, cursor).tl == (Vec2D { x: 0i64, y: 0i64 }),
        text_bounds(lines, cursor).wh == (Vec2D { x: 1i64, y: 0i64 }),
{
    lemma_nothing_grows(lines, cursor, lines.len());
}

proof fn lemma_nothing_grows(lines: Seq<Vec<Span<i64>>>, cursor: CursorMetrics<i64>, n: nat)
    requires
        n <= lines.len(),
        forall|i: int| 0 <= i < lines.len() ==> (#[trigger] lines[i])@.len() == 0,
    ensures
        TextBounds::<i64>::spec_new().grow_lines(lines, cursor, n) == TextBounds::<i64>::spec_new(),
    decreases n,
{
    if n > 0 {
        lemma_nothing_grows(lines, cursor, (n - 1) as nat);
        assert(lines[n - 1]@.len() == 0);
    }
}

/// The rectangle round lines of text that are below each other is as high as the lines, and a pixel
/// more on each side.
pub proof fn law_rectangle_is_as_high_as_the_lines(
    lines: Seq<Vec<Span<i64>>>,
    cursor: CursorMetrics<i64>,
    top: i64,
)
    requires
        exact_marks(lines, cursor),
        lines.len() > 0,
        lines[0]@.len() > 0,
        lines.last()@.len() > 0,
        -0x100_0000_0000 <= top <= 0x100_0000_0000,
        -0x100_0000_0000 <= cursor.top_offset <= 0x100_0000_0000,
        lines.len() * cursor.line_height <= 0x100_0000_0000,
        forall|i: int, j: int|
            0 <= i < lines.len() && 0 <= j < lines[i]@.len() ==> (
            #[trigger] lines[i]@[j]).line.baseline == baseline_of(
                top,
                cursor.line_height,
                i as nat,
            ),
    ensures
        text_bounds(lines, cursor).wh.y == lines.len() * cursor.line_height + 2,
{
    let n = lines.len();
    let h = cursor.line_height as int;
    lemma_lines_of_characters(lines, cursor, 0, n - 1, n);
    assert(lines[0]@[0].line.baseline == baseline_of(top, cursor.line_height, 0));
    let last = lines[n - 1]@.last();
    assert(last == lines[n - 1]@[lines[n - 1]@.len() - 1]);
    assert(n * h == (n - 1) * h + h) by (nonlinear_arith);
    assert((n - 1) * h >= 0) by (nonlinear_arith)
        requires
            n > 0,
            h >= 0,
    ;
    law_baselines(top, cursor.line_height, (n - 1) as nat);
    lemma_marks_in_whole_pixels(lines[0]@[0].line, cursor);
    lemma_marks_in_whole_pixels(last.line, cursor);
}

/// In whole pixels, a tenth of a line is nothing.
proof fn lemma_marks_in_whole_pixels(line: LineLayout<i64>, cursor: CursorMetrics<i64>)
    requires
        -EXACT <= line.baseline <= EXACT,
        -EXACT <= cursor.top_offset <= EXACT,
    ensures
        mark_top_spec(line, cursor) == line.baseline + cursor.top_offset,
{
    law_whole_pixel_quotients(1, 10);
    assert(cursor.line_height * 0 == 0) by (nonlinear_arith);
}

/// Every character that is drawn lies inside the rectangle round the text, by which the mouse finds
/// the text: its rectangle in whole pixels is inside that of the text, on all four sides.
pub proof fn law_characters_are_inside_the_rectangle(
    lines: Seq<Vec<Span<i64>>>,
    cursor: CursorMetrics<i64>,
    a: int,
    b: int,
    i: int,
    j: int,
)
    requires
        exact_marks(lines, cursor),
        first_and_last(lines, a, b),
        0 <= i < lines.len(),
        0 <= j < lines[i]@.len(),
        // The lines come from top to bottom, and none of them begins to the left of the first.
        mark_top_spec(lines[a]@[0].line, cursor) <= mark_top_spec(lines[i]@[j].line, cursor)
            <= mark_top_spec(lines[b]@.last().line, cursor),
        lines[a]@[0].start_x <= lines[i]@[j].start_x <= lines[i]@[j].end_x,
        // The rectangle is on a screen.
        ({
            let bounds = text_bounds(lines, cursor);
            &&& -0x3fff_ffff <= bounds.tl.x && bounds.wh.x <= 0x3fff_ffff && bounds.tl.x
                <= 0x3fff_ffff
            &&& -0x3fff_ffff <= bounds.tl.y && bounds.wh.y <= 0x3fff_ffff && bounds.tl.y
                <= 0x3fff_ffff
        }),
    ensures
        ({
            let rect = text_bounds(lines, cursor).spec_rect();
            let glyph = glyph_rect(lines[i]@[j], cursor);
            &&& rect.x < glyph.x
            &&& rect.y < glyph.y
            &&& glyph.x + glyph.width < rect.x + rect.width
            &&& glyph.y + glyph.height < rect.y + rect.height
        }),
{
    law_rectangle_from_first_to_last(lines, cursor, a, b);
    law_rectangle_ends_at_the_farthest_character(lines, cursor, a, b);
    let span = lines[i]@[j];
    assert(exact_mark(span, cursor));
    assert(span.end_x + 1 <= text_bounds(lines, cursor).tl.x + text_bounds(lines, cursor).wh.x);
}

/// The rectangles of characters and of the text are the nearest whole pixels toward zero.
pub proof fn law_rectangles_in_whole_pixels<S: Scalar>(
    span: Span<S>,
    cursor: CursorMetrics<S>,
    bounds: TextBounds<S>,
)
    ensures
        glyph_rect(span, cursor) == (Rectangle {
            x: span.start_x.spec_to_int(),
            y: mark_top_spec(span.line, cursor).spec_to_int(),
            width: span.end_x.spec_minus(span.start_x).spec_to_int(),
            height: cursor.line_height.spec_to_int(),
        }),
        bounds.spec_rect() == (Rectangle {
            x: bounds.tl.x.spec_to_int(),
            y: bounds.tl.y.spec_to_int(),
            width: bounds.wh.x.spec_to_int(),
            height: bounds.wh.y.spec_to_int(),
        }),
        bounds.spec_closed().wh.x == bounds.wh.x.spec_plus(S::spec_from_int(1)),
        bounds.spec_closed().wh.y == bounds.wh.y,
        bounds.spec_closed().tl == bounds.tl,
        TextBounds::<S>::spec_new().empty,
        TextBounds::<S>::spec_new().tl == TextBounds::<S>::spec_new().wh,
        TextBounds::<S>::spec_new().tl == (Vec2D {
            x: S::spec_from_int(0),
            y: S::spec_from_int(0),
        }),
{
}

// ---------------------------------------------------------------------------------------------
// The commands

/// The looks of a selected stretch and of the rectangle round the text.
pub proof fn law_looks_of_selection_and_rectangle<S: Scalar>(
    span: Span<S>,
    cursor: CursorMetrics<S>,
    pos: Vec2D<S>,
    bounds: TextBounds<S>,
)
    ensures
        selection_op(span, cursor) == (DrawOp::FillRect {
            pos: Vec2D { x: span.start_x, y: mark_top_spec(span.line, cursor) },
            size: Vec2D { x: span.end_x.spec_minus(span.start_x), y: cursor.line_height },
            ink: Ink::Rgba { r: tenths(3), g: tenths(5), b: S::spec_from_int(1), a: tenths(3) },
        }),
        bounds_op(pos, bounds) == (DrawOp::MoveAndStrokeRect {
            from: pos,
            pos: bounds.tl,
            size: bounds.wh,
            ink: Ink::Rgba { r: S::spec_from_int(1), g: tenths(5), b: tenths(3), a: tenths(3) },
            width: S::spec_from_int(2),
        }),
{
}

/// The command that draws the text of a line.
pub open spec fn text_op<S>(left: S, line: LineLayout<S>) -> DrawOp<S> {
    DrawOp::FillText {
        pos: Vec2D { x: left, y: line.baseline },
        range: line.range,
        ink: Ink::Style,
    }
}

/// Whether a command draws the decoration of a line.
pub open spec fn decorates<S: Scalar>(
    op: DrawOp<S>,
    left: S,
    decoration: Decoration<S>,
    line: LineLayout<S>,
) -> bool {
    match decoration.kind {
        DecorationKind::Shadow { offset } => op == (DrawOp::FillText {
            pos: Vec2D { x: left.spec_plus(offset.x), y: line.baseline.spec_plus(offset.y) },
            range: line.range,
            ink: Ink::StyleTinted(decoration.color),
        }),
        DecorationKind::Outline { width } => op == (DrawOp::StrokeText {
            pos: Vec2D { x: left, y: line.baseline },
            range: line.range,
            ink: Ink::StyleTinted(decoration.color),
            width,
        }),
    }
}

proof fn lemma_lines_in_order<S: Scalar>(
    left: S,
    decoration: Option<Decoration<S>>,
    lines: Seq<LineLayout<S>>,
    n: nat,
)
    requires
        n <= lines.len(),
    ensures
        ({
            let ops = lines_ops(left, decoration, lines, n);
            match decoration {
                None => {
                    &&& ops.len() == n
                    &&& forall|i: int| 0 <= i < n ==> #[trigger] ops[i] == text_op(left, lines[i])
                },
                Some(d) => {
                    &&& ops.len() == 2 * n
                    &&& forall|i: int|
                        0 <= i < n ==> decorates(ops[2 * i], left, d, #[trigger] lines[i]) && ops[2
                            * i + 1] == text_op(left, lines[i])
                },
            }
        }),
    decreases n,
{
    if n > 0 {
        lemma_lines_in_order(left, decoration, lines, (n - 1) as nat);
    }
}

/// The commands that draw the lines come in the order of the lines, each line's decoration before
/// its text, and there are no others.
pub proof fn law_lines_are_drawn_in_order<S: Scalar>(
    left: S,
    decoration: Option<Decoration<S>>,
    lines: Seq<LineLayout<S>>,
    i: int,
)
    requires
        0 <= i < lines.len(),
    ensures
        ({
            let ops = lines_ops(left, decoration, lines, lines.len());
            match decoration {
                None => ops.len() == lines.len() && ops[i] == text_op(left, lines[i]),
                Some(d) => ops.len() == 2 * lines.len() && decorates(ops[2 * i], left, d, lines[i])
                    && ops[2 * i + 1] == text_op(left, lines[i]),
            }
        }),
{
    lemma_lines_in_order(left, decoration, lines, lines.len());
}

/// How many commands come before the lines of a text.
pub open spec fn before_the_lines<S>(text: Text<S>, frame: Frame<S>) -> int {
    let selected = match frame.selection {
        Some(spans) => spans@.len() as int,
        None => 0,
    };
    selected + (if text.draw_rect {
        1int
    } else {
        0
    })
}

/// A text is drawn in this order: what is selected, stretch by stretch; the rectangle round it,
/// where it has one; its lines, with the effect; what is being composed, where the text is being
/// edited; and the caret, where it is being edited and nothing is selected. There is nothing else.
#[verifier::rlimit(40)]
pub proof fn law_order_of_drawing<S: Scalar>(text: Text<S>, frame: Frame<S>, i: int)
    ensures
        ({
            let ops = text.spec_draw(frame);
            let decoration = text.effect.spec_decoration(text.style.color, frame.line_width);
            let start = before_the_lines(text, frame);
            let lines = frame.lines@;
            let end = start + (if decoration is None {
                lines.len() as int
            } else {
                2 * (lines.len() as int)
            });
            let composed = if text.editing && text.preedit is Some && frame.preedit is Some {
                preedit_ops(text.pos.x, text.style, frame.preedit->0@, frame.cursor)
            } else {
                seq![]
            };
            let caret = text.editing && frame.selection is None;
            &&& frame.selection matches Some(spans) ==> (0 <= i < spans@.len() ==> ops[i]
                == selection_op(spans@[i], frame.cursor))
            &&& text.draw_rect ==> ops[start - 1] == bounds_op(
                text.pos,
                text_bounds(frame.glyphs@, frame.cursor),
            )
            &&& 0 <= i < lines.len() ==> match decoration {
                None => ops[start + i] == text_op(text.pos.x, lines[i]),
                Some(d) => decorates(ops[start + 2 * i], text.pos.x, d, lines[i]) && ops[start + 2
                    * i + 1] == text_op(text.pos.x, lines[i]),
            }
            &&& ops.subrange(end, end + composed.len()) == composed
            &&& ops.len() == end + composed.len() + (if caret {
                1int
            } else {
                0
            })
            &&& caret ==> ops.last() == (DrawOp::FillLine {
                from: Vec2D {
                    x: frame.caret.x,
                    y: frame.caret.y.spec_plus(frame.cursor.line_height.spec_times(tenths(1))),
                },
                to: Vec2D {
                    x: frame.caret.x,
                    y: frame.caret.y.spec_plus(frame.cursor.line_height).spec_plus(
                        frame.cursor.line_height.spec_times(tenths(1)),
                    ),
                },
                ink: Ink::StyleDefaultFont,
            })
        }),
{
    let decoration = text.effect.spec_decoration(text.style.color, frame.line_width);
    let lines = frame.lines@;
    lemma_lines_in_order(text.pos.x, decoration, lines, lines.len());
    if 0 <= i < lines.len() {
        law_lines_are_drawn_in_order(text.pos.x, decoration, lines, i);
    }
    let selected = match frame.selection {
        Some(spans) => spans@.map_values(|s: Span<S>| selection_op(s, frame.cursor)),
        None => seq![],
    };
    let rectangle = if text.draw_rect {
        seq![bounds_op(text.pos, text_bounds(frame.glyphs@, frame.cursor))]
    } else {
        seq![]
    };
    let drawn = lines_ops(text.pos.x, decoration, lines, lines.len());
    let composed = if text.editing && text.preedit is Some && frame.preedit is Some {
        preedit_ops(text.pos.x, text.style, frame.preedit->0@, frame.cursor)
    } else {
        seq![]
    };
    let caret = if text.editing && frame.selection is None {
        caret_ops(frame.caret, frame.cursor)
    } else {
        seq![]
    };
    assert(text.spec_draw(frame) == selected + rectangle + drawn + composed + caret);
    lemma_five_parts(selected, rectangle, drawn, composed, caret);
}

/// Where five sequences are in the one that they make up.
proof fn lemma_five_parts<T>(a: Seq<T>, b: Seq<T>, c: Seq<T>, d: Seq<T>, e: Seq<T>)
    ensures
        ({
            let all = a + b + c + d + e;
            let (start, end) = ((a.len() + b.len()) as int, (a.len() + b.len() + c.len()) as int);
            &&& all.len() == end + d.len() + e.len()
            &&& forall|i: int| 0 <= i < a.len() ==> #[trigger] all[i] == a[i]
            &&& b.len() == 1 ==> all[start - 1] == b[0]
            &&& forall|i: int| 0 <= i < c.len() ==> all[start + i] == #[trigger] c[i]
            &&& all.subrange(end, end + d.len()) == d
            &&& e.len() == 1 ==> all.last() == e[0]
        }),
{
    let all = a + b + c + d + e;
    let end = (a.len() + b.len() + c.len()) as int;
    assert(all.subrange(end, end + d.len()) =~= d);
}

/// What is left of a text that is finished: everything but what shows that it is being edited.
pub proof fn law_what_finishing_changes<S>(text: Text<S>)
    ensures
        ({
            let finished = finished_text(text);
            &&& !finished.editing && !finished.draw_rect
            &&& finished.preedit is None && finished.im_context is None
            &&& finished.pos == text.pos && finished.buffer == text.buffer
            &&& finished.style == text.style && finished.effect == text.effect
            &&& finished.font_ids == text.font_ids && finished.layout == text.layout
            &&& finished.cursor_visible == text.cursor_visible
        }),
{
}

// ---------------------------------------------------------------------------------------------
// The text that is being composed

/// How wide a place is: never less than nothing.
pub open spec fn shown_width<S: Scalar>(place: Span<S>) -> S {
    place.end_x.spec_minus(place.start_x).spec_larger(S::spec_from_int(0))
}

/// The looks of a background, and of text in a colour of its own: the text of the line is drawn
/// once more, but only in and a pixel round the place.
pub proof fn law_looks_of_composed_text<S: Scalar>(
    left: S,
    place: Span<S>,
    color: Color,
    cursor: CursorMetrics<S>,
)
    requires
        !shown_width(place).spec_at_most(epsilon_spec()),
    ensures
        ({
            let background = background_ops(place, color, cursor);
            let foreground = foreground_ops(left, place, color, cursor);
            &&& background.len() == 1
            &&& background[0] == (DrawOp::FillRect {
                pos: Vec2D { x: place.start_x, y: mark_top_spec(place.line, cursor) },
                size: Vec2D { x: shown_width(place), y: cursor.line_height },
                ink: Ink::Solid(color),
            })
            &&& foreground.len() == 4
            &&& foreground[0] is Save && foreground[3] is Restore
            &&& foreground[1] == (DrawOp::Scissor {
                pos: Vec2D {
                    x: place.start_x.spec_minus(S::spec_from_int(1)),
                    y: place.line.baseline.spec_plus(cursor.top_offset).spec_minus(
                        S::spec_from_int(1),
                    ),
                },
                size: Vec2D {
                    x: shown_width(place).spec_plus(S::spec_from_int(2)),
                    y: cursor.line_height.spec_plus(S::spec_from_int(4)),
                },
            })
            &&& foreground[2] == (DrawOp::FillText {
                pos: Vec2D { x: left, y: place.line.baseline },
                range: place.line.range,
                ink: Ink::StyleRecoloured(color),
            })
        }),
{
}

/// Whether a command draws an underline at a height.
pub open spec fn underlines<S>(
    op: DrawOp<S>,
    place: Span<S>,
    y: S,
    color: Color,
    width: S,
) -> bool {
    op == (DrawOp::StrokeLine {
        from: Vec2D { x: place.start_x, y },
        to: Vec2D { x: place.end_x, y },
        ink: Ink::Solid(color),
        width,
    })
}

/// An underline is two pixels below the line, from the beginning to the end of its place. A double
/// one has a line a thickness above that, and another one half a thickness below. The thickness is
/// a fiftieth of the line, but at least a pixel and at most half of the line.
pub proof fn law_looks_of_an_underline<S: Scalar>(
    place: Span<S>,
    line_top: S,
    line_height: S,
    color: Color,
)
    requires
        !place.end_x.spec_minus(place.start_x).spec_at_most(epsilon_spec()),
    ensures
        ({
            let (one, half) = (S::spec_from_int(1), line_height.spec_over(S::spec_from_int(2)));
            let fiftieth = line_height.spec_times(
                S::spec_from_int(2).spec_over(S::spec_from_int(100)),
            );
            let thickness = if fiftieth.spec_below(one) {
                one
            } else if half.spec_below(fiftieth) {
                half
            } else {
                fiftieth
            };
            let y = line_top.spec_plus(line_height).spec_plus(S::spec_from_int(2));
            let single = underline_ops(place, line_top, line_height, UnderlineKind::Single, color);
            let double = underline_ops(place, line_top, line_height, UnderlineKind::Double, color);
            &&& underline_ops(place, line_top, line_height, UnderlineKind::NoLine, color).len() == 0
            &&& single.len() == 1 && underlines(single[0], place, y, color, thickness)
            &&& double.len() == 2 && underlines(
                double[0],
                place,
                y.spec_minus(thickness),
                color,
                thickness,
            ) && underlines(
                double[1],
                place,
                y.spec_plus(thickness.spec_times(tenths(5))),
                color,
                thickness,
            )
        }),
{
}

/// An underline has its own colour, else that of its text, else that of the style.
pub proof fn law_colour_of_an_underline(span: PreeditSpan, style: Style, color: Color)
    ensures
        span.underline_color == Some(color) ==> underline_color(span, style) == color,
        span.underline_color is None && span.foreground == Some(color) ==> underline_color(
            span,
            style,
        ) == color,
        span.underline_color is None && span.foreground is None ==> underline_color(span, style)
            == style.color,
{
}

/// An underline fits where half of the line is a pixel or more; the question arises where a part
/// with an underline has a place.
pub proof fn law_where_an_underline_fits<S: Scalar>(
    measured: Seq<MeasuredSpan<S>>,
    line_height: S,
    i: int,
)
    requires
        0 <= i < measured.len(),
    ensures
        underline_fits(line_height) <==> S::spec_from_int(1).spec_at_most(
            line_height.spec_over(S::spec_from_int(2)),
        ),
        measured[i].places@.len() > 0 && measured[i].span.underline != UnderlineKind::NoLine
            ==> has_underline(measured),
{
}

/// In a place, the colour of the text comes before its underline.
pub proof fn law_underline_is_over_the_text<S: Scalar>(
    left: S,
    style: Style,
    span: PreeditSpan,
    place: Span<S>,
    cursor: CursorMetrics<S>,
)
    ensures
        ({
            let ops = overlay_ops(left, style, span, place, cursor);
            let top = place.line.baseline.spec_plus(cursor.top_offset);
            let line = underline_ops(
                place,
                top,
                cursor.line_height,
                span.underline,
                underline_color(span, style),
            );
            let text = match span.foreground {
                Some(color) => foreground_ops(left, place, color, cursor),
                None => seq![],
            };
            ops == text + line
        }),
{
    if span.underline is NoLine {
        let top = place.line.baseline.spec_plus(cursor.top_offset);
        assert(underline_ops(
            place,
            top,
            cursor.line_height,
            span.underline,
            underline_color(span, style),
        ) =~= seq![]);
    }
}

/// Backgrounds come part by part and place by place, and so does what is drawn over the text.
pub proof fn law_parts_are_drawn_in_order<S: Scalar>(
    left: S,
    style: Style,
    measured: Seq<MeasuredSpan<S>>,
    cursor: CursorMetrics<S>,
    part: MeasuredSpan<S>,
    n: nat,
)
    ensures
        ({
            let places = (measured[n as int]).places@.len();
            &&& preedit_background_ops(measured, cursor, n + 1) == preedit_background_ops(
                measured,
                cursor,
                n,
            ) + span_background_ops(measured[n as int], cursor, places)
            &&& preedit_overlay_ops(left, style, measured, cursor, n + 1) == preedit_overlay_ops(
                left,
                style,
                measured,
                cursor,
                n,
            ) + span_overlay_ops(left, style, measured[n as int], cursor, places)
            &&& span_overlay_ops(left, style, part, cursor, n + 1) == span_overlay_ops(
                left,
                style,
                part,
                cursor,
                n,
            ) + overlay_ops(left, style, part.span, part.places@[n as int], cursor)
            &&& part.span.background matches Some(color) ==> span_background_ops(
                part,
                cursor,
                n + 1,
            ) == span_background_ops(part, cursor, n) + background_ops(
                part.places@[n as int],
                color,
                cursor,
            )
            &&& part.span.background is None ==> span_background_ops(part, cursor, n).len() == 0
            &&& preedit_background_ops(measured, cursor, 0).len() == 0
            &&& preedit_overlay_ops(left, style, measured, cursor, 0).len() == 0
            &&& span_overlay_ops(left, style, part, cursor, 0).len() == 0
            &&& span_background_ops(part, cursor, 0).len() == 0
            &&& preedit_ops(left, style, measured, cursor) == preedit_background_ops(
                measured,
                cursor,
                measured.len(),
            ) + preedit_overlay_ops(left, style, measured, cursor, measured.len())
        }),
{
}

// ---------------------------------------------------------------------------------------------
// The caret

/// Where the caret is in whole pixels: in a line it is behind what comes before it, at the top of
/// the line; after a line break it is one line further down, at the left.
pub proof fn law_place_of_the_caret(
    pos: Vec2D<i64>,
    line: LineLayout<i64>,
    prefix: ByteRange,
    width: i64,
    cursor: CursorMetrics<i64>,
)
    requires
        -EXACT <= pos.x <= EXACT,
        -EXACT <= pos.y <= EXACT,
        -EXACT <= line.baseline <= EXACT,
        -EXACT <= width <= EXACT,
        -EXACT <= cursor.top_offset <= EXACT,
        -EXACT <= cursor.line_height <= EXACT,
    ensures
        ({
            let at = |anchor: CaretAnchor<i64>| caret_at(pos, anchor, width, cursor);
            let inside = at(CaretAnchor::InLine { line, prefix });
            let below = at(CaretAnchor::BelowBreak { line });
            let past = at(CaretAnchor::PastEnd { line, prefix });
            let origin = at(CaretAnchor::Origin);
            &&& inside.x == pos.x + width && inside.y == line.baseline + cursor.top_offset
            &&& below.x == pos.x && below.y == line.baseline + cursor.top_offset
                + cursor.line_height
            &&& past.x == inside.x && past.y == below.y
            &&& origin.x == pos.x && origin.y == pos.y + cursor.top_offset
        }),
{
}

/// In every number type, where the caret is.
pub proof fn law_top_of_the_caret<S: Scalar>(
    pos: Vec2D<S>,
    line: LineLayout<S>,
    prefix: ByteRange,
    width: S,
    cursor: CursorMetrics<S>,
)
    ensures
        ({
            let top = line.baseline.spec_plus(cursor.top_offset);
            let x = pos.x.spec_plus(width);
            &&& caret_at(pos, CaretAnchor::InLine { line, prefix }, width, cursor) == (Vec2D {
                x,
                y: top,
            })
            &&& caret_at(pos, CaretAnchor::BelowBreak { line }, width, cursor) == (Vec2D {
                x: pos.x,
                y: top.spec_plus(cursor.line_height),
            })
            &&& caret_at(pos, CaretAnchor::PastEnd { line, prefix }, width, cursor) == (Vec2D {
                x,
                y: top.spec_plus(cursor.line_height),
            })
            &&& caret_at(pos, CaretAnchor::Origin, width, cursor) == (Vec2D {
                x: pos.x,
                y: pos.y.spec_plus(cursor.top_offset),
            })
            &&& caret_prefix_of(CaretAnchor::InLine { line, prefix }) == Some(prefix)
            &&& caret_prefix_of(CaretAnchor::PastEnd { line, prefix }) == Some(prefix)
            &&& caret_prefix_of(CaretAnchor::BelowBreak { line }) is None
            &&& caret_prefix_of(CaretAnchor::<S>::Origin) is None
        }),
{
}

/// An input method is told of a caret that is a pixel wide, and a pixel longer than the one that is
/// drawn, from the same place on.
pub proof fn law_area_of_the_caret<S: Scalar>(caret: Vec2D<S>, cursor: CursorMetrics<S>)
    ensures
        ({
            let (corner, opposite) = caret_area(caret, cursor);
            let one = S::spec_from_int(1);
            let drop = cursor.line_height.spec_times(tenths(1));
            let bottom = caret.y.spec_plus(cursor.line_height).spec_plus(drop);
            &&& corner.x == caret.x && corner.y == caret.y.spec_plus(drop)
            &&& opposite.x == caret.x.spec_plus(one) && opposite.y == bottom.spec_plus(one)
            &&& caret_ops(caret, cursor).len() == 1
            &&& caret_ops(caret, cursor)[0] == (DrawOp::FillLine {
                from: corner,
                to: Vec2D { x: caret.x, y: bottom },
                ink: Ink::StyleDefaultFont,
            })
        }),
{
}

/// Where an input method is told that the caret is: at the logical pixel that its corner is in, and
/// at least a pixel wide and high.
pub proof fn law_caret_on_the_screen<S: Scalar>(
    corner: Vec2D<S>,
    opposite: Vec2D<S>,
    scale_factor: i32,
)
    ensures
        ({
            let rect = caret_location(corner, opposite, scale_factor);
            let scale = S::spec_from_int(
                if scale_factor < 1 {
                    1
                } else {
                    scale_factor
                },
            );
            let one = S::spec_from_int(1);
            let extent = |a: S, b: S|
                b.spec_minus(a).spec_magnitude().spec_over(scale).spec_ceil().spec_larger(
                    one,
                ).spec_to_int();
            &&& rect.x == corner.x.spec_over(scale).spec_floor().spec_to_int()
            &&& rect.y == corner.y.spec_over(scale).spec_floor().spec_to_int()
            &&& rect.width == extent(corner.x, opposite.x)
            &&& rect.height >= 1
            &&& extent(corner.y, opposite.y) >= 1 ==> rect.height == extent(corner.y, opposite.y)
        }),
{
}

/// In whole pixels at a scale of one, the caret is where its corners are.
pub proof fn law_caret_at_a_scale_of_one(corner: Vec2D<i64>, opposite: Vec2D<i64>)
    requires
        -0x3fff_ffff <= corner.x < opposite.x <= 0x3fff_ffff,
        -0x3fff_ffff <= corner.y < opposite.y <= 0x3fff_ffff,
    ensures
        ({
            let rect = caret_location(corner, opposite, 1);
            &&& rect.x == corner.x && rect.y == corner.y
            &&& rect.x + rect.width == opposite.x && rect.y + rect.height == opposite.y
        }),
{
    law_whole_pixel_quotients(corner.x, 1);
    law_whole_pixel_quotients(corner.y, 1);
    law_whole_pixel_quotients((opposite.x - corner.x) as i64, 1);
    law_whole_pixel_quotients((opposite.y - corner.y) as i64, 1);
}

/// What a drawing leaves for the mouse: the rectangle round the text, the rectangles of its
/// characters in their order, and the ranges of its lines.
pub proof fn law_what_a_drawing_leaves<S: Scalar>(
    frame: Frame<S>,
    layout: TextLayout,
    i: int,
    j: int,
)
    requires
        Text::laid_out(frame, layout),
    ensures
        layout.rect == text_bounds(frame.glyphs@, frame.cursor).spec_rect(),
        layout.glyphs@.len() == frame.glyphs@.len(),
        layout.line_ranges@.len() == frame.lines@.len(),
        0 <= i < frame.lines@.len() ==> layout.line_ranges@[i] == frame.lines@[i].range,
        0 <= i < frame.glyphs@.len() ==> layout.glyphs@[i]@.len() == frame.glyphs@[i]@.len(),
        0 <= i < frame.glyphs@.len() && 0 <= j < frame.glyphs@[i]@.len() ==> layout.glyphs@[i]@[j]
            == glyph_rect(frame.glyphs@[i]@[j], frame.cursor),
{
}

} // verus!
