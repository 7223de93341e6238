//! Where the lines of a text go, and which stretches of them have to be measured for drawing.
//!
//! Only the canvas knows how wide a stretch of text is. So drawing takes two steps: the functions
//! here name the stretches to be measured (a [`Segment`] each), and from the two widths of a
//! segment follows where it is on the image (a [`Span`]).

use vstd::prelude::*;

use super::index::{
    byte_index, byte_index_from_char_index, char_index_from_byte_index, chars_before,
};
use crate::canvas::ByteRange;
use crate::math::Vec2D;
use crate::scalar::{ratio, ratio_spec, Scalar};

verus! {

/// A line of the text and the height of its baseline.
#[derive(Clone, Copy, Debug, PartialEq)]
pub struct LineLayout<S> {
    pub range: ByteRange,
    pub baseline: S,
}

/// Where a line is in relation to its baseline: its top, and how high it is.
#[derive(Clone, Copy, Debug, PartialEq)]
pub struct CursorMetrics<S> {
    pub top_offset: S,
    pub line_height: S,
}

/// A stretch of a line, with what comes before it in the line. To find out where it is, both are
/// measured; line breaks in `selected` are left out.
#[derive(Clone, Copy, Debug, PartialEq)]
pub struct Segment<S> {
    pub line: LineLayout<S>,
    pub prefix: ByteRange,
    pub selected: ByteRange,
}

/// Where a stretch of a line is: its left and its right end.
#[derive(Clone, Copy, Debug, PartialEq)]
pub struct Span<S> {
    pub line: LineLayout<S>,
    pub start_x: S,
    pub end_x: S,
}

pub open spec fn min_int(a: int, b: int) -> int {
    if a <= b {
        a
    } else {
        b
    }
}

pub open spec fn max_int(a: int, b: int) -> int {
    if a >= b {
        a
    } else {
        b
    }
}

fn min_usize(a: usize, b: usize) -> (r: usize)
    ensures
        r == min_int(a as int, b as int),
{
    if a <= b {
        a
    } else {
        b
    }
}

fn max_usize(a: usize, b: usize) -> (r: usize)
    ensures
        r == max_int(a as int, b as int),
{
    if a >= b {
        a
    } else {
        b
    }
}

/// The part of a line that the characters from `from` up to, but without, `to` make up, if there
/// is any.
pub open spec fn line_segment<S>(
    text: Seq<char>,
    line: LineLayout<S>,
    from: int,
    to: int,
) -> Option<Segment<S>> {
    let (low, high) = (line.range.start as int, line.range.end as int);
    let start = min_int(max_int(byte_index(text, from) as int, low), high);
    let end = min_int(max_int(byte_index(text, to) as int, low), high);
    if from >= to || start >= end {
        None
    } else {
        Some(
            Segment {
                line,
                prefix: ByteRange { start: low as usize, end: start as usize },
                selected: ByteRange { start: start as usize, end: end as usize },
            },
        )
    }
}

/// The sequence with the item, if there is one.
pub open spec fn push_some<T>(items: Seq<T>, item: Option<T>) -> Seq<T> {
    match item {
        Some(i) => items.push(i),
        None => items,
    }
}

/// The part of a line that is selected, where the characters from `selection.0` up to, but
/// without, `selection.1` are.
pub open spec fn selected_segment<S>(
    text: Seq<char>,
    line: LineLayout<S>,
    selection: (usize, usize),
) -> Option<Segment<S>> {
    line_segment(
        text,
        line,
        max_int(selection.0 as int, chars_before(text, line.range.start as int) as int),
        min_int(selection.1 as int, chars_before(text, line.range.end as int) as int),
    )
}

/// The selected parts of the first `n` lines.
pub open spec fn selected_segments<S>(
    text: Seq<char>,
    lines: Seq<LineLayout<S>>,
    selection: (usize, usize),
    n: nat,
) -> Seq<Segment<S>>
    decreases n,
{
    if n == 0 {
        seq![]
    } else {
        push_some(
            selected_segments(text, lines, selection, (n - 1) as nat),
            selected_segment(text, lines[n - 1], selection),
        )
    }
}

/// The characters of a line from `from` up to, but without, `to`, one by one.
pub open spec fn char_segments<S>(
    text: Seq<char>,
    line: LineLayout<S>,
    from: int,
    to: int,
) -> Seq<Segment<S>>
    decreases to - from,
{
    if from >= to {
        seq![]
    } else {
        push_some(char_segments(text, line, from, to - 1), line_segment(text, line, to - 1, to))
    }
}

/// The characters of a line, one by one.
pub open spec fn glyph_segments_of<S>(text: Seq<char>, line: LineLayout<S>) -> Seq<Segment<S>> {
    char_segments(
        text,
        line,
        chars_before(text, line.range.start as int) as int,
        chars_before(text, line.range.end as int) as int,
    )
}

/// The part of a line that the bytes of `span`, counted from the byte `origin` of the text, make
/// up, if there is any.
pub open spec fn composed_segment<S>(
    text: Seq<char>,
    line: LineLayout<S>,
    origin: int,
    span: ByteRange,
) -> Option<Segment<S>> {
    let start = max_int(origin + span.start, line.range.start as int);
    let end = min_int(origin + span.end, line.range.end as int);
    if start >= end {
        None
    } else {
        line_segment(text, line, chars_before(text, start) as int, chars_before(text, end) as int)
    }
}

/// The parts of the first `n` lines that the bytes of `span`, counted from the byte `origin` of
/// the text, make up.
pub open spec fn composed_segments<S>(
    text: Seq<char>,
    lines: Seq<LineLayout<S>>,
    origin: int,
    span: ByteRange,
    n: nat,
) -> Seq<Segment<S>>
    decreases n,
{
    if n == 0 {
        seq![]
    } else {
        push_some(
            composed_segments(text, lines, origin, span, (n - 1) as nat),
            composed_segment(text, lines[n - 1], origin, span),
        )
    }
}

/// The part of a line that the characters from `from` up to, but without, `to` make up.
pub fn segment_for_line_span<S: Scalar>(
    text: &str,
    line: LineLayout<S>,
    from: usize,
    to: usize,
) -> (r: Option<Segment<S>>)
    ensures
        r == line_segment(text@, line, from as int, to as int),
{
    if from >= to {
        return None;
    }
    let range_start_byte = byte_index_from_char_index(text, from);
    let range_end_byte = byte_index_from_char_index(text, to);
    let (line_start, line_end): (usize, usize) = (line.range.start, line.range.end);
    let overlap_start = min_usize(max_usize(range_start_byte, line_start), line_end);
    let overlap_end = min_usize(max_usize(range_end_byte, line_start), line_end);
    if overlap_start >= overlap_end {
        return None;
    }
    Some(
        Segment {
            line,
            prefix: ByteRange { start: line_start, end: overlap_start },
            selected: ByteRange { start: overlap_start, end: overlap_end },
        },
    )
}

/// What is to be measured to show the selection, line by line.
pub fn selection_segments<S: Scalar>(
    text: &str,
    lines: &Vec<LineLayout<S>>,
    selection: (usize, usize),
) -> (r: Vec<Segment<S>>)
    ensures
        r@ == selected_segments(text@, lines@, selection, lines@.len()),
{
    let mut r: Vec<Segment<S>> = Vec::new();
    let mut i: usize = 0;
    while i < lines.len()
        invariant
            i <= lines.len(),
            r@ == selected_segments(text@, lines@, selection, i as nat),
        decreases lines.len() - i,
    {
        let line = lines[i];
        let start_index = char_index_from_byte_index(text, line.range.start);
        let end_index = char_index_from_byte_index(text, line.range.end);
        let overlap_start = max_usize(selection.0, start_index);
        let overlap_end = min_usize(selection.1, end_index);
        if let Some(segment) = segment_for_line_span(text, line, overlap_start, overlap_end) {
            r.push(segment);
        }
        i += 1;
    }
    r
}

/// What is to be measured to find each character of each line.
pub fn glyph_segments<S: Scalar>(text: &str, lines: &Vec<LineLayout<S>>) -> (r: Vec<
    Vec<Segment<S>>,
>)
    ensures
        r@.len() == lines@.len(),
        forall|i: int|
            0 <= i < lines@.len() ==> (#[trigger] r@[i])@ == glyph_segments_of(text@, lines@[i]),
{
    let mut r: Vec<Vec<Segment<S>>> = Vec::new();
    let mut i: usize = 0;
    while i < lines.len()
        invariant
            i <= lines.len(),
            r@.len() == i,
            forall|j: int|
                0 <= j < i ==> (#[trigger] r@[j])@ == glyph_segments_of(text@, lines@[j]),
        decreases lines.len() - i,
    {
        let line = lines[i];
        let start = char_index_from_byte_index(text, line.range.start);
        let end = char_index_from_byte_index(text, line.range.end);
        let mut glyphs: Vec<Segment<S>> = Vec::new();
        let mut at: usize = start;
        while at < end
            invariant
                start <= at,
                at <= end || at == start,
                glyphs@ == char_segments(text@, line, start as int, at as int),
            decreases end - at,
        {
            if let Some(segment) = segment_for_line_span(text, line, at, at + 1) {
                glyphs.push(segment);
            }
            at += 1;
        }
        assert(glyphs@ =~= char_segments(text@, line, start as int, end as int));
        r.push(glyphs);
        i += 1;
    }
    r
}

/// What is to be measured to show a part of the text that is being composed; it begins at the
/// byte `origin` of the text that is shown.
pub fn preedit_segments<S: Scalar>(
    text: &str,
    lines: &Vec<LineLayout<S>>,
    origin: usize,
    span: ByteRange,
) -> (r: Vec<Segment<S>>)
    ensures
        r@ == composed_segments(text@, lines@, origin as int, span, lines@.len()),
{
    let global_start: usize = origin.saturating_add(span.start);
    let global_end: usize = origin.saturating_add(span.end);
    let mut r: Vec<Segment<S>> = Vec::new();
    let mut i: usize = 0;
    while i < lines.len()
        invariant
            i <= lines.len(),
            global_start == min_int(origin + span.start, usize::MAX as int),
            global_end == min_int(origin + span.end, usize::MAX as int),
            r@ == composed_segments(text@, lines@, origin as int, span, i as nat),
        decreases lines.len() - i,
    {
        let line = lines[i];
        let overlap_start = max_usize(global_start, line.range.start);
        let overlap_end = min_usize(global_end, line.range.end);
        if overlap_start < overlap_end {
            let overlap_start_char = char_index_from_byte_index(text, overlap_start);
            let overlap_end_char = char_index_from_byte_index(text, overlap_end);
            if let Some(segment) = segment_for_line_span(
                text,
                line,
                overlap_start_char,
                overlap_end_char,
            ) {
                r.push(segment);
            }
        }
        i += 1;
    }
    r
}

/// The text without its line breaks, as it is measured.
pub fn without_newlines(text: &str) -> (r: String)
    ensures
        r@ == text@.filter(|c: char| c != '\n'),
{
    let mut r = String::new();
    let ghost pred = |c: char| c != '\n';
    let chars: usize = text.unicode_len();
    let mut i: usize = 0;
    reveal(Seq::filter);
    assert(text@.take(0) =~= seq![]);
    while i < chars
        invariant
            i <= chars == text@.len(),
            pred == (|c: char| c != '\n'),
            r@ == text@.take(i as int).filter(pred),
        decreases chars - i,
    {
        reveal(Seq::filter);
        assert(text@.take(i + 1).drop_last() =~= text@.take(i as int));
        let c = text.substring_char(i, i + 1);
        if text.get_char(i) != '\n' {
            r.append(c);
            assert(c@ =~= seq![text@[i as int]]);
            assert(text@.take(i as int).filter(pred) + c@ =~= text@.take(i as int).filter(
                pred,
            ).push(text@[i as int]));
        }
        i += 1;
    }
    assert(text@.take(text@.len() as int) =~= text@);
    r
}

/// The characters of the text that end in a range of its bytes.
pub open spec fn chars_in(text: Seq<char>, range: ByteRange) -> Seq<char> {
    let (from, to) = (
        chars_before(text, range.start as int) as int,
        chars_before(text, range.end as int) as int,
    );
    if from <= to {
        text.subrange(from, to)
    } else {
        seq![]
    }
}

/// The characters of the text in a range of its bytes: a byte in the middle of a character counts
/// as the byte at which it begins.
pub fn text_in(text: &str, range: ByteRange) -> (r: String)
    ensures
        r@ == chars_in(text@, range),
{
    let from = char_index_from_byte_index(text, range.start);
    let to = char_index_from_byte_index(text, range.end);
    if from <= to {
        text.substring_char(from, to).to_owned()
    } else {
        String::new()
    }
}

/// What is measured of a segment: what comes before it in its line, and itself without its line
/// breaks.
pub fn measured_texts<S: Scalar>(text: &str, segment: &Segment<S>) -> (r: (String, String))
    ensures
        r.0@ == chars_in(text@, segment.prefix),
        r.1@ == chars_in(text@, segment.selected).filter(|c: char| c != '\n'),
{
    let prefix = text_in(text, segment.prefix);
    let selected = text_in(text, segment.selected);
    (prefix, without_newlines(selected.as_str()))
}

/// How wide a stretch of text is: nothing if it is empty or cannot be measured.
pub fn text_width<S: Scalar>(text: &str, measured: Option<S>) -> (r: S)
    ensures
        r == (match measured {
            Some(width) if text@.len() > 0 => width,
            _ => S::spec_from_int(0),
        }),
{
    if text.is_empty() {
        return S::from_int(0);
    }
    match measured {
        Some(width) => width,
        None => S::from_int(0),
    }
}

/// Where a segment is, in a text that begins at `left`.
pub open spec fn span_of<S: Scalar>(
    left: S,
    segment: Segment<S>,
    prefix_width: S,
    selected_width: S,
) -> Span<S> {
    let start_x = left.spec_plus(prefix_width);
    Span {
        line: segment.line,
        start_x,
        end_x: start_x.spec_plus(selected_width.spec_larger(S::spec_from_int(0))),
    }
}

/// Where a segment is, once its two parts are measured.
pub fn measured_span<S: Scalar>(
    left: S,
    segment: &Segment<S>,
    prefix_width: S,
    selected_width: S,
) -> (r: Span<S>)
    ensures
        r == span_of(left, *segment, prefix_width, selected_width),
{
    let start_x = left.plus(prefix_width);
    Span {
        line: segment.line,
        start_x,
        end_x: start_x.plus(selected_width.larger(S::from_int(0))),
    }
}

/// What the canvas has measured of the font: the height of a cursor, where it could be measured,
/// and the font's own measures.
#[derive(Clone, Copy, Debug, PartialEq)]
pub struct FontMeasures<S> {
    pub cursor_height: Option<S>,
    pub ascender: S,
    pub descender: S,
    pub height: S,
}

/// The height of a glyph: that of the cursor, else from the font's ascent and descent, else the
/// height of the font, the last two at the scale of the canvas.
pub open spec fn glyph_height<S: Scalar>(font: FontMeasures<S>, scale: S) -> S {
    let zero = S::spec_from_int(0);
    let extent = font.ascender.spec_plus(font.descender).spec_magnitude();
    let measured = match font.cursor_height {
        Some(height) => height,
        None => zero,
    };
    let or_extent = if measured.spec_at_most(zero) && epsilon_spec::<S>().spec_below(extent) {
        extent.spec_over(scale)
    } else {
        measured
    };
    if or_extent.spec_at_most(zero) {
        font.height.spec_over(scale)
    } else {
        or_extent
    }
}

/// The difference that is too small to be drawn.
pub open spec fn epsilon_spec<S: Scalar>() -> S {
    ratio_spec(1, 0x80_0000)
}

pub fn epsilon<S: Scalar>() -> (r: S)
    ensures
        r == epsilon_spec::<S>(),
{
    ratio(1, 0x80_0000)
}

/// Where lines are in relation to their baselines. A line is a fifth higher than its glyphs.
pub open spec fn metrics_of<S: Scalar>(font: FontMeasures<S>, scale: S) -> CursorMetrics<S> {
    let height = glyph_height(font, scale);
    CursorMetrics {
        top_offset: height.spec_negated(),
        line_height: height.spec_times(ratio_spec(12, 10)),
    }
}

/// Where lines are in relation to their baselines, on a canvas with the given scale.
pub fn cursor_metrics<S: Scalar>(font: &FontMeasures<S>, scale: S) -> (r: CursorMetrics<S>)
    ensures
        r == metrics_of(*font, scale),
{
    let zero = S::from_int(0);
    let mut line_height = match font.cursor_height {
        Some(height) => height,
        None => zero,
    };
    if line_height.at_most(zero) {
        let extent = font.ascender.plus(font.descender).magnitude();
        if epsilon::<S>().below(extent) {
            line_height = extent.over(scale);
        }
    }
    if line_height.at_most(zero) {
        line_height = font.height.over(scale);
    }
    CursorMetrics {
        top_offset: line_height.negated(),
        line_height: line_height.times(ratio(12, 10)),
    }
}

/// The height of the baseline of the line with index `n`.
pub open spec fn baseline_of<S: Scalar>(top: S, line_height: S, n: nat) -> S
    decreases n,
{
    if n == 0 {
        top
    } else {
        baseline_of(top, line_height, (n - 1) as nat).spec_plus(line_height)
    }
}

/// Puts lines below each other, the first with its baseline at `top`.
pub fn layout_lines<S: Scalar>(ranges: &Vec<ByteRange>, top: S, line_height: S) -> (r: Vec<
    LineLayout<S>,
>)
    ensures
        r@.len() == ranges@.len(),
        forall|i: int|
            0 <= i < ranges@.len() ==> #[trigger] r@[i] == (LineLayout {
                range: ranges@[i],
                baseline: baseline_of(top, line_height, i as nat),
            }),
{
    let mut r: Vec<LineLayout<S>> = Vec::new();
    let mut baseline = top;
    let mut i: usize = 0;
    while i < ranges.len()
        invariant
            i <= ranges.len(),
            r@.len() == i,
            baseline == baseline_of(top, line_height, i as nat),
            forall|j: int|
                0 <= j < i ==> #[trigger] r@[j] == (LineLayout {
                    range: ranges@[j],
                    baseline: baseline_of(top, line_height, j as nat),
                }),
        decreases ranges.len() - i,
    {
        r.push(LineLayout { range: ranges[i], baseline });
        baseline = baseline.plus(line_height);
        i += 1;
    }
    r
}

/// Where the caret goes, but for the width of the text before it in its line.
#[derive(Clone, Copy, Debug, PartialEq)]
pub enum CaretAnchor<S> {
    /// There is no line: the caret is where the text would begin.
    Origin,
    /// In a line, after `prefix`.
    InLine { line: LineLayout<S>, prefix: ByteRange },
    /// At the beginning of the line below, because a line break ends this one.
    BelowBreak { line: LineLayout<S> },
    /// Below the last line, after `prefix`.
    PastEnd { line: LineLayout<S>, prefix: ByteRange },
}

/// Whether a line ends with a line break.
pub open spec fn ends_with_newline(text: Seq<char>, range: ByteRange) -> bool {
    let bytes = vstd::utf8::encode_utf8(text);
    range.start < range.end <= bytes.len() && bytes[range.end - 1] == 0x0a
}

/// Where the caret at the byte `cursor` goes, from the line with index `n` on; `broken` is the
/// last line before that ends with a line break at the caret.
pub open spec fn caret_anchor_from<S>(
    text: Seq<char>,
    lines: Seq<LineLayout<S>>,
    cursor: int,
    n: int,
    broken: Option<LineLayout<S>>,
) -> CaretAnchor<S>
    decreases lines.len() - n,
{
    if n < 0 || n >= lines.len() {
        match broken {
            Some(line) => CaretAnchor::BelowBreak { line },
            None => if lines.len() == 0 {
                CaretAnchor::Origin
            } else {
                CaretAnchor::PastEnd { line: lines.last(), prefix: lines.last().range }
            },
        }
    } else {
        let line = lines[n];
        let (start, end) = (line.range.start as int, line.range.end as int);
        if cursor < end {
            CaretAnchor::InLine {
                line,
                prefix: ByteRange {
                    start: line.range.start,
                    end: max_int(start, cursor) as usize,
                },
            }
        } else if cursor == end && !ends_with_newline(text, line.range) {
            CaretAnchor::InLine { line, prefix: line.range }
        } else if cursor == end {
            caret_anchor_from(text, lines, cursor, n + 1, Some(line))
        } else {
            caret_anchor_from(text, lines, cursor, n + 1, broken)
        }
    }
}

/// Where the caret goes that stands at the byte `cursor_byte_pos`. Right after a line break it is
/// on the next line.
pub fn caret_anchor<S: Scalar>(
    text: &str,
    lines: &Vec<LineLayout<S>>,
    cursor_byte_pos: usize,
) -> (r: CaretAnchor<S>)
    ensures
        r == caret_anchor_from(text@, lines@, cursor_byte_pos as int, 0, None),
{
    if lines.len() == 0 {
        return CaretAnchor::Origin;
    }
    let bytes = text.as_bytes();
    let mut newline_pending: Option<LineLayout<S>> = None;
    let mut i: usize = 0;
    while i < lines.len()
        invariant
            i <= lines.len(),
            lines@.len() > 0,
            bytes@ == vstd::utf8::encode_utf8(text@),
            caret_anchor_from(text@, lines@, cursor_byte_pos as int, 0, None) == caret_anchor_from(
                text@,
                lines@,
                cursor_byte_pos as int,
                i as int,
                newline_pending,
            ),
        decreases lines.len() - i,
    {
        let line = lines[i];
        let (start, end): (usize, usize) = (line.range.start, line.range.end);
        if cursor_byte_pos < end {
            let prefix = ByteRange { start, end: max_usize(start, cursor_byte_pos) };
            return CaretAnchor::InLine { line, prefix };
        }
        if cursor_byte_pos == end {
            if start < end && end <= bytes.len() && bytes[end - 1] == 0x0a {
                newline_pending = Some(line);
            } else {
                return CaretAnchor::InLine { line, prefix: line.range };
            }
        }
        i += 1;
    }
    if let Some(line) = newline_pending {
        return CaretAnchor::BelowBreak { line };
    }
    let last_line = lines[lines.len() - 1];
    CaretAnchor::PastEnd { line: last_line, prefix: last_line.range }
}

/// What is to be measured to place the caret: the text before it in its line.
pub open spec fn caret_prefix_of<S>(anchor: CaretAnchor<S>) -> Option<ByteRange> {
    match anchor {
        CaretAnchor::InLine { prefix, .. } | CaretAnchor::PastEnd { prefix, .. } => Some(prefix),
        _ => None,
    }
}

pub fn caret_prefix<S: Scalar>(anchor: &CaretAnchor<S>) -> (r: Option<ByteRange>)
    ensures
        r == caret_prefix_of(*anchor),
{
    match anchor {
        CaretAnchor::InLine { prefix, .. } => Some(*prefix),
        CaretAnchor::PastEnd { prefix, .. } => Some(*prefix),
        _ => None,
    }
}

/// Where the upper end of the caret is, in a text at `pos`.
pub open spec fn caret_at<S: Scalar>(
    pos: Vec2D<S>,
    anchor: CaretAnchor<S>,
    prefix_width: S,
    cursor: CursorMetrics<S>,
) -> Vec2D<S> {
    match anchor {
        CaretAnchor::Origin => Vec2D { x: pos.x, y: pos.y.spec_plus(cursor.top_offset) },
        CaretAnchor::InLine { line, .. } => Vec2D {
            x: pos.x.spec_plus(prefix_width),
            y: line.baseline.spec_plus(cursor.top_offset),
        },
        CaretAnchor::BelowBreak { line } => Vec2D {
            x: pos.x,
            y: line.baseline.spec_plus(cursor.top_offset).spec_plus(cursor.line_height),
        },
        CaretAnchor::PastEnd { line, .. } => Vec2D {
            x: pos.x.spec_plus(prefix_width),
            y: line.baseline.spec_plus(cursor.top_offset).spec_plus(cursor.line_height),
        },
    }
}

/// Where the upper end of the caret is, once the text before it in its line is measured.
pub fn caret_top_left<S: Scalar>(
    pos: Vec2D<S>,
    anchor: &CaretAnchor<S>,
    prefix_width: S,
    cursor: CursorMetrics<S>,
) -> (r: Vec2D<S>)
    ensures
        r == caret_at(pos, *anchor, prefix_width, cursor),
{
    match anchor {
        CaretAnchor::Origin => Vec2D::new(pos.x, pos.y.plus(cursor.top_offset)),
        CaretAnchor::InLine { line, .. } => Vec2D::new(
            pos.x.plus(prefix_width),
            line.baseline.plus(cursor.top_offset),
        ),
        CaretAnchor::BelowBreak { line } => Vec2D::new(
            pos.x,
            line.baseline.plus(cursor.top_offset).plus(cursor.line_height),
        ),
        CaretAnchor::PastEnd { line, .. } => Vec2D::new(
            pos.x.plus(prefix_width),
            line.baseline.plus(cursor.top_offset).plus(cursor.line_height),
        ),
    }
}

} // verus!
