//! From the characters of a text to what is drawn of it: which stretches have to be measured, and
//! the frame that follows once they are.

use vstd::prelude::*;

use super::content::{DisplayContent, Text, TextLayout};
use super::draw::{Frame, MeasuredSpan};
use super::layout::{
    baseline_of, caret_anchor, caret_anchor_from, caret_at, caret_top_left, composed_segments,
    cursor_metrics, glyph_segments, glyph_segments_of, layout_lines, measured_span, metrics_of,
    min_int, preedit_segments, selected_segments, selection_segments, span_of, CaretAnchor,
    CursorMetrics, FontMeasures, LineLayout, Segment, Span,
};
use crate::canvas::ByteRange;
use crate::ime::PreeditSpan;
use crate::math::{Rectangle, Vec2D};
use crate::scalar::Scalar;

verus! {

/// A part of the text that is being composed, and which stretches of the lines it is in.
#[derive(Debug, PartialEq)]
pub struct PlannedSpan<S> {
    pub span: PreeditSpan,
    pub places: Vec<Segment<S>>,
}

/// A text that is laid out, with everything that is still to be measured.
#[derive(Debug, PartialEq)]
pub struct Plan<S> {
    pub lines: Vec<LineLayout<S>>,
    pub cursor: CursorMetrics<S>,
    pub selection: Option<Vec<Segment<S>>>,
    pub glyphs: Vec<Vec<Segment<S>>>,
    pub preedit: Option<Vec<PlannedSpan<S>>>,
    pub caret: CaretAnchor<S>,
}

/// The widths of the two parts of a segment.
#[derive(Clone, Copy, Debug, PartialEq)]
pub struct Widths<S> {
    pub prefix: S,
    pub selected: S,
}

/// What was measured for a plan: the widths of its segments, in their order, and the width of the
/// text before the caret in its line.
#[derive(Debug, PartialEq)]
pub struct PlanWidths<S> {
    pub selection: Vec<Widths<S>>,
    pub glyphs: Vec<Vec<Widths<S>>>,
    pub preedit: Vec<Vec<Widths<S>>>,
    pub caret: S,
}

/// Lines below each other, the first with its baseline at `top`.
pub open spec fn stacked_lines<S: Scalar>(
    ranges: Seq<ByteRange>,
    top: S,
    line_height: S,
) -> Seq<LineLayout<S>> {
    Seq::new(
        ranges.len(),
        |i: int|
            LineLayout { range: ranges[i], baseline: baseline_of(top, line_height, i as nat) },
    )
}

/// Where segments are, in a text that begins at `left`, as far as they are measured.
pub open spec fn placed<S: Scalar>(
    left: S,
    segments: Seq<Segment<S>>,
    widths: Seq<Widths<S>>,
) -> Seq<Span<S>> {
    Seq::new(
        min_int(segments.len() as int, widths.len() as int) as nat,
        |i: int| span_of(left, segments[i], widths[i].prefix, widths[i].selected),
    )
}

impl<S: Scalar> Text<S> {
    /// Whether `plan` is what has to be measured of the text. `display` is what is shown, in the
    /// lines `ranges`; `selection` is from which character to which something is selected.
    pub open spec fn planned(
        self,
        display: DisplayContent,
        ranges: Seq<ByteRange>,
        font: FontMeasures<S>,
        scale: S,
        selection: Option<(usize, usize)>,
        plan: Plan<S>,
    ) -> bool {
        let text = display.text@;
        let lines = stacked_lines(ranges, self.pos.y, plan.cursor.line_height);
        &&& plan.cursor == metrics_of(font, scale)
        &&& plan.lines@ == lines
        &&& match selection {
            Some(selection) => plan.selection matches Some(segments) && segments@
                == selected_segments(text, lines, selection, lines.len()),
            None => plan.selection is None,
        }
        &&& plan.glyphs@.len() == lines.len()
        &&& forall|i: int|
            0 <= i < lines.len() ==> (#[trigger] plan.glyphs@[i])@ == glyph_segments_of(
                text,
                lines[i],
            )
        &&& match (self.preedit, display.preedit_range) {
            (Some(preedit), Some(range)) if self.editing => plan.preedit matches Some(spans)
                && spans@.len() == preedit.spans@.len() && forall|i: int|
                0 <= i < spans@.len() ==> (#[trigger] spans@[i]).span == preedit.spans@[i]
                    && spans@[i].places@ == composed_segments(
                    text,
                    lines,
                    range.start as int,
                    preedit.spans@[i].range,
                    lines.len(),
                ),
            _ => plan.preedit is None,
        }
        &&& plan.caret == caret_anchor_from(text, lines, display.cursor_byte_pos as int, 0, None)
    }

    /// Whether `frame` is the plan with its segments where they are by their widths.
    pub open spec fn framed(
        self,
        plan: Plan<S>,
        widths: PlanWidths<S>,
        line_width: S,
        frame: Frame<S>,
    ) -> bool {
        let left = self.pos.x;
        &&& frame.lines@ == plan.lines@
        &&& frame.cursor == plan.cursor
        &&& match plan.selection {
            Some(segments) => frame.selection matches Some(spans) && spans@ == placed(
                left,
                segments@,
                widths.selection@,
            ),
            None => frame.selection is None,
        }
        &&& frame.glyphs@.len() == min_int(
            plan.glyphs@.len() as int,
            widths.glyphs@.len() as int,
        )
        &&& forall|i: int|
            0 <= i < frame.glyphs@.len() ==> (#[trigger] frame.glyphs@[i])@ == placed(
                left,
                plan.glyphs@[i]@,
                widths.glyphs@[i]@,
            )
        &&& match plan.preedit {
            Some(spans) => frame.preedit matches Some(measured) && measured@.len() == min_int(
                spans@.len() as int,
                widths.preedit@.len() as int,
            ) && forall|i: int|
                0 <= i < measured@.len() ==> (#[trigger] measured@[i]).span == spans@[i].span
                    && measured@[i].places@ == placed(left, spans@[i].places@, widths.preedit@[i]@),
            None => frame.preedit is None,
        }
        &&& frame.caret == caret_at(self.pos, plan.caret, widths.caret, plan.cursor)
        &&& frame.line_width == line_width
    }

    /// How wide a line of the text may be: up to the right edge of the image, whose top left and
    /// bottom right corner are given.
    pub fn wrap_width(&self, bounds: (Vec2D<S>, Vec2D<S>)) -> (r: S)
        ensures
            r == bounds.1.x.spec_minus(self.pos.x),
    {
        bounds.1.x.minus(self.pos.x)
    }

    /// Remembers which lines the text was broken into. Where its characters are stays as it was;
    /// a text that was not drawn yet is nowhere.
    pub fn remember_lines(&mut self, ranges: Vec<ByteRange>)
        ensures
            *final(self) == (Text { layout: final(self).layout, ..*old(self) }),
            final(self).layout matches Some(layout) && layout.line_ranges@ == ranges@ && match old(
                self,
            ).layout {
                Some(before) => layout.rect == before.rect && layout.glyphs == before.glyphs,
                None => layout.rect == (Rectangle { x: 0, y: 0, width: 0, height: 0 })
                    && layout.glyphs@.len() == 0,
            },
    {
        let layout = match self.layout.take() {
            Some(before) => TextLayout {
                rect: before.rect,
                glyphs: before.glyphs,
                line_ranges: ranges,
            },
            None => TextLayout {
                rect: Rectangle::new(0, 0, 0, 0),
                glyphs: Vec::new(),
                line_ranges: ranges,
            },
        };
        self.layout = Some(layout);
    }

    /// Lays the text out on a canvas with the given scale, whose font measures are `font`.
    pub fn plan(
        &self,
        display: &DisplayContent,
        ranges: &Vec<ByteRange>,
        font: &FontMeasures<S>,
        scale: S,
        selection: Option<(usize, usize)>,
    ) -> (r: Plan<S>)
        ensures
            self.planned(*display, ranges@, *font, scale, selection, r),
    {
        let text = display.text.as_str();
        let cursor = cursor_metrics(font, scale);
        let lines = layout_lines(ranges, self.pos.y, cursor.line_height);
        assert(lines@ =~= stacked_lines(ranges@, self.pos.y, cursor.line_height));
        let selected = match selection {
            Some(selection) => Some(selection_segments(text, &lines, selection)),
            None => None,
        };
        let glyphs = glyph_segments(text, &lines);
        let preedit = match (&self.preedit, display.preedit_range) {
            (Some(preedit), Some(range)) => if self.editing {
                Some(plan_spans(text, &lines, range.start, &preedit.spans))
            } else {
                None
            },
            _ => None,
        };
        let caret = caret_anchor(text, &lines, display.cursor_byte_pos);
        Plan { lines, cursor, selection: selected, glyphs, preedit, caret }
    }

    /// Puts what was laid out where it is by the widths that were measured.
    pub fn frame(&self, plan: Plan<S>, widths: &PlanWidths<S>, line_width: S) -> (r: Frame<S>)
        ensures
            self.framed(plan, *widths, line_width, r),
    {
        let left = self.pos.x;
        let selection = match &plan.selection {
            Some(segments) => Some(place(left, segments, &widths.selection)),
            None => None,
        };
        let mut glyphs: Vec<Vec<Span<S>>> = Vec::new();
        let mut i: usize = 0;
        while i < plan.glyphs.len() && i < widths.glyphs.len()
            invariant
                i <= plan.glyphs.len(),
                i <= widths.glyphs.len(),
                glyphs@.len() == i,
                forall|j: int|
                    0 <= j < i ==> (#[trigger] glyphs@[j])@ == placed(
                        left,
                        plan.glyphs@[j]@,
                        widths.glyphs@[j]@,
                    ),
            decreases plan.glyphs.len() - i,
        {
            glyphs.push(place(left, &plan.glyphs[i], &widths.glyphs[i]));
            i += 1;
        }
        let preedit = match &plan.preedit {
            Some(spans) => Some(place_spans(left, spans, &widths.preedit)),
            None => None,
        };
        let caret = caret_top_left(self.pos, &plan.caret, widths.caret, plan.cursor);
        Frame {
            lines: plan.lines,
            cursor: plan.cursor,
            selection,
            glyphs,
            preedit,
            caret,
            line_width,
        }
    }
}

fn plan_spans<S: Scalar>(
    text: &str,
    lines: &Vec<LineLayout<S>>,
    origin: usize,
    spans: &Vec<PreeditSpan>,
) -> (r: Vec<PlannedSpan<S>>)
    ensures
        r@.len() == spans@.len(),
        forall|i: int|
            0 <= i < r@.len() ==> (#[trigger] r@[i]).span == spans@[i] && r@[i].places@
                == composed_segments(text@, lines@, origin as int, spans@[i].range, lines@.len()),
{
    let mut r: Vec<PlannedSpan<S>> = Vec::new();
    let mut i: usize = 0;
    while i < spans.len()
        invariant
            i <= spans.len(),
            r@.len() == i,
            forall|j: int|
                0 <= j < i ==> (#[trigger] r@[j]).span == spans@[j] && r@[j].places@
                    == composed_segments(
                    text@,
                    lines@,
                    origin as int,
                    spans@[j].range,
                    lines@.len(),
                ),
        decreases spans.len() - i,
    {
        let span = spans[i];
        r.push(PlannedSpan { span, places: preedit_segments(text, lines, origin, span.range) });
        i += 1;
    }
    r
}

fn place<S: Scalar>(left: S, segments: &Vec<Segment<S>>, widths: &Vec<Widths<S>>) -> (r: Vec<
    Span<S>,
>)
    ensures
        r@ == placed(left, segments@, widths@),
{
    let mut r: Vec<Span<S>> = Vec::new();
    let mut i: usize = 0;
    while i < segments.len() && i < widths.len()
        invariant
            i <= segments.len(),
            i <= widths.len(),
            r@.len() == i,
            forall|j: int|
                0 <= j < i ==> #[trigger] r@[j] == span_of(
                    left,
                    segments@[j],
                    widths@[j].prefix,
                    widths@[j].selected,
                ),
        decreases segments.len() - i,
    {
        r.push(measured_span(left, &segments[i], widths[i].prefix, widths[i].selected));
        i += 1;
    }
    assert(r@ =~= placed(left, segments@, widths@));
    r
}

fn place_spans<S: Scalar>(
    left: S,
    spans: &Vec<PlannedSpan<S>>,
    widths: &Vec<Vec<Widths<S>>>,
) -> (r: Vec<MeasuredSpan<S>>)
    ensures
        r@.len() == min_int(spans@.len() as int, widths@.len() as int),
        forall|i: int|
            0 <= i < r@.len() ==> (#[trigger] r@[i]).span == spans@[i].span && r@[i].places@
                == placed(left, spans@[i].places@, widths@[i]@),
{
    let mut r: Vec<MeasuredSpan<S>> = Vec::new();
    let mut i: usize = 0;
    while i < spans.len() && i < widths.len()
        invariant
            i <= spans.len(),
            i <= widths.len(),
            r@.len() == i,
            forall|j: int|
                0 <= j < i ==> (#[trigger] r@[j]).span == spans@[j].span && r@[j].places@
                    == placed(left, spans@[j].places@, widths@[j]@),
        decreases spans.len() - i,
    {
        let places = place(left, &spans[i].places, &widths[i]);
        r.push(MeasuredSpan { span: spans[i].span, places });
        i += 1;
    }
    r
}

} // verus!
