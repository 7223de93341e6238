//! Drawing a text.

use vstd::prelude::*;

use super::content::{Text, TextLayout};
use super::effect::{Decoration, DecorationKind};
use super::layout::{epsilon, epsilon_spec, CursorMetrics, LineLayout, Span};
use crate::canvas::{ByteRange, DrawOp, Ink};
use crate::ime::{PreeditSpan, UnderlineKind};
use crate::math::{Rectangle, Vec2D};
use crate::scalar::{ratio, ratio_spec, Scalar};
use crate::style::{Color, Style};

verus! {

/// A part of the text that is being composed, and where it is in the lines.
#[derive(Debug, PartialEq)]
pub struct MeasuredSpan<S> {
    pub span: PreeditSpan,
    pub places: Vec<Span<S>>,
}

/// What was laid out and measured for one drawing of a text.
#[derive(Debug, PartialEq)]
pub struct Frame<S> {
    pub lines: Vec<LineLayout<S>>,
    pub cursor: CursorMetrics<S>,
    /// Where the selection is; none if nothing is selected.
    pub selection: Option<Vec<Span<S>>>,
    /// Where the characters are, line by line.
    pub glyphs: Vec<Vec<Span<S>>>,
    /// Where the text that is being composed is; none if none is shown.
    pub preedit: Option<Vec<MeasuredSpan<S>>>,
    /// The upper end of the caret.
    pub caret: Vec2D<S>,
    /// The width of the lines that the style's paint draws.
    pub line_width: S,
}

/// What a drawing consists of: the commands for the canvas and, where an input method has to
/// know, the opposite corners of the caret.
#[derive(Debug, PartialEq)]
pub struct Drawing<S> {
    pub ops: Vec<DrawOp<S>>,
    pub ime_area: Option<(Vec2D<S>, Vec2D<S>)>,
}

// ---------------------------------------------------------------------------------------------
// Selection

/// A tenth of the height of a line, by which everything that marks text is lower than the text.
pub open spec fn drop_spec<S: Scalar>(cursor: CursorMetrics<S>) -> S {
    cursor.line_height.spec_times(ratio_spec(1, 10))
}

/// The top of what marks text in a line.
pub open spec fn mark_top_spec<S: Scalar>(line: LineLayout<S>, cursor: CursorMetrics<S>) -> S {
    line.baseline.spec_plus(cursor.top_offset).spec_plus(drop_spec(cursor))
}

fn mark_top<S: Scalar>(line: &LineLayout<S>, cursor: &CursorMetrics<S>) -> (r: S)
    ensures
        r == mark_top_spec(*line, *cursor),
{
    let offset_y = cursor.line_height.times(ratio(1, 10));
    line.baseline.plus(cursor.top_offset).plus(offset_y)
}

/// The command that marks a selected stretch: transparent blue.
pub open spec fn selection_op<S: Scalar>(span: Span<S>, cursor: CursorMetrics<S>) -> DrawOp<S> {
    DrawOp::FillRect {
        pos: Vec2D { x: span.start_x, y: mark_top_spec(span.line, cursor) },
        size: Vec2D { x: span.end_x.spec_minus(span.start_x), y: cursor.line_height },
        ink: Ink::Rgba {
            r: ratio_spec(3, 10),
            g: ratio_spec(5, 10),
            b: S::spec_from_int(1),
            a: ratio_spec(3, 10),
        },
    }
}

fn draw_selection<S: Scalar>(
    ops: &mut Vec<DrawOp<S>>,
    spans: &Vec<Span<S>>,
    cursor: &CursorMetrics<S>,
)
    ensures
        final(ops)@ == old(ops)@ + spans@.map_values(|s: Span<S>| selection_op(s, *cursor)),
{
    let ghost wanted = spans@.map_values(|s: Span<S>| selection_op(s, *cursor));
    let ghost start = ops@;
    assert(wanted.take(0) =~= seq![]);
    assert(ops@ =~= start + wanted.take(0));
    let mut i: usize = 0;
    while i < spans.len()
        invariant
            i <= spans.len(),
            wanted == spans@.map_values(|s: Span<S>| selection_op(s, *cursor)),
            ops@ == start + wanted.take(i as int),
        decreases spans.len() - i,
    {
        let span = &spans[i];
        ops.push(
            DrawOp::FillRect {
                pos: Vec2D::new(span.start_x, mark_top(&span.line, cursor)),
                size: Vec2D::new(span.end_x.minus(span.start_x), cursor.line_height),
                ink: Ink::Rgba {
                    r: ratio(3, 10),
                    g: ratio(5, 10),
                    b: S::from_int(1),
                    a: ratio(3, 10),
                },
            },
        );
        assert(ops@ =~= start + wanted.take(i + 1));
        i += 1;
    }
    assert(wanted.take(spans@.len() as int) =~= wanted);
}

// ---------------------------------------------------------------------------------------------
// Characters, and the rectangle round them

/// The rectangle of a character in whole pixels.
pub open spec fn glyph_rect<S: Scalar>(span: Span<S>, cursor: CursorMetrics<S>) -> Rectangle {
    Rectangle {
        x: span.start_x.spec_to_int(),
        y: mark_top_spec(span.line, cursor).spec_to_int(),
        width: span.end_x.spec_minus(span.start_x).spec_to_int(),
        height: cursor.line_height.spec_to_int(),
    }
}

/// The rectangle round the characters so far: its corner is fixed by the first of them, its size
/// follows the others.
#[derive(Clone, Copy, Debug, PartialEq)]
pub struct TextBounds<S> {
    pub empty: bool,
    pub tl: Vec2D<S>,
    pub wh: Vec2D<S>,
}

impl<S: Scalar> TextBounds<S> {
    pub open spec fn spec_new() -> Self {
        TextBounds { empty: true, tl: Vec2D::spec_zero(), wh: Vec2D::spec_zero() }
    }

    /// The rectangle with one more character.
    pub open spec fn spec_grow(self, span: Span<S>, cursor: CursorMetrics<S>) -> Self {
        let one = S::spec_from_int(1);
        let y = mark_top_spec(span.line, cursor);
        let tl = if self.empty {
            Vec2D { x: span.start_x.spec_minus(one), y: y.spec_minus(one) }
        } else {
            self.tl
        };
        TextBounds {
            empty: false,
            tl,
            wh: Vec2D {
                x: span.end_x.spec_minus(tl.x).spec_larger(self.wh.x),
                y: y.spec_plus(cursor.line_height).spec_minus(tl.y).spec_plus(one),
            },
        }
    }

    /// The rectangle with the first `n` characters of a line.
    pub open spec fn grow_line(self, spans: Seq<Span<S>>, cursor: CursorMetrics<S>, n: nat) -> Self
        decreases n,
    {
        if n == 0 {
            self
        } else {
            self.grow_line(spans, cursor, (n - 1) as nat).spec_grow(spans[n - 1], cursor)
        }
    }

    /// The rectangle with the first `n` lines.
    pub open spec fn grow_lines(
        self,
        lines: Seq<Vec<Span<S>>>,
        cursor: CursorMetrics<S>,
        n: nat,
    ) -> Self
        decreases n,
    {
        if n == 0 {
            self
        } else {
            self.grow_lines(lines, cursor, (n - 1) as nat).grow_line(
                lines[n - 1]@,
                cursor,
                lines[n - 1]@.len(),
            )
        }
    }

    /// The rectangle with room for the last pixel of the width.
    pub open spec fn spec_closed(self) -> Self {
        TextBounds {
            wh: Vec2D { x: self.wh.x.spec_plus(S::spec_from_int(1)), y: self.wh.y },
            ..self
        }
    }

    /// The rectangle in whole pixels.
    pub open spec fn spec_rect(self) -> Rectangle {
        Rectangle {
            x: self.tl.x.spec_to_int(),
            y: self.tl.y.spec_to_int(),
            width: self.wh.x.spec_to_int(),
            height: self.wh.y.spec_to_int(),
        }
    }

    fn grow(&mut self, span: &Span<S>, cursor: &CursorMetrics<S>)
        ensures
            *final(self) == old(self).spec_grow(*span, *cursor),
    {
        let one = S::from_int(1);
        let y = mark_top(&span.line, cursor);
        if self.empty {
            self.tl = Vec2D::new(span.start_x.minus(one), y.minus(one));
            self.empty = false;
        }
        self.wh = Vec2D::new(
            span.end_x.minus(self.tl.x).larger(self.wh.x),
            y.plus(cursor.line_height).minus(self.tl.y).plus(one),
        );
    }
}

/// The rectangle round a text whose characters are at `glyphs`.
pub open spec fn text_bounds<S: Scalar>(
    glyphs: Seq<Vec<Span<S>>>,
    cursor: CursorMetrics<S>,
) -> TextBounds<S> {
    TextBounds::spec_new().grow_lines(glyphs, cursor, glyphs.len()).spec_closed()
}

/// Finds the rectangle round the text, and those of its characters in whole pixels.
pub fn measure_glyphs<S: Scalar>(glyphs: &Vec<Vec<Span<S>>>, cursor: &CursorMetrics<S>) -> (r: (
    TextBounds<S>,
    Vec<Vec<Rectangle>>,
))
    ensures
        r.0 == text_bounds(glyphs@, *cursor),
        r.1@.len() == glyphs@.len(),
        forall|i: int|
            0 <= i < glyphs@.len() ==> (#[trigger] r.1@[i])@ == glyphs@[i]@.map_values(
                |s: Span<S>| glyph_rect(s, *cursor),
            ),
{
    let mut bounds = TextBounds { empty: true, tl: Vec2D::zero(), wh: Vec2D::zero() };
    let mut rects: Vec<Vec<Rectangle>> = Vec::new();
    let mut i: usize = 0;
    while i < glyphs.len()
        invariant
            i <= glyphs.len(),
            rects@.len() == i,
            bounds == TextBounds::spec_new().grow_lines(glyphs@, *cursor, i as nat),
            forall|j: int|
                0 <= j < i ==> (#[trigger] rects@[j])@ == glyphs@[j]@.map_values(
                    |s: Span<S>| glyph_rect(s, *cursor),
                ),
        decreases glyphs.len() - i,
    {
        let line = &glyphs[i];
        let ghost before = bounds;
        let ghost wanted = line@.map_values(|s: Span<S>| glyph_rect(s, *cursor));
        let mut line_rects: Vec<Rectangle> = Vec::new();
        let mut j: usize = 0;
        assert(wanted.take(0) =~= seq![]);
        while j < line.len()
            invariant
                j <= line.len(),
                wanted == line@.map_values(|s: Span<S>| glyph_rect(s, *cursor)),
                line_rects@ == wanted.take(j as int),
                bounds == before.grow_line(line@, *cursor, j as nat),
            decreases line.len() - j,
        {
            let span = &line[j];
            line_rects.push(
                Rectangle::new(
                    span.start_x.to_int(),
                    mark_top(&span.line, cursor).to_int(),
                    span.end_x.minus(span.start_x).to_int(),
                    cursor.line_height.to_int(),
                ),
            );
            assert(line_rects@ =~= wanted.take(j + 1));
            bounds.grow(span, cursor);
            j += 1;
        }
        assert(line_rects@ =~= wanted);
        rects.push(line_rects);
        i += 1;
    }
    bounds.wh = Vec2D::new(bounds.wh.x.plus(S::from_int(1)), bounds.wh.y);
    (bounds, rects)
}

/// The command that draws the rectangle round a text at `pos`: transparent orange.
pub open spec fn bounds_op<S: Scalar>(pos: Vec2D<S>, bounds: TextBounds<S>) -> DrawOp<S> {
    DrawOp::MoveAndStrokeRect {
        from: pos,
        pos: bounds.tl,
        size: bounds.wh,
        ink: Ink::Rgba {
            r: S::spec_from_int(1),
            g: ratio_spec(5, 10),
            b: ratio_spec(3, 10),
            a: ratio_spec(3, 10),
        },
        width: S::spec_from_int(2),
    }
}

// ---------------------------------------------------------------------------------------------
// The text itself

/// The commands that draw one line: its decoration, and over it the text.
pub open spec fn line_ops<S: Scalar>(
    left: S,
    decoration: Option<Decoration<S>>,
    line: LineLayout<S>,
) -> Seq<DrawOp<S>> {
    let pos = Vec2D { x: left, y: line.baseline };
    let text = DrawOp::FillText { pos, range: line.range, ink: Ink::Style };
    match decoration {
        None => seq![text],
        Some(decoration) => {
            let ink = Ink::StyleTinted(decoration.color);
            match decoration.kind {
                DecorationKind::Shadow { offset } => seq![
                    DrawOp::FillText { pos: pos.spec_plus(offset), range: line.range, ink },
                    text,
                ],
                DecorationKind::Outline { width } => seq![
                    DrawOp::StrokeText { pos, range: line.range, ink, width },
                    text,
                ],
            }
        },
    }
}

/// The commands that draw the first `n` lines.
pub open spec fn lines_ops<S: Scalar>(
    left: S,
    decoration: Option<Decoration<S>>,
    lines: Seq<LineLayout<S>>,
    n: nat,
) -> Seq<DrawOp<S>>
    decreases n,
{
    if n == 0 {
        seq![]
    } else {
        lines_ops(left, decoration, lines, (n - 1) as nat) + line_ops(
            left,
            decoration,
            lines[n - 1],
        )
    }
}

fn draw_lines<S: Scalar>(
    ops: &mut Vec<DrawOp<S>>,
    left: S,
    decoration: Option<Decoration<S>>,
    lines: &Vec<LineLayout<S>>,
)
    ensures
        final(ops)@ == old(ops)@ + lines_ops(left, decoration, lines@, lines@.len()),
{
    let ghost start = ops@;
    assert(ops@ =~= start + lines_ops(left, decoration, lines@, 0));
    let mut i: usize = 0;
    while i < lines.len()
        invariant
            i <= lines.len(),
            ops@ == start + lines_ops(left, decoration, lines@, i as nat),
        decreases lines.len() - i,
    {
        let line = &lines[i];
        let pos = Vec2D::new(left, line.baseline);
        if let Some(decoration) = decoration {
            let ink: Ink<S> = Ink::StyleTinted(decoration.color);
            match decoration.kind {
                DecorationKind::Shadow { offset } => {
                    ops.push(
                        DrawOp::FillText { pos: pos.plus(offset), range: line.range, ink },
                    );
                },
                DecorationKind::Outline { width } => {
                    ops.push(DrawOp::StrokeText { pos, range: line.range, ink, width });
                },
            }
        }
        ops.push(DrawOp::FillText { pos, range: line.range, ink: Ink::Style });
        assert(ops@ =~= start + lines_ops(left, decoration, lines@, (i + 1) as nat));
        i += 1;
    }
}

// ---------------------------------------------------------------------------------------------
// The text that is being composed

/// How wide a stretch is: never less than nothing.
pub open spec fn span_width<S: Scalar>(span: Span<S>) -> S {
    span.end_x.spec_minus(span.start_x).spec_larger(S::spec_from_int(0))
}

/// The commands that fill the background of a part in one place: none where it is too narrow.
pub open spec fn background_ops<S: Scalar>(
    place: Span<S>,
    color: Color,
    cursor: CursorMetrics<S>,
) -> Seq<DrawOp<S>> {
    if span_width(place).spec_at_most(epsilon_spec()) {
        seq![]
    } else {
        seq![
            DrawOp::FillRect {
                pos: Vec2D { x: place.start_x, y: mark_top_spec(place.line, cursor) },
                size: Vec2D { x: span_width(place), y: cursor.line_height },
                ink: Ink::Solid(color),
            },
        ]
    }
}

/// The commands that fill the background of a part in its first `n` places.
pub open spec fn span_background_ops<S: Scalar>(
    measured: MeasuredSpan<S>,
    cursor: CursorMetrics<S>,
    n: nat,
) -> Seq<DrawOp<S>>
    decreases n,
{
    if n == 0 || measured.span.background is None {
        seq![]
    } else {
        span_background_ops(measured, cursor, (n - 1) as nat) + background_ops(
            measured.places@[n - 1],
            measured.span.background->0,
            cursor,
        )
    }
}

/// The commands that fill the backgrounds of the first `n` parts.
pub open spec fn preedit_background_ops<S: Scalar>(
    measured: Seq<MeasuredSpan<S>>,
    cursor: CursorMetrics<S>,
    n: nat,
) -> Seq<DrawOp<S>>
    decreases n,
{
    if n == 0 {
        seq![]
    } else {
        preedit_background_ops(measured, cursor, (n - 1) as nat) + span_background_ops(
            measured[n - 1],
            cursor,
            measured[n - 1].places@.len(),
        )
    }
}

/// The commands that draw the text of a line once more, in another colour, as far as it is in one
/// place: none where that is too narrow.
pub open spec fn foreground_ops<S: Scalar>(
    left: S,
    place: Span<S>,
    color: Color,
    cursor: CursorMetrics<S>,
) -> Seq<DrawOp<S>> {
    let (one, two, four) = (S::spec_from_int(1), S::spec_from_int(2), S::spec_from_int(4));
    if span_width(place).spec_at_most(epsilon_spec()) {
        seq![]
    } else {
        seq![
            DrawOp::Save,
            DrawOp::Scissor {
                pos: Vec2D {
                    x: place.start_x.spec_minus(one),
                    y: place.line.baseline.spec_plus(cursor.top_offset).spec_minus(one),
                },
                size: Vec2D {
                    x: span_width(place).spec_plus(two),
                    y: cursor.line_height.spec_plus(four),
                },
            },
            DrawOp::FillText {
                pos: Vec2D { x: left, y: place.line.baseline },
                range: place.line.range,
                ink: Ink::StyleRecoloured(color),
            },
            DrawOp::Restore,
        ]
    }
}

/// Whether a line is high enough for an underline to have a thickness.
pub open spec fn underline_fits<S: Scalar>(line_height: S) -> bool {
    S::spec_from_int(1).spec_at_most(line_height.spec_over(S::spec_from_int(2)))
}

/// Whether a line is high enough for an underline to have a thickness.
pub fn can_underline<S: Scalar>(line_height: S) -> (r: bool)
    ensures
        r == underline_fits(line_height),
{
    S::from_int(1).at_most(line_height.over(S::from_int(2)))
}

/// The thickness of an underline: a fiftieth of the height, but at least one pixel and at most
/// half of the height.
pub open spec fn underline_thickness<S: Scalar>(line_height: S) -> S {
    let (least, most) = (S::spec_from_int(1), line_height.spec_over(S::spec_from_int(2)));
    let thickness = line_height.spec_times(ratio_spec(2, 100));
    if thickness.spec_below(least) {
        least
    } else if most.spec_below(thickness) {
        most
    } else {
        thickness
    }
}

/// The commands that underline one place: none where it is too narrow.
pub open spec fn underline_ops<S: Scalar>(
    place: Span<S>,
    line_top: S,
    line_height: S,
    underline: UnderlineKind,
    color: Color,
) -> Seq<DrawOp<S>> {
    let width = underline_thickness(line_height);
    let base_y = line_top.spec_plus(line_height).spec_plus(S::spec_from_int(2));
    let line = |y: S|
        DrawOp::StrokeLine {
            from: Vec2D { x: place.start_x, y },
            to: Vec2D { x: place.end_x, y },
            ink: Ink::Solid(color),
            width,
        };
    if place.end_x.spec_minus(place.start_x).spec_at_most(epsilon_spec()) {
        seq![]
    } else {
        match underline {
            UnderlineKind::NoLine => seq![],
            UnderlineKind::Single => seq![line(base_y)],
            UnderlineKind::Double => seq![
                line(base_y.spec_minus(width)),
                line(base_y.spec_plus(width.spec_times(ratio_spec(5, 10)))),
            ],
        }
    }
}

/// The colour of an underline: its own, else that of the text, else that of the style.
pub open spec fn underline_color(span: PreeditSpan, style: Style) -> Color {
    match (span.underline_color, span.foreground) {
        (Some(color), _) => color,
        (None, Some(color)) => color,
        (None, None) => style.color,
    }
}

/// The commands that draw a part over the text in one place: its colour, then its underline.
pub open spec fn overlay_ops<S: Scalar>(
    left: S,
    style: Style,
    span: PreeditSpan,
    place: Span<S>,
    cursor: CursorMetrics<S>,
) -> Seq<DrawOp<S>> {
    (match span.foreground {
        Some(color) => foreground_ops(left, place, color, cursor),
        None => seq![],
    }) + (if span.underline is NoLine {
        seq![]
    } else {
        underline_ops(
            place,
            place.line.baseline.spec_plus(cursor.top_offset),
            cursor.line_height,
            span.underline,
            underline_color(span, style),
        )
    })
}

/// The commands that draw a part over the text in its first `n` places.
pub open spec fn span_overlay_ops<S: Scalar>(
    left: S,
    style: Style,
    measured: MeasuredSpan<S>,
    cursor: CursorMetrics<S>,
    n: nat,
) -> Seq<DrawOp<S>>
    decreases n,
{
    if n == 0 {
        seq![]
    } else {
        span_overlay_ops(left, style, measured, cursor, (n - 1) as nat) + overlay_ops(
            left,
            style,
            measured.span,
            measured.places@[n - 1],
            cursor,
        )
    }
}

/// The commands that draw the first `n` parts over the text.
pub open spec fn preedit_overlay_ops<S: Scalar>(
    left: S,
    style: Style,
    measured: Seq<MeasuredSpan<S>>,
    cursor: CursorMetrics<S>,
    n: nat,
) -> Seq<DrawOp<S>>
    decreases n,
{
    if n == 0 {
        seq![]
    } else {
        preedit_overlay_ops(left, style, measured, cursor, (n - 1) as nat) + span_overlay_ops(
            left,
            style,
            measured[n - 1],
            cursor,
            measured[n - 1].places@.len(),
        )
    }
}

/// Whether some part is underlined somewhere.
pub open spec fn has_underline<S: Scalar>(measured: Seq<MeasuredSpan<S>>) -> bool {
    exists|i: int|
        0 <= i < measured.len() && !((#[trigger] measured[i]).span.underline is NoLine)
            && measured[i].places@.len() > 0
}

/// The commands that draw the text that is being composed: all backgrounds, then everything else.
pub open spec fn preedit_ops<S: Scalar>(
    left: S,
    style: Style,
    measured: Seq<MeasuredSpan<S>>,
    cursor: CursorMetrics<S>,
) -> Seq<DrawOp<S>> {
    preedit_background_ops(measured, cursor, measured.len()) + preedit_overlay_ops(
        left,
        style,
        measured,
        cursor,
        measured.len(),
    )
}

fn width_of<S: Scalar>(span: &Span<S>) -> (r: S)
    ensures
        r == span_width(*span),
{
    span.end_x.minus(span.start_x).larger(S::from_int(0))
}

/// Fills the backgrounds of the parts of the text that is being composed.
pub fn draw_preedit_background<S: Scalar>(
    ops: &mut Vec<DrawOp<S>>,
    measured: &Vec<MeasuredSpan<S>>,
    cursor: &CursorMetrics<S>,
)
    ensures
        final(ops)@ == old(ops)@ + preedit_background_ops(measured@, *cursor, measured@.len()),
{
    let ghost start = ops@;
    assert(ops@ =~= start + preedit_background_ops(measured@, *cursor, 0));
    let mut i: usize = 0;
    while i < measured.len()
        invariant
            i <= measured.len(),
            ops@ == start + preedit_background_ops(measured@, *cursor, i as nat),
        decreases measured.len() - i,
    {
        let part = &measured[i];
        let ghost before = ops@;
        assert(ops@ =~= before + span_background_ops(*part, *cursor, 0));
        if let Some(color) = part.span.background {
            let mut j: usize = 0;
            while j < part.places.len()
                invariant
                    j <= part.places.len(),
                    part.span.background == Some(color),
                    ops@ == before + span_background_ops(*part, *cursor, j as nat),
                decreases part.places.len() - j,
            {
                let place = &part.places[j];
                let width = width_of(place);
                if !width.at_most(epsilon()) {
                    ops.push(
                        DrawOp::FillRect {
                            pos: Vec2D::new(place.start_x, mark_top(&place.line, cursor)),
                            size: Vec2D::new(width, cursor.line_height),
                            ink: Ink::Solid(color),
                        },
                    );
                }
                assert(ops@ =~= before + span_background_ops(*part, *cursor, (j + 1) as nat));
                j += 1;
            }
        }
        assert(ops@ =~= before + span_background_ops(*part, *cursor, part.places@.len()));
        assert(ops@ =~= start + preedit_background_ops(measured@, *cursor, (i + 1) as nat));
        i += 1;
    }
}

/// Underlines one place in a line whose top is at `line_top`.
pub fn draw_underline_segment<S: Scalar>(
    ops: &mut Vec<DrawOp<S>>,
    place: &Span<S>,
    line_top: S,
    line_height: S,
    underline: UnderlineKind,
    color: Color,
)
    requires
        underline_fits(line_height),
    ensures
        final(ops)@ == old(ops)@ + underline_ops(*place, line_top, line_height, underline, color),
{
    let ghost start = ops@;
    let (least, most) = (S::from_int(1), line_height.over(S::from_int(2)));
    let mut thickness = line_height.times(ratio(2, 100));
    if thickness.below(least) {
        thickness = least;
    } else if most.below(thickness) {
        thickness = most;
    }
    let base_y = line_top.plus(line_height).plus(S::from_int(2));
    let (start_x, end_x) = (place.start_x, place.end_x);
    if !end_x.minus(start_x).at_most(epsilon()) {
        match underline {
            UnderlineKind::NoLine => {},
            UnderlineKind::Single => {
                ops.push(
                    DrawOp::StrokeLine {
                        from: Vec2D::new(start_x, base_y),
                        to: Vec2D::new(end_x, base_y),
                        ink: Ink::Solid(color),
                        width: thickness,
                    },
                );
            },
            UnderlineKind::Double => {
                let upper = base_y.minus(thickness);
                let lower = base_y.plus(thickness.times(ratio(5, 10)));
                ops.push(
                    DrawOp::StrokeLine {
                        from: Vec2D::new(start_x, upper),
                        to: Vec2D::new(end_x, upper),
                        ink: Ink::Solid(color),
                        width: thickness,
                    },
                );
                ops.push(
                    DrawOp::StrokeLine {
                        from: Vec2D::new(start_x, lower),
                        to: Vec2D::new(end_x, lower),
                        ink: Ink::Solid(color),
                        width: thickness,
                    },
                );
            },
        }
    }
    assert(ops@ =~= start + underline_ops(*place, line_top, line_height, underline, color));
}

fn draw_overlay<S: Scalar>(
    ops: &mut Vec<DrawOp<S>>,
    left: S,
    style: Style,
    span: &PreeditSpan,
    place: &Span<S>,
    cursor: &CursorMetrics<S>,
)
    requires
        !(span.underline is NoLine) ==> underline_fits(cursor.line_height),
    ensures
        final(ops)@ == old(ops)@ + overlay_ops(left, style, *span, *place, *cursor),
{
    let ghost start = ops@;
    if let Some(color) = span.foreground {
        let width = width_of(place);
        if !width.at_most(epsilon()) {
            ops.push(DrawOp::Save);
            ops.push(
                DrawOp::Scissor {
                    pos: Vec2D::new(
                        place.start_x.minus(S::from_int(1)),
                        place.line.baseline.plus(cursor.top_offset).minus(S::from_int(1)),
                    ),
                    size: Vec2D::new(
                        width.plus(S::from_int(2)),
                        cursor.line_height.plus(S::from_int(4)),
                    ),
                },
            );
            ops.push(
                DrawOp::FillText {
                    pos: Vec2D::new(left, place.line.baseline),
                    range: place.line.range,
                    ink: Ink::StyleRecoloured(color),
                },
            );
            ops.push(DrawOp::Restore);
        }
        assert(ops@ =~= start + foreground_ops(left, *place, color, *cursor));
    }
    match span.underline {
        UnderlineKind::NoLine => {},
        _ => {
            let color = match (span.underline_color, span.foreground) {
                (Some(color), _) => color,
                (None, Some(color)) => color,
                (None, None) => style.color,
            };
            let line_top = place.line.baseline.plus(cursor.top_offset);
            draw_underline_segment(ops, place, line_top, cursor.line_height, span.underline, color);
        },
    }
    assert(ops@ =~= start + overlay_ops(left, style, *span, *place, *cursor));
}

/// Draws the text that is being composed, over the text.
pub fn draw_preedit_overlays<S: Scalar>(
    ops: &mut Vec<DrawOp<S>>,
    left: S,
    style: Style,
    measured: &Vec<MeasuredSpan<S>>,
    cursor: &CursorMetrics<S>,
)
    requires
        has_underline(measured@) ==> underline_fits(cursor.line_height),
    ensures
        final(ops)@ == old(ops)@ + preedit_ops(left, style, measured@, *cursor),
{
    let ghost first = ops@;
    draw_preedit_background(ops, measured, cursor);
    let ghost start = ops@;
    assert(ops@ =~= start + preedit_overlay_ops(left, style, measured@, *cursor, 0));
    let mut i: usize = 0;
    while i < measured.len()
        invariant
            i <= measured.len(),
            has_underline(measured@) ==> underline_fits(cursor.line_height),
            ops@ == start + preedit_overlay_ops(left, style, measured@, *cursor, i as nat),
        decreases measured.len() - i,
    {
        let part = &measured[i];
        let ghost before = ops@;
        assert(ops@ =~= before + span_overlay_ops(left, style, *part, *cursor, 0));
        let mut j: usize = 0;
        while j < part.places.len()
            invariant
                j <= part.places.len(),
                i < measured.len(),
                *part == measured@[i as int],
                has_underline(measured@) ==> underline_fits(cursor.line_height),
                ops@ == before + span_overlay_ops(left, style, *part, *cursor, j as nat),
            decreases part.places.len() - j,
        {
            draw_overlay(ops, left, style, &part.span, &part.places[j], cursor);
            assert(ops@ =~= before + span_overlay_ops(
                left,
                style,
                *part,
                *cursor,
                (j + 1) as nat,
            ));
            j += 1;
        }
        assert(ops@ =~= start + preedit_overlay_ops(
            left,
            style,
            measured@,
            *cursor,
            (i + 1) as nat,
        ));
        i += 1;
    }
    assert(ops@ =~= first + preedit_ops(left, style, measured@, *cursor));
}

// ---------------------------------------------------------------------------------------------
// The caret

/// The commands that draw the caret.
pub open spec fn caret_ops<S: Scalar>(caret: Vec2D<S>, cursor: CursorMetrics<S>) -> Seq<DrawOp<S>> {
    let extra = drop_spec(cursor);
    seq![
        DrawOp::FillLine {
            from: Vec2D { x: caret.x, y: caret.y.spec_plus(extra) },
            to: Vec2D {
                x: caret.x,
                y: caret.y.spec_plus(cursor.line_height).spec_plus(extra),
            },
            ink: Ink::StyleDefaultFont,
        },
    ]
}

/// Opposite corners of the caret, which is one pixel wide, on the image.
pub open spec fn caret_area<S: Scalar>(caret: Vec2D<S>, cursor: CursorMetrics<S>) -> (
    Vec2D<S>,
    Vec2D<S>,
) {
    let (extra, one) = (drop_spec(cursor), S::spec_from_int(1));
    (
        Vec2D { x: caret.x, y: caret.y.spec_plus(extra) },
        Vec2D {
            x: caret.x.spec_plus(one),
            y: caret.y.spec_plus(cursor.line_height).spec_plus(extra).spec_plus(one),
        },
    )
}

/// The extent of a caret on the screen: at least one pixel.
pub open spec fn logical_extent<S: Scalar>(from: S, to: S, scale: S) -> i32 {
    to.spec_minus(from).spec_magnitude().spec_over(scale).spec_ceil().spec_larger(
        S::spec_from_int(1),
    ).spec_to_int()
}

/// Where the caret is on the screen, whose pixels are `scale_factor` to a logical one; its
/// opposite corners are given in pixels.
pub open spec fn caret_location<S: Scalar>(
    corner: Vec2D<S>,
    opposite: Vec2D<S>,
    scale_factor: i32,
) -> Rectangle {
    let scale = S::spec_from_int(
        if scale_factor > 1 {
            scale_factor
        } else {
            1
        },
    );
    let height = logical_extent(corner.y, opposite.y, scale);
    Rectangle {
        x: corner.x.spec_over(scale).spec_floor().spec_to_int(),
        y: corner.y.spec_over(scale).spec_floor().spec_to_int(),
        width: logical_extent(corner.x, opposite.x, scale),
        height: if height > 1 {
            height
        } else {
            1
        },
    }
}

/// Where the caret is on the screen, for an input method to put its own window there.
pub fn ime_cursor_location<S: Scalar>(
    corner: Vec2D<S>,
    opposite: Vec2D<S>,
    scale_factor: i32,
) -> (r: Rectangle)
    ensures
        r == caret_location(corner, opposite, scale_factor),
{
    let scale = S::from_int(
        if scale_factor > 1 {
            scale_factor
        } else {
            1
        },
    );
    let one = S::from_int(1);
    let logical_x = corner.x.over(scale).floor().to_int();
    let logical_y = corner.y.over(scale).floor().to_int();
    let logical_width = opposite.x.minus(corner.x).magnitude().over(scale).ceil().larger(
        one,
    ).to_int();
    let logical_height = opposite.y.minus(corner.y).magnitude().over(scale).ceil().larger(
        one,
    ).to_int();
    Rectangle::new(
        logical_x,
        logical_y,
        logical_width,
        if logical_height > 1 {
            logical_height
        } else {
            1
        },
    )
}

// ---------------------------------------------------------------------------------------------
// All of it

impl<S: Scalar> Text<S> {
    /// The parts of the text that is being composed that a drawing shows.
    pub open spec fn drawn_preedit(self, frame: Frame<S>) -> Option<Seq<MeasuredSpan<S>>> {
        match frame.preedit {
            Some(measured) if self.editing && self.preedit is Some => Some(measured@),
            _ => None,
        }
    }

    /// The commands that draw the text: the selection, the rectangle round the text, the text
    /// line by line, what is being composed, and the caret, which does not show beside a
    /// selection.
    pub open spec fn spec_draw(self, frame: Frame<S>) -> Seq<DrawOp<S>> {
        let decoration = self.effect.spec_decoration(self.style.color, frame.line_width);
        (match frame.selection {
            Some(spans) => spans@.map_values(|s: Span<S>| selection_op(s, frame.cursor)),
            None => seq![],
        }) + (if self.draw_rect {
            seq![bounds_op(self.pos, text_bounds(frame.glyphs@, frame.cursor))]
        } else {
            seq![]
        }) + lines_ops(self.pos.x, decoration, frame.lines@, frame.lines@.len()) + (
        match self.drawn_preedit(frame) {
            Some(measured) => preedit_ops(self.pos.x, self.style, measured, frame.cursor),
            None => seq![],
        }) + (if self.editing && frame.selection is None {
            caret_ops(frame.caret, frame.cursor)
        } else {
            seq![]
        })
    }

    /// Where a drawing has put the text.
    pub open spec fn laid_out(frame: Frame<S>, layout: TextLayout) -> bool {
        &&& layout.rect == text_bounds(frame.glyphs@, frame.cursor).spec_rect()
        &&& layout.line_ranges@ == frame.lines@.map_values(|l: LineLayout<S>| l.range)
        &&& layout.glyphs@.len() == frame.glyphs@.len()
        &&& forall|i: int|
            0 <= i < frame.glyphs@.len() ==> (#[trigger] layout.glyphs@[i])@
                == frame.glyphs@[i]@.map_values(|s: Span<S>| glyph_rect(s, frame.cursor))
    }

    /// The fonts that the text is set in: its own, or the default font if it has none.
    pub fn fonts(&self, font: u64) -> (r: Vec<u64>)
        ensures
            r@ == (if self.font_ids@.len() == 0 {
                seq![font]
            } else {
                self.font_ids@
            }),
    {
        if self.font_ids.len() == 0 {
            vec![font]
        } else {
            self.font_ids.clone()
        }
    }

    /// Draws the caret of a text that is being edited, where it is visible, and finds the corners
    /// of the caret for an input method.
    fn draw_cursor_and_update_ime(
        &self,
        ops: &mut Vec<DrawOp<S>>,
        caret: Vec2D<S>,
        cursor: &CursorMetrics<S>,
    ) -> (r: Option<(Vec2D<S>, Vec2D<S>)>)
        ensures
            final(ops)@ == old(ops)@ + (if self.editing && self.cursor_visible {
                caret_ops(caret, *cursor)
            } else {
                seq![]
            }),
            r == (if self.editing && self.im_context is Some {
                Some(caret_area(caret, *cursor))
            } else {
                None
            }),
    {
        let extra_height = cursor.line_height.times(ratio(1, 10));
        let top = caret.y.plus(extra_height);
        let bottom = caret.y.plus(cursor.line_height).plus(extra_height);
        if self.editing && self.cursor_visible {
            ops.push(
                DrawOp::FillLine {
                    from: Vec2D::new(caret.x, top),
                    to: Vec2D::new(caret.x, bottom),
                    ink: Ink::StyleDefaultFont,
                },
            );
        }
        if self.editing && self.im_context.is_some() {
            Some(
                (
                    Vec2D::new(caret.x, top),
                    Vec2D::new(caret.x.plus(S::from_int(1)), bottom.plus(S::from_int(1))),
                ),
            )
        } else {
            None
        }
    }

    /// Draws the text, and remembers where it is.
    pub fn draw(&mut self, frame: Frame<S>) -> (r: Drawing<S>)
        requires
            old(self).drawn_preedit(frame) matches Some(measured) ==> (has_underline(measured)
                ==> underline_fits(frame.cursor.line_height)),
        ensures
            r.ops@ == old(self).spec_draw(frame),
            r.ime_area == (if old(self).editing && old(self).im_context is Some {
                Some(caret_area(frame.caret, frame.cursor))
            } else {
                None
            }),
            *final(self) == (Text {
                layout: final(self).layout,
                cursor_visible: frame.selection is None,
                ..*old(self)
            }),
            final(self).layout matches Some(layout) && Self::laid_out(frame, layout),
    {
        let ghost before = *self;
        let cursor = frame.cursor;
        let mut ops: Vec<DrawOp<S>> = Vec::new();

        match &frame.selection {
            Some(spans) => {
                draw_selection(&mut ops, spans, &cursor);
                self.cursor_visible = false;
            },
            None => {
                self.cursor_visible = true;
            },
        }
        let ghost with_selection = ops@;
        assert(with_selection =~= (match frame.selection {
            Some(spans) => spans@.map_values(|s: Span<S>| selection_op(s, frame.cursor)),
            None => seq![],
        }));

        let (bounds, glyphs) = measure_glyphs(&frame.glyphs, &cursor);
        let rect = Rectangle::new(
            bounds.tl.x.to_int(),
            bounds.tl.y.to_int(),
            bounds.wh.x.to_int(),
            bounds.wh.y.to_int(),
        );
        let mut line_ranges: Vec<ByteRange> = Vec::new();
        let mut i: usize = 0;
        let ghost ranges = frame.lines@.map_values(|l: LineLayout<S>| l.range);
        assert(ranges.take(0) =~= seq![]);
        while i < frame.lines.len()
            invariant
                i <= frame.lines.len(),
                ranges == frame.lines@.map_values(|l: LineLayout<S>| l.range),
                line_ranges@ == ranges.take(i as int),
            decreases frame.lines.len() - i,
        {
            line_ranges.push(frame.lines[i].range);
            assert(line_ranges@ =~= ranges.take(i + 1));
            i += 1;
        }
        assert(line_ranges@ =~= ranges);
        self.layout = Some(TextLayout { rect, glyphs, line_ranges });

        if self.draw_rect {
            ops.push(
                DrawOp::MoveAndStrokeRect {
                    from: self.pos,
                    pos: bounds.tl,
                    size: bounds.wh,
                    ink: Ink::Rgba {
                        r: S::from_int(1),
                        g: ratio(5, 10),
                        b: ratio(3, 10),
                        a: ratio(3, 10),
                    },
                    width: S::from_int(2),
                },
            );
        }
        let ghost with_bounds = ops@;
        assert(with_bounds =~= with_selection + (if before.draw_rect {
            seq![bounds_op(before.pos, text_bounds(frame.glyphs@, frame.cursor))]
        } else {
            seq![]
        }));

        let decoration = self.effect.decoration(self.style.color, frame.line_width);
        draw_lines(&mut ops, self.pos.x, decoration, &frame.lines);
        let ghost with_lines = ops@;

        if self.editing && self.preedit.is_some() {
            if let Some(measured) = &frame.preedit {
                draw_preedit_overlays(&mut ops, self.pos.x, self.style, measured, &cursor);
            }
        }
        let ghost with_preedit = ops@;
        assert(with_preedit =~= with_lines + (match before.drawn_preedit(frame) {
            Some(measured) => preedit_ops(before.pos.x, before.style, measured, frame.cursor),
            None => seq![],
        }));

        let ime_area = self.draw_cursor_and_update_ime(&mut ops, frame.caret, &cursor);
        assert(ops@ =~= before.spec_draw(frame));
        Drawing { ops, ime_area }
    }
}

} // verus!
