//! Which character of a text the mouse points at.

use vstd::prelude::*;

use super::buffer::saturate_i32;
use super::content::{Text, TextLayout};
use crate::math::{Rectangle, Vec2D};
use crate::scalar::{clamp_i32, Scalar};

verus! {

/// Whether a position is in a rectangle, both in whole pixels.
pub open spec fn points_at<S: Scalar>(rect: Rectangle, pos: Vec2D<S>) -> bool {
    rect.spec_contains_point(pos.x.spec_to_int(), pos.y.spec_to_int())
}

/// Whether a position is to the right of the middle of a character.
pub open spec fn past_middle<S: Scalar>(glyph: Rectangle, pos: Vec2D<S>) -> bool {
    S::spec_from_int(glyph.x).spec_plus(
        S::spec_from_int(glyph.width).spec_over(S::spec_from_int(2)),
    ).spec_below(pos.x)
}

/// Whether a position is not below the line that begins with the character.
pub open spec fn not_below<S: Scalar>(first: Rectangle, pos: Vec2D<S>) -> bool {
    pos.y.spec_at_most(S::spec_from_int(clamp_i32(first.y + first.height)))
}

/// The first character of a line, from the one with index `j` on, that is pointed at.
pub open spec fn glyph_at_from<S: Scalar>(line: Seq<Rectangle>, pos: Vec2D<S>, j: int) -> Option<
    int,
>
    decreases line.len() - j,
{
    if j < 0 || j >= line.len() {
        None
    } else if points_at(line[j], pos) {
        Some(j)
    } else {
        glyph_at_from(line, pos, j + 1)
    }
}

/// The place before the character with index `j`, or behind it if its right half is pointed at.
pub open spec fn place_at_glyph<S: Scalar>(line: Seq<Rectangle>, pos: Vec2D<S>, j: int) -> int {
    if past_middle(line[j], pos) {
        j + 1
    } else {
        j
    }
}

/// The offset that a click goes to, from the line with index `i` on, which `count` characters
/// come before: that of the character that is pointed at. Where none is, it is the last character
/// of the first line that the click is not below, unless that is the last line; else the end.
/// None if a line without characters comes first.
pub open spec fn click_offset_from<S: Scalar>(
    glyphs: Seq<Vec<Rectangle>>,
    pos: Vec2D<S>,
    i: int,
    count: int,
) -> Option<int>
    decreases glyphs.len() - i,
{
    if i < 0 || i >= glyphs.len() {
        Some(count)
    } else {
        let line = glyphs[i]@;
        match glyph_at_from(line, pos, 0) {
            Some(j) => Some(count + place_at_glyph(line, pos, j)),
            None => if line.len() == 0 {
                None
            } else if not_below(line[0], pos) && i != glyphs.len() - 1 {
                Some(count + line.len() - 1)
            } else {
                click_offset_from(glyphs, pos, i + 1, count + line.len())
            },
        }
    }
}

/// The offset that a drag selects to, from the line with index `i` on, which `count` characters
/// come before: that of the character that is pointed at. Where none is, it is the end of the
/// first line that the mouse is not below, or the end of the text. None if a line without
/// characters comes first.
pub open spec fn drag_offset_from<S: Scalar>(
    glyphs: Seq<Vec<Rectangle>>,
    pos: Vec2D<S>,
    i: int,
    count: int,
) -> Option<int>
    decreases glyphs.len() - i,
{
    if i < 0 || i >= glyphs.len() {
        Some(count)
    } else {
        let line = glyphs[i]@;
        match glyph_at_from(line, pos, 0) {
            Some(j) => Some(count + place_at_glyph(line, pos, j)),
            None => if line.len() == 0 {
                None
            } else if not_below(line[0], pos) {
                Some(count + line.len())
            } else {
                drag_offset_from(glyphs, pos, i + 1, count + line.len())
            },
        }
    }
}

/// The number, brought into the range of an offset.
pub open spec fn as_offset(count: Option<int>) -> Option<i32> {
    match count {
        Some(n) => Some(clamp_i32(n)),
        None => None,
    }
}

fn is_at<S: Scalar>(rect: &Rectangle, pos: Vec2D<S>) -> (r: bool)
    ensures
        r == points_at(*rect, pos),
{
    rect.contains_point(pos.x.to_int(), pos.y.to_int())
}

fn is_not_below<S: Scalar>(first: &Rectangle, pos: Vec2D<S>) -> (r: bool)
    ensures
        r == not_below(*first, pos),
{
    pos.y.at_most(S::from_int(saturate_i32(first.y as i128 + first.height as i128)))
}

/// The place in a line that is pointed at.
fn place_in_glyphs<S: Scalar>(line: &Vec<Rectangle>, pos: Vec2D<S>) -> (r: Option<usize>)
    ensures
        match glyph_at_from(line@, pos, 0) {
            Some(j) => r matches Some(k) && k == place_at_glyph(line@, pos, j) && k <= line@.len(),
            None => r is None,
        },
{
    let mut j: usize = 0;
    while j < line.len()
        invariant
            j <= line.len(),
            glyph_at_from(line@, pos, 0) == glyph_at_from(line@, pos, j as int),
        decreases line.len() - j,
    {
        let glyph = &line[j];
        if is_at(glyph, pos) {
            let middle = S::from_int(glyph.x).plus(S::from_int(glyph.width).over(S::from_int(2)));
            return Some(
                if middle.below(pos.x) {
                    j + 1
                } else {
                    j
                },
            );
        }
        j += 1;
    }
    None
}

/// Beyond every offset: characters are not counted further than this.
const COUNT_LIMIT: i64 = 0x1_0000_0000;

fn count_more(count: i64, more: usize) -> (r: i64)
    requires
        0 <= count <= COUNT_LIMIT,
    ensures
        r == (if count + more < COUNT_LIMIT {
            count + more
        } else {
            COUNT_LIMIT as int
        }),
{
    let sum: u128 = count as u128 + more as u128;
    if sum < COUNT_LIMIT as u128 {
        sum as i64
    } else {
        COUNT_LIMIT
    }
}

impl TextLayout {
    pub open spec fn spec_click_offset<S: Scalar>(self, pos: Vec2D<S>) -> Option<i32> {
        as_offset(click_offset_from(self.glyphs@, pos, 0, 0))
    }

    pub open spec fn spec_drag_offset<S: Scalar>(self, pos: Vec2D<S>) -> Option<i32> {
        as_offset(drag_offset_from(self.glyphs@, pos, 0, 0))
    }

    /// The offset that a click at `pos` goes to.
    pub fn click_offset<S: Scalar>(&self, pos: Vec2D<S>) -> (r: Option<i32>)
        ensures
            r == self.spec_click_offset(pos),
    {
        let mut index: i64 = 0;
        let ghost mut count: int = 0;
        let mut i: usize = 0;
        while i < self.glyphs.len()
            invariant
                i <= self.glyphs.len(),
                0 <= index <= COUNT_LIMIT,
                count >= 0,
                index == (if count < COUNT_LIMIT {
                    count
                } else {
                    COUNT_LIMIT as int
                }),
                click_offset_from(self.glyphs@, pos, 0, 0) == click_offset_from(
                    self.glyphs@,
                    pos,
                    i as int,
                    count,
                ),
            decreases self.glyphs.len() - i,
        {
            let line = &self.glyphs[i];
            if let Some(place) = place_in_glyphs(line, pos) {
                return Some(saturate_i32(count_more(index, place) as i128));
            }
            if line.len() == 0 {
                return None;
            }
            if is_not_below(&line[0], pos) && i != self.glyphs.len() - 1 {
                return Some(saturate_i32(count_more(index, line.len() - 1) as i128));
            }
            index = count_more(index, line.len());
            proof {
                count = count + line@.len();
            }
            i += 1;
        }
        Some(saturate_i32(index as i128))
    }

    /// The offset that a drag to `pos` selects to.
    pub fn drag_offset<S: Scalar>(&self, pos: Vec2D<S>) -> (r: Option<i32>)
        ensures
            r == self.spec_drag_offset(pos),
    {
        let mut index: i64 = 0;
        let ghost mut count: int = 0;
        let mut i: usize = 0;
        while i < self.glyphs.len()
            invariant
                i <= self.glyphs.len(),
                0 <= index <= COUNT_LIMIT,
                count >= 0,
                index == (if count < COUNT_LIMIT {
                    count
                } else {
                    COUNT_LIMIT as int
                }),
                drag_offset_from(self.glyphs@, pos, 0, 0) == drag_offset_from(
                    self.glyphs@,
                    pos,
                    i as int,
                    count,
                ),
            decreases self.glyphs.len() - i,
        {
            let line = &self.glyphs[i];
            if let Some(place) = place_in_glyphs(line, pos) {
                return Some(saturate_i32(count_more(index, place) as i128));
            }
            if line.len() == 0 {
                return None;
            }
            if is_not_below(&line[0], pos) {
                return Some(saturate_i32(count_more(index, line.len()) as i128));
            }
            index = count_more(index, line.len());
            proof {
                count = count + line@.len();
            }
            i += 1;
        }
        Some(saturate_i32(index as i128))
    }
}

impl<S: Scalar> Text<S> {
    /// The layout of the text, if the position is in the rectangle round it.
    pub open spec fn layout_at(self, pos: Vec2D<S>) -> Option<TextLayout> {
        match self.layout {
            Some(layout) if points_at(layout.rect, pos) => Some(layout),
            _ => None,
        }
    }

    /// Whether the text was drawn where the position is.
    pub fn is_at(&self, pos: Vec2D<S>) -> (r: bool)
        ensures
            r == (self.layout_at(pos) is Some),
    {
        match &self.layout {
            Some(layout) => is_at(&layout.rect, pos),
            None => false,
        }
    }
}

} // verus!
