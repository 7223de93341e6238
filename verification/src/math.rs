//! Vectors in the plane, and rectangles of whole pixels.

use vstd::prelude::*;

use crate::scalar::Scalar;

verus! {

/// A point or a displacement in image coordinates.
#[derive(Clone, Copy, Debug, PartialEq)]
pub struct Vec2D<S> {
    pub x: S,
    pub y: S,
}

impl<S: Scalar> Vec2D<S> {
    pub open spec fn spec_zero() -> Self {
        Vec2D { x: S::spec_from_int(0), y: S::spec_from_int(0) }
    }

    pub open spec fn spec_plus(self, rhs: Self) -> Self {
        Vec2D { x: self.x.spec_plus(rhs.x), y: self.y.spec_plus(rhs.y) }
    }

    pub open spec fn spec_minus(self, rhs: Self) -> Self {
        Vec2D { x: self.x.spec_minus(rhs.x), y: self.y.spec_minus(rhs.y) }
    }

    /// The squared length, `x * x + y * y`.
    pub open spec fn spec_norm2(self) -> S {
        self.x.spec_times(self.x).spec_plus(self.y.spec_times(self.y))
    }

    pub open spec fn spec_is_zero(self) -> bool {
        self.x.spec_same(S::spec_from_int(0)) && self.y.spec_same(S::spec_from_int(0))
    }

    pub fn new(x: S, y: S) -> (r: Self)
        ensures
            r == (Vec2D { x, y }),
    {
        Vec2D { x, y }
    }

    pub fn zero() -> (r: Self)
        ensures
            r == Self::spec_zero(),
    {
        Vec2D { x: S::from_int(0), y: S::from_int(0) }
    }

    pub fn plus(self, rhs: Self) -> (r: Self)
        ensures
            r == self.spec_plus(rhs),
    {
        Vec2D { x: self.x.plus(rhs.x), y: self.y.plus(rhs.y) }
    }

    pub fn minus(self, rhs: Self) -> (r: Self)
        ensures
            r == self.spec_minus(rhs),
    {
        Vec2D { x: self.x.minus(rhs.x), y: self.y.minus(rhs.y) }
    }

    pub fn norm2(self) -> (r: S)
        ensures
            r == self.spec_norm2(),
    {
        self.x.times(self.x).plus(self.y.times(self.y))
    }

    pub fn is_zero(self) -> (r: bool)
        ensures
            r == self.spec_is_zero(),
    {
        self.x.same(S::from_int(0)) && self.y.same(S::from_int(0))
    }
}

/// The interval from `start` by `length`, with a negative length turned around: its lower end
/// and its extent.
pub open spec fn positive_interval<S: Scalar>(start: S, length: S) -> (S, S) {
    if length.spec_below(S::spec_from_int(0)) {
        (start.spec_plus(length), length.spec_magnitude())
    } else {
        (start, length)
    }
}

/// The rectangle from `pos` by `size` as its corner of least coordinates and its extent.
pub open spec fn positive_rect<S: Scalar>(pos: Vec2D<S>, size: Vec2D<S>) -> (Vec2D<S>, Vec2D<S>) {
    let (x, width) = positive_interval(pos.x, size.x);
    let (y, height) = positive_interval(pos.y, size.y);
    (Vec2D { x, y }, Vec2D { x: width, y: height })
}

fn interval_ensure_positive_length<S: Scalar>(start: S, length: S) -> (r: (S, S))
    ensures
        r == positive_interval(start, length),
{
    if length.below(S::from_int(0)) {
        (start.plus(length), length.magnitude())
    } else {
        (start, length)
    }
}

/// Turns a rectangle that was drawn up or to the left around, so that its size is not negative.
pub fn rect_ensure_positive_size<S: Scalar>(pos: Vec2D<S>, size: Vec2D<S>) -> (r: (
    Vec2D<S>,
    Vec2D<S>,
))
    ensures
        r == positive_rect(pos, size),
{
    let (x, width) = interval_ensure_positive_length(pos.x, size.x);
    let (y, height) = interval_ensure_positive_length(pos.y, size.y);
    (Vec2D { x, y }, Vec2D { x: width, y: height })
}

/// A rectangle of whole pixels.
#[derive(Clone, Copy, Debug, PartialEq, Eq)]
pub struct Rectangle {
    pub x: i32,
    pub y: i32,
    pub width: i32,
    pub height: i32,
}

impl Rectangle {
    /// Whether the pixel at `(x, y)` is one of the rectangle's: the right and the lower edge are
    /// not.
    pub open spec fn spec_contains_point(self, x: i32, y: i32) -> bool {
        self.x <= x < self.x + self.width && self.y <= y < self.y + self.height
    }

    pub fn new(x: i32, y: i32, width: i32, height: i32) -> (r: Self)
        ensures
            r == (Rectangle { x, y, width, height }),
    {
        Rectangle { x, y, width, height }
    }

    pub fn contains_point(&self, x: i32, y: i32) -> (r: bool)
        ensures
            r == self.spec_contains_point(x, y),
    {
        self.x <= x && (x as i64) < self.x as i64 + self.width as i64 && self.y <= y && (y as i64)
            < self.y as i64 + self.height as i64
    }
}

} // verus!
