//! The numbers that positions, sizes and colour channels are made of.
//!
//! Geometry here is written once, over any type with the operations of [`Scalar`]. A canvas
//! works with hardware floating point; whole pixels (`i64`) are enough for reasoning about exact
//! geometry. Contracts name each operation by the spec function beside it, so that a contract
//! says which operations are applied to which operands, in which order: for a type whose
//! arithmetic rounds, that is what fixes the result.

use vstd::prelude::*;

verus! {

/// A number type for geometry.
///
/// Nothing is asked of the operations but that each is a function of its operands: sums may
/// round, and the comparisons need not order every pair. A type from outside this crate gives
/// both functions of each pair, the executable one and the one that names its result.
pub trait Scalar: Copy + Sized {
    /// `self + rhs`.
    spec fn spec_plus(self, rhs: Self) -> Self;

    /// `self - rhs`.
    spec fn spec_minus(self, rhs: Self) -> Self;

    /// `self * rhs`.
    spec fn spec_times(self, rhs: Self) -> Self;

    /// `self / rhs`.
    spec fn spec_over(self, rhs: Self) -> Self;

    /// `-self`.
    spec fn spec_negated(self) -> Self;

    /// The absolute value.
    spec fn spec_magnitude(self) -> Self;

    /// The larger of two numbers.
    spec fn spec_larger(self, rhs: Self) -> Self;

    /// The nearest whole number that is not above.
    spec fn spec_floor(self) -> Self;

    /// The nearest whole number that is not below.
    spec fn spec_ceil(self) -> Self;

    /// `self < rhs`.
    spec fn spec_below(self, rhs: Self) -> bool;

    /// `self <= rhs`.
    spec fn spec_at_most(self, rhs: Self) -> bool;

    /// `self == rhs`, as the number type compares.
    spec fn spec_same(self, rhs: Self) -> bool;

    /// The whole number `n`.
    spec fn spec_from_int(n: i32) -> Self;

    /// The whole part, brought into the range of `i32`.
    spec fn spec_to_int(self) -> i32;

    /// The nearest whole number (halves away from zero), brought into the range of `i32`.
    spec fn spec_to_nearest(self) -> i32;

    /// The largest finite number.
    spec fn spec_largest() -> Self;

    fn plus(self, rhs: Self) -> (r: Self)
        ensures
            r == self.spec_plus(rhs),
    ;

    fn minus(self, rhs: Self) -> (r: Self)
        ensures
            r == self.spec_minus(rhs),
    ;

    fn times(self, rhs: Self) -> (r: Self)
        ensures
            r == self.spec_times(rhs),
    ;

    fn over(self, rhs: Self) -> (r: Self)
        ensures
            r == self.spec_over(rhs),
    ;

    fn negated(self) -> (r: Self)
        ensures
            r == self.spec_negated(),
    ;

    fn magnitude(self) -> (r: Self)
        ensures
            r == self.spec_magnitude(),
    ;

    fn larger(self, rhs: Self) -> (r: Self)
        ensures
            r == self.spec_larger(rhs),
    ;

    fn floor(self) -> (r: Self)
        ensures
            r == self.spec_floor(),
    ;

    fn ceil(self) -> (r: Self)
        ensures
            r == self.spec_ceil(),
    ;

    fn below(self, rhs: Self) -> (r: bool)
        ensures
            r == self.spec_below(rhs),
    ;

    fn at_most(self, rhs: Self) -> (r: bool)
        ensures
            r == self.spec_at_most(rhs),
    ;

    fn same(self, rhs: Self) -> (r: bool)
        ensures
            r == self.spec_same(rhs),
    ;

    fn from_int(n: i32) -> (r: Self)
        ensures
            r == Self::spec_from_int(n),
    ;

    fn to_int(self) -> (r: i32)
        ensures
            r == self.spec_to_int(),
    ;

    fn to_nearest(self) -> (r: i32)
        ensures
            r == self.spec_to_nearest(),
    ;

    fn largest() -> (r: Self)
        ensures
            r == Self::spec_largest(),
    ;
}

/// The number `n / d`.
pub open spec fn ratio_spec<S: Scalar>(n: i32, d: i32) -> S {
    S::spec_from_int(n).spec_over(S::spec_from_int(d))
}

/// The number `n / d`, by which fractions such as 0.1 are written.
pub fn ratio<S: Scalar>(n: i32, d: i32) -> (r: S)
    ensures
        r == ratio_spec::<S>(n, d),
{
    S::from_int(n).over(S::from_int(d))
}

/// `v`, brought into the range of `i64`.
pub open spec fn clamp_i64(v: int) -> i64 {
    if v < i64::MIN {
        i64::MIN
    } else if v > i64::MAX {
        i64::MAX
    } else {
        v as i64
    }
}

/// `v`, brought into the range of `i32`.
pub open spec fn clamp_i32(v: int) -> i32 {
    if v < i32::MIN {
        i32::MIN
    } else if v > i32::MAX {
        i32::MAX
    } else {
        v as i32
    }
}

/// `a / b`, rounded toward zero.
pub open spec fn truncated_quotient(a: int, b: int) -> int
    recommends
        b != 0,
{
    let q = vstd::math::abs(a) as int / vstd::math::abs(b) as int;
    if (a < 0) == (b < 0) {
        q
    } else {
        -q
    }
}

fn saturate(v: i128) -> (r: i64)
    ensures
        r == clamp_i64(v as int),
{
    if v < i64::MIN as i128 {
        i64::MIN
    } else if v > i64::MAX as i128 {
        i64::MAX
    } else {
        v as i64
    }
}

fn saturate_i32(v: i64) -> (r: i32)
    ensures
        r == clamp_i32(v as int),
{
    if v < i32::MIN as i64 {
        i32::MIN
    } else if v > i32::MAX as i64 {
        i32::MAX
    } else {
        v as i32
    }
}

/// Coordinates no larger than this can be added and subtracted a few times without reaching the end
/// of the range.
pub const EXACT: i64 = 0x1000_0000_0000_0000;

/// Whole pixels. Results that leave the range stop at its end, and division rounds toward zero;
/// a quotient by zero is the end of the range on the side of the dividend, or zero for zero.
impl Scalar for i64 {
    open spec fn spec_plus(self, rhs: Self) -> Self {
        clamp_i64(self + rhs)
    }

    open spec fn spec_minus(self, rhs: Self) -> Self {
        clamp_i64(self - rhs)
    }

    open spec fn spec_times(self, rhs: Self) -> Self {
        clamp_i64(self * rhs)
    }

    open spec fn spec_over(self, rhs: Self) -> Self {
        if rhs != 0 {
            clamp_i64(truncated_quotient(self as int, rhs as int))
        } else if self > 0 {
            i64::MAX
        } else if self < 0 {
            i64::MIN
        } else {
            0
        }
    }

    open spec fn spec_negated(self) -> Self {
        clamp_i64(-self)
    }

    open spec fn spec_magnitude(self) -> Self {
        clamp_i64(if self < 0 {
            -self
        } else {
            self as int
        })
    }

    open spec fn spec_larger(self, rhs: Self) -> Self {
        if self < rhs {
            rhs
        } else {
            self
        }
    }

    open spec fn spec_floor(self) -> Self {
        self
    }

    open spec fn spec_ceil(self) -> Self {
        self
    }

    open spec fn spec_below(self, rhs: Self) -> bool {
        self < rhs
    }

    open spec fn spec_at_most(self, rhs: Self) -> bool {
        self <= rhs
    }

    open spec fn spec_same(self, rhs: Self) -> bool {
        self == rhs
    }

    open spec fn spec_from_int(n: i32) -> Self {
        n as i64
    }

    open spec fn spec_to_int(self) -> i32 {
        clamp_i32(self as int)
    }

    open spec fn spec_to_nearest(self) -> i32 {
        clamp_i32(self as int)
    }

    open spec fn spec_largest() -> Self {
        i64::MAX
    }

    fn plus(self, rhs: Self) -> (r: Self) {
        saturate(self as i128 + rhs as i128)
    }

    fn minus(self, rhs: Self) -> (r: Self) {
        saturate(self as i128 - rhs as i128)
    }

    fn times(self, rhs: Self) -> (r: Self) {
        let (a, b): (i128, i128) = (self as i128, rhs as i128);
        assert(-0x4000_0000_0000_0000_0000_0000_0000_0000 <= a * b
            <= 0x4000_0000_0000_0000_0000_0000_0000_0000) by (nonlinear_arith)
            requires
                -0x8000_0000_0000_0000 <= a < 0x8000_0000_0000_0000,
                -0x8000_0000_0000_0000 <= b < 0x8000_0000_0000_0000,
        ;
        saturate(a * b)
    }

    fn over(self, rhs: Self) -> (r: Self) {
        if rhs == 0 {
            return if self > 0 {
                i64::MAX
            } else if self < 0 {
                i64::MIN
            } else {
                0
            };
        }
        let a: u64 = if self < 0 {
            (-(self as i128)) as u64
        } else {
            self as u64
        };
        let b: u64 = if rhs < 0 {
            (-(rhs as i128)) as u64
        } else {
            rhs as u64
        };
        let q: i128 = (a / b) as i128;
        if (self < 0) == (rhs < 0) {
            saturate(q)
        } else {
            saturate(-q)
        }
    }

    fn negated(self) -> (r: Self) {
        saturate(-(self as i128))
    }

    fn magnitude(self) -> (r: Self) {
        if self < 0 {
            saturate(-(self as i128))
        } else {
            self
        }
    }

    fn larger(self, rhs: Self) -> (r: Self) {
        if self < rhs {
            rhs
        } else {
            self
        }
    }

    fn floor(self) -> (r: Self) {
        self
    }

    fn ceil(self) -> (r: Self) {
        self
    }

    fn below(self, rhs: Self) -> (r: bool) {
        self < rhs
    }

    fn at_most(self, rhs: Self) -> (r: bool) {
        self <= rhs
    }

    fn same(self, rhs: Self) -> (r: bool) {
        self == rhs
    }

    fn from_int(n: i32) -> (r: Self) {
        n as i64
    }

    fn to_int(self) -> (r: i32) {
        saturate_i32(self)
    }

    fn to_nearest(self) -> (r: i32) {
        saturate_i32(self)
    }

    fn largest() -> (r: Self) {
        i64::MAX
    }
}

} // verus!
