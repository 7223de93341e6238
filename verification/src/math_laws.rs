//! What holds of numbers, vectors and rectangles.

use vstd::prelude::*;

use crate::math::{positive_rect, Rectangle, Vec2D};
use crate::scalar::{clamp_i32, clamp_i64, ratio_spec, Scalar};
use crate::sketch_board::Modifiers;

verus! {

// ---------------------------------------------------------------------------------------------
// Whole pixels

/// A number that is brought into a range is itself where it is in the range already, and else the
/// end of the range that is nearer.
pub proof fn law_ends_of_the_range(v: int)
    ensures
        -0x8000_0000 <= v <= 0x7fff_ffff ==> clamp_i32(v) == v,
        v < -0x8000_0000 ==> clamp_i32(v) == -0x8000_0000,
        v > 0x7fff_ffff ==> clamp_i32(v) == 0x7fff_ffff,
        -0x8000_0000_0000_0000 <= v <= 0x7fff_ffff_ffff_ffff ==> clamp_i64(v) == v,
        v < -0x8000_0000_0000_0000 ==> clamp_i64(v) == -0x8000_0000_0000_0000,
        v > 0x7fff_ffff_ffff_ffff ==> clamp_i64(v) == 0x7fff_ffff_ffff_ffff,
{
}

/// Sums, differences, products and negatives of whole pixels are those of the integers, and stop at
/// the end of the range on their side where they would leave it.
pub proof fn law_whole_pixel_arithmetic(a: i64, b: i64)
    ensures
        i64::MIN <= a + b <= i64::MAX ==> a.spec_plus(b) == a + b,
        a + b > i64::MAX ==> a.spec_plus(b) == i64::MAX,
        a + b < i64::MIN ==> a.spec_plus(b) == i64::MIN,
        i64::MIN <= a - b <= i64::MAX ==> a.spec_minus(b) == a - b,
        a - b > i64::MAX ==> a.spec_minus(b) == i64::MAX,
        a - b < i64::MIN ==> a.spec_minus(b) == i64::MIN,
        i64::MIN <= a * b <= i64::MAX ==> a.spec_times(b) == a * b,
        a * b > i64::MAX ==> a.spec_times(b) == i64::MAX,
        a * b < i64::MIN ==> a.spec_times(b) == i64::MIN,
        a > i64::MIN ==> a.spec_negated() == -a,
        a == i64::MIN ==> a.spec_negated() == i64::MAX,
{
}

/// A quotient of whole pixels is the integer nearest to zero from which the dividend differs by
/// less than the divisor.
pub proof fn law_whole_pixel_quotients(a: i64, b: i64)
    requires
        b != 0,
        a > i64::MIN,
    ensures
        ({
            let q = a.spec_over(b) as int;
            let rest = a - q * b;
            &&& a >= 0 ==> rest >= 0
            &&& a <= 0 ==> rest <= 0
            &&& b > 0 ==> -b < rest < b
            &&& b < 0 ==> b < rest < -b
        }),
{
    let (n, d) = (
        if a < 0 {
            -a
        } else {
            a as int
        },
        if b < 0 {
            -b
        } else {
            b as int
        },
    );
    let q = n / d;
    vstd::arithmetic::div_mod::lemma_fundamental_div_mod(n, d);
    assert(0 <= n % d < d);
    assert(0 <= q <= n) by (nonlinear_arith)
        requires
            n == d * q + n % d,
            0 <= n % d < d,
            n >= 0,
            d >= 1,
    ;
    assert(vstd::math::abs(a as int) == n && vstd::math::abs(b as int) == d);
    let r = a.spec_over(b) as int;
    assert((a < 0) == (b < 0) ==> r == q);
    assert((a < 0) != (b < 0) ==> r == -q);
    assert(d * q == q * d && (-q) * (-d) == q * d && (-q) * d == -(q * d) && q * (-d) == -(q * d))
        by (nonlinear_arith);
}

/// A quotient by zero is the end of the range on the side of the dividend, and nothing by nothing
/// is nothing.
pub proof fn law_whole_pixels_by_zero(a: i64)
    ensures
        a > 0 ==> a.spec_over(0) == i64::MAX,
        a < 0 ==> a.spec_over(0) == i64::MIN,
        0i64.spec_over(0) == 0,
{
}

/// Whole pixels are compared, and brought to whole numbers, as the integers that they are.
pub proof fn law_whole_pixel_order(a: i64, b: i64, n: i32)
    ensures
        a.spec_below(b) <==> a - b < 0,
        a.spec_at_most(b) <==> a - b <= 0,
        a.spec_same(b) <==> a - b == 0,
        a.spec_larger(b) >= a,
        a.spec_larger(b) >= b,
        a.spec_larger(b) == a || a.spec_larger(b) == b,
        a.spec_magnitude() >= 0,
        a > i64::MIN ==> a.spec_magnitude() == a || a.spec_magnitude() == -a,
        a == i64::MIN ==> a.spec_magnitude() == i64::MAX,
        a.spec_floor() == a,
        a.spec_ceil() == a,
        <i64 as Scalar>::spec_from_int(n) == n,
        i32::MIN <= a <= i32::MAX ==> a.spec_to_int() == a && a.spec_to_nearest() == a,
        a > i32::MAX ==> a.spec_to_int() == i32::MAX && a.spec_to_nearest() == i32::MAX,
        a < i32::MIN ==> a.spec_to_int() == i32::MIN && a.spec_to_nearest() == i32::MIN,
        a <= <i64 as Scalar>::spec_largest(),
{
}

/// A fraction is its numerator by its denominator.
pub proof fn law_fractions<S: Scalar>(n: i32, d: i32)
    ensures
        ratio_spec::<S>(n, d) == S::spec_from_int(n).spec_over(S::spec_from_int(d)),
{
}

// ---------------------------------------------------------------------------------------------
// Vectors

/// Vectors are added and subtracted coordinate by coordinate, in every number type.
pub proof fn law_vectors_by_coordinate<S: Scalar>(a: Vec2D<S>, b: Vec2D<S>)
    ensures
        a.spec_plus(b).x == a.x.spec_plus(b.x),
        a.spec_plus(b).y == a.y.spec_plus(b.y),
        a.spec_minus(b).x == a.x.spec_minus(b.x),
        a.spec_minus(b).y == a.y.spec_minus(b.y),
        a.spec_norm2() == a.x.spec_times(a.x).spec_plus(a.y.spec_times(a.y)),
        Vec2D::<S>::spec_zero().x == S::spec_from_int(0),
        Vec2D::<S>::spec_zero().y == S::spec_from_int(0),
        a.spec_is_zero() <==> a.x.spec_same(S::spec_from_int(0)) && a.y.spec_same(
            S::spec_from_int(0),
        ),
{
}

/// The square of the length of a vector of whole pixels, and the only vector without a length.
pub proof fn law_length_of_a_vector(a: Vec2D<i64>)
    requires
        -0x4000_0000 <= a.x <= 0x4000_0000,
        -0x4000_0000 <= a.y <= 0x4000_0000,
    ensures
        a.spec_norm2() == a.x * a.x + a.y * a.y,
        a.spec_is_zero() <==> a.x == 0 && a.y == 0,
{
    assert(0 <= a.x * a.x <= 0x1000_0000_0000_0000) by (nonlinear_arith)
        requires
            -0x4000_0000 <= a.x <= 0x4000_0000,
    ;
    assert(0 <= a.y * a.y <= 0x1000_0000_0000_0000) by (nonlinear_arith)
        requires
            -0x4000_0000 <= a.y <= 0x4000_0000,
    ;
}

// ---------------------------------------------------------------------------------------------
// Rectangles

/// The lesser of two integers.
pub open spec fn lesser(a: int, b: int) -> int {
    if a < b {
        a
    } else {
        b
    }
}

/// The greater of two integers.
pub open spec fn greater(a: int, b: int) -> int {
    if a < b {
        b
    } else {
        a
    }
}

/// Turning a rectangle around keeps its four edges: the corner is where the lesser coordinates are,
/// and the size reaches to the greater ones.
pub proof fn law_turned_rectangle_keeps_its_edges(pos: Vec2D<i64>, size: Vec2D<i64>)
    requires
        i64::MIN < size.x,
        i64::MIN < size.y,
        i64::MIN <= pos.x + size.x <= i64::MAX,
        i64::MIN <= pos.y + size.y <= i64::MAX,
    ensures
        ({
            let (corner, extent) = positive_rect(pos, size);
            &&& corner.x == lesser(pos.x as int, pos.x + size.x)
            &&& corner.y == lesser(pos.y as int, pos.y + size.y)
            &&& corner.x + extent.x == greater(pos.x as int, pos.x + size.x)
            &&& corner.y + extent.y == greater(pos.y as int, pos.y + size.y)
        }),
{
}

/// In every number type, a rectangle is turned around by each coordinate for itself: only where its
/// size is below zero, and then to the other end, with the size made positive.
pub proof fn law_rectangle_is_turned_by_coordinate<S: Scalar>(pos: Vec2D<S>, size: Vec2D<S>)
    ensures
        ({
            let (corner, extent) = positive_rect(pos, size);
            let zero = S::spec_from_int(0);
            &&& size.x.spec_below(zero) ==> corner.x == pos.x.spec_plus(size.x) && extent.x
                == size.x.spec_magnitude()
            &&& !size.x.spec_below(zero) ==> corner.x == pos.x && extent.x == size.x
            &&& size.y.spec_below(zero) ==> corner.y == pos.y.spec_plus(size.y) && extent.y
                == size.y.spec_magnitude()
            &&& !size.y.spec_below(zero) ==> corner.y == pos.y && extent.y == size.y
        }),
{
}

/// A rectangle has as many columns and rows of pixels as it is wide and high, beginning with its
/// corner.
pub proof fn law_pixels_of_a_rectangle(rect: Rectangle, x: i32, y: i32)
    ensures
        rect.spec_contains_point(x, y) <==> 0 <= x - rect.x && x - rect.x < rect.width && 0 <= y
            - rect.y && y - rect.y < rect.height,
{
}

/// Exactly these modifiers are set where shift, control and alt are as they are asked for, and no
/// further modifier is.
pub proof fn law_exact_modifiers(m: Modifiers, shift: bool, control: bool, alt: bool)
    ensures
        m.spec_exactly(shift, control, alt) <==> m == (Modifiers {
            shift,
            control,
            alt,
            other: false,
        }),
{
}

} // verus!
