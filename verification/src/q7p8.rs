//! Q7.8 arithmetic and curve interpolation of the `avr_q` and `curveipo`
//! crates, on the library's own number type.
//!
//! The functions of this module are not verified: each states what the
//! outside function it calls computes.

use vstd::prelude::*;
use avr_q::Q7p8;
use curveipo::Curve;
use crate::fixpt::Fixpt;
use crate::fixpt::lin_inter_value;
use crate::fixpt::q_abs;
use crate::fixpt::q_add;
use crate::fixpt::q_div;
use crate::fixpt::q_mul;
use crate::fixpt::q_sub;

verus! {

/// The first index from `i` on whose point does not lie left of `x`; the
/// last index if there is none.
pub open spec fn curve_right(points: Seq<(Fixpt, Fixpt)>, x: int, i: int) -> int
    decreases points.len() - i,
{
    if i + 1 >= points.len() || points[i].0@ >= x {
        i
    } else {
        curve_right(points, x, i + 1)
    }
}

/// The value of the piecewise-linear curve through `points` at `x`: the
/// first or last ordinate outside the curve, the ordinate of a point that
/// `x` hits, and the interpolation between its two neighbours otherwise.
pub open spec fn curve_value(points: Seq<(Fixpt, Fixpt)>, x: int) -> int
    recommends
        points.len() > 0,
{
    if x <= points[0].0@ {
        points[0].1@
    } else if x >= points.last().0@ {
        points.last().1@
    } else {
        let i = curve_right(points, x, 1);
        if points[i].0@ == x {
            points[i].1@
        } else {
            lin_inter_value(x, points[i - 1].0@, points[i - 1].1@, points[i].0@, points[i].1@)
        }
    }
}

/// Whether the abscissas of the curve points strictly increase.
pub open spec fn curve_increasing(points: Seq<(Fixpt, Fixpt)>) -> bool {
    forall|i: int, j: int| 0 <= i < j < points.len() ==> points[i].0@ < points[j].0@
}

/// Whether no ordinate of the curve falls by the whole range of a Q7.8
/// number from one point to the next: the interpolation divides such a
/// step by the width of the segment, and the division is stated only for
/// dividends above the least number.
pub open spec fn curve_steps_divisible(points: Seq<(Fixpt, Fixpt)>) -> bool {
    forall|i: int| 0 < i < points.len() ==> #[trigger] points[i].1@ - points[i - 1].1@ > -0x8000
}

/// `Q7p8::add`: the saturating sum of two Q7.8 numbers.
#[verifier::external_body]
pub(crate) fn q7p8_add(a: Fixpt, b: Fixpt) -> (r: Fixpt)
    ensures
        r@ == q_add(a@, b@),
{
    Fixpt(Q7p8::from_q(a.0).add(Q7p8::from_q(b.0)).to_q())
}

/// `Q7p8::sub`: the saturating difference of two Q7.8 numbers.
#[verifier::external_body]
pub(crate) fn q7p8_sub(a: Fixpt, b: Fixpt) -> (r: Fixpt)
    ensures
        r@ == q_sub(a@, b@),
{
    Fixpt(Q7p8::from_q(a.0).sub(Q7p8::from_q(b.0)).to_q())
}

/// `Q7p8::mul`: the product of two Q7.8 numbers. The raw product saturates
/// at 24 bits and is then scaled back by eight bits, rounding down.
#[verifier::external_body]
pub(crate) fn q7p8_mul(a: Fixpt, b: Fixpt) -> (r: Fixpt)
    ensures
        r@ == q_mul(a@, b@),
{
    Fixpt(Q7p8::from_q(a.0).mul(Q7p8::from_q(b.0)).to_q())
}

/// `Q7p8::div`: the quotient of two Q7.8 numbers. The dividend is scaled up
/// by eight bits and divided toward zero; a zero divisor gives the extreme
/// with the dividend's sign, and the result saturates at 16 bits.
///
/// The least number is left out as a dividend: scaled up it is the least
/// 24-bit number, whose magnitude the division kernel of the AVR target
/// takes as one less than it is, so that the quotient there differs from
/// the one of the portable kernel.
#[verifier::external_body]
pub(crate) fn q7p8_div(a: Fixpt, b: Fixpt) -> (r: Fixpt)
    requires
        a@ > -0x8000,
    ensures
        r@ == q_div(a@, b@),
{
    Fixpt(Q7p8::from_q(a.0).div(Q7p8::from_q(b.0)).to_q())
}

/// `Q7p8::abs`: the saturating absolute value of a Q7.8 number.
#[verifier::external_body]
pub(crate) fn q7p8_abs(a: Fixpt) -> (r: Fixpt)
    ensures
        r@ == q_abs(a@),
{
    Fixpt(Q7p8::from_q(a.0).abs().to_q())
}

/// `Q7p8::from_fraction`: the quotient of two integers as a Q7.8 number,
/// computed as the Q7.8 quotient of the two taken as raw values. The least
/// numerator is left out, as the least dividend of `Q7p8::div` is.
#[verifier::external_body]
pub(crate) fn q7p8_from_fraction(numerator: i16, denominator: i16) -> (r: Fixpt)
    requires
        numerator > -0x8000,
    ensures
        r@ == q_div(numerator as int, denominator as int),
{
    Fixpt(Q7p8::from_fraction(numerator, denominator).to_q())
}

/// `Curve::lin_inter` on Q7.8 points: the value at `x` of the
/// piecewise-linear curve through `points`. The outside function expects
/// at least one point and strictly increasing abscissas. It divides the
/// step of the ordinates of a segment by the segment's width with
/// `Q7p8::div`, so no step may be the least number.
#[verifier::external_body]
pub(crate) fn curve_lin_inter<const N: usize>(points: &[(Fixpt, Fixpt); N], x: Fixpt) -> (r: Fixpt)
    requires
        N > 0,
        curve_increasing(points@),
        curve_steps_divisible(points@),
    ensures
        r@ == curve_value(points@, x@),
{
    let pts = points.map(|p| (Q7p8::from_q(p.0.0), Q7p8::from_q(p.1.0)));
    Fixpt(Curve::new(pts).lin_inter(Q7p8::from_q(x.0)).to_q())
}

} // verus!
