//! The calibrated curve: one exact rational (distance, amplitude) pair per
//! raw sample, index-aligned with the samples of the source trace.
//!
//! The calibration formula divides integer quantities; instead of rounding,
//! each coordinate keeps the exact numerator and denominator that the formula
//! produces. The denominator is zero or negative exactly when the trace's raw
//! calibration fields are; comparison of such values is defined only for
//! nonzero denominators.

use vstd::prelude::*;

verus! {

/// An exact rational number, kept as the unreduced integer numerator and
/// denominator of the calibration formula.
#[derive(Clone, Copy, PartialEq, Eq, Structural, Debug)]
pub struct Rational {
    pub num: i128,
    pub den: i128,
}

/// One point of the calibrated curve: distance from the instrument in
/// metres, and amplitude in the trace's dB-like unit.
#[derive(Clone, Copy, PartialEq, Eq, Structural, Debug)]
pub struct CurvePoint {
    pub distance: Rational,
    pub amplitude: Rational,
}

/// The calibrated curve of a trace, in source sample order.
#[derive(PartialEq, Debug)]
pub struct CalibratedCurve {
    pub points: Vec<CurvePoint>,
}

impl View for CalibratedCurve {
    type V = Seq<CurvePoint>;

    open spec fn view(&self) -> Seq<CurvePoint> {
        self.points@
    }
}

impl Clone for CalibratedCurve {
    fn clone(&self) -> (r: Self)
        ensures
            r@ == self@,
    {
        let mut out: Vec<CurvePoint> = Vec::new();
        let mut i: usize = 0;
        while i < self.points.len()
            invariant
                i <= self.points.len(),
                out@ == self.points@.take(i as int),
            decreases self.points.len() - i,
        {
            out.push(self.points[i]);
            proof {
                assert(out@ =~= self.points@.take(i + 1));
            }
            i = i + 1;
        }
        proof {
            assert(self.points@.take(self.points@.len() as int) =~= self.points@);
        }
        CalibratedCurve { points: out }
    }
}

/// `a` is strictly below `b` in the rational order. Defined for nonzero
/// denominators of either sign: the cross-multiplied comparison flips when
/// the denominators' product is negative.
pub open spec fn rat_lt(a: Rational, b: Rational) -> bool
    recommends
        a.den != 0,
        b.den != 0,
{
    if a.den * b.den > 0 {
        a.num * b.den < b.num * a.den
    } else {
        b.num * a.den < a.num * b.den
    }
}

/// The rational `a` is strictly positive.
pub open spec fn rat_pos(a: Rational) -> bool
    recommends
        a.den != 0,
{
    a.num * a.den > 0
}

} // verus!
