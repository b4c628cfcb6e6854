//! Selection between numbers.

use crate::math::scalar::Scalar;
use vstd::prelude::*;

verus! {

/// `x`, brought up to `min` where it is below and down to `max` where it is
/// above.  A NaN is neither, and is returned as it is.
pub open spec fn clamp_spec(x: Scalar, min: Scalar, max: Scalar) -> Scalar {
    if x.lt_spec(min) {
        min
    } else if x.gt_spec(max) {
        max
    } else {
        x
    }
}

/// The first number where it is below the second, else the second.
pub open spec fn min_spec(val1: Scalar, val2: Scalar) -> Scalar {
    if val1.lt_spec(val2) {
        val1
    } else {
        val2
    }
}

/// Limits `x` to the interval from `min` to `max`.
///
/// Of a number and a proper interval the result lies in the interval, and is
/// `x` itself where `x` lies in it.
pub fn clamp(x: Scalar, min: Scalar, max: Scalar) -> (r: Scalar)
    ensures
        r == clamp_spec(x, min, max),
        x@ is Some && min.le_spec(max) ==> min.le_spec(r) && r.le_spec(max),
        min.le_spec(x) && x.le_spec(max) ==> r == x,
{
    if x.lt(min) {
        return min;
    }
    if x.gt(max) {
        return max;
    }
    x
}

/// The smaller of two numbers; the second where they do not compare.
pub fn min(val1: Scalar, val2: Scalar) -> (r: Scalar)
    ensures
        r == min_spec(val1, val2),
        r == val1 || r == val2,
        val1@ is Some && val2@ is Some ==> r.le_spec(val1) && r.le_spec(val2),
{
    if val1.lt(val2) {
        val1
    } else {
        val2
    }
}

} // verus!
