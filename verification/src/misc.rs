//! Angles: when one is brought into range, and when one is taken at all.

use crate::binary64::Binary64;
use vstd::prelude::*;

verus! {

/// `w < 0`: the angle lies below the range from zero to a full turn.
pub open spec fn is_below_range(w: Binary64) -> bool {
    w.less(Binary64 { bits: 0 })
}

/// `y` and `x` are not both zero: they point somewhere. A NaN is not zero.
pub open spec fn is_direction(y: Binary64, x: Binary64) -> bool {
    !(y.vanishes() && x.vanishes())
}

/// Whether a full turn is to be added to `w`, the remainder of an angle after
/// division by a full turn, to bring it into the range from zero to a full
/// turn: where it is negative.
pub fn needs_turn(w: Binary64) -> (r: bool)
    ensures
        r == is_below_range(w),
{
    w.lt(Binary64::zero())
}

/// Whether `y` and `x` have a direction, so that the angle of `y` over `x` is
/// taken: where both are zero, as at a pole or for a null vector, there is
/// none, and the angle is zero by convention.
pub fn has_direction(y: Binary64, x: Binary64) -> (r: bool)
    ensures
        r == is_direction(y, x),
{
    !(y.is_zero() && x.is_zero())
}

} // verus!
