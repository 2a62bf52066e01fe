//! Coordinate transformations: what is decided on the arguments before the
//! arithmetic starts, and on the way through it.

use crate::binary64::{lemma_is_within_half_ulp_of, lemma_one, Binary64, UNIT_EXPONENT};
use crate::ellipsoid::{lemma_params, Ellipsoid};
use crate::ErfaError;
use vstd::arithmetic::power2::{lemma2_to64, lemma_pow2_adds, lemma_pow2_pos, pow2};
use vstd::prelude::*;

verus! {

/// `0 <= f < 1`: what a flattening has to be. A NaN is not.
pub open spec fn is_flattening(f: Binary64) -> bool {
    !f.nan() && 0 <= f.units() < pow2(UNIT_EXPONENT as nat)
}

/// `x <= 0`. A NaN is not.
pub open spec fn is_non_positive(x: Binary64) -> bool {
    !x.nan() && x.units() <= 0
}

/// What the transformation from geocentric to geodetic coordinates makes of
/// an equatorial radius `a` and a flattening `f`: the flattening is looked at
/// first, and a radius that is a NaN passes.
pub open spec fn ellipsoid_verdict(a: Binary64, f: Binary64) -> Result<(), ErfaError> {
    if !is_flattening(f) {
        Err(ErfaError::InvalidValue { function: "geocentric_to_geodetic_inner", value: "f" })
    } else if is_non_positive(a) {
        Err(ErfaError::InvalidValue { function: "geocentric_to_geodetic_inner", value: "a" })
    } else {
        Ok(())
    }
}

/// The case that a geocentric position falls under on its way to geodetic
/// coordinates.
#[derive(Clone, Copy, Debug, PartialEq, Eq, Structural)]
pub struct GeodeticCase {
    /// The position is off the polar axis, and so has a longitude. On the
    /// axis the longitude is zero by convention.
    pub off_axis: bool,
    /// The position is on the polar axis or so near it that the solution for
    /// the pole is used.
    pub polar: bool,
    /// The position is below the equator: its latitude is negative.
    pub south: bool,
}

/// The case of a position whose distance from the polar axis, squared, is
/// `dist2` and whose third coordinate is `z`, where `aeps2` is the square below
/// which a distance counts as none. What equals `aeps2` is polar.
pub open spec fn geodetic_case_of(dist2: Binary64, aeps2: Binary64, z: Binary64) -> GeodeticCase {
    GeodeticCase {
        off_axis: (Binary64 { bits: 0 }).less(dist2),
        polar: !aeps2.less(dist2),
        south: z.less(Binary64 { bits: 0 }),
    }
}

/// What the transformation from geodetic to geocentric coordinates makes of
/// its discriminant `d`, which is `cos^2(phi) + (1 - f)^2 sin^2(phi)` as
/// computed: it has to be positive, and a NaN passes.
pub open spec fn discriminant_verdict(d: Binary64) -> Result<(), ErfaError> {
    if is_non_positive(d) {
        Err(ErfaError::Unrealistic { function: "geodetic_to_geocentric_inner" })
    } else {
        Ok(())
    }
}

/// Checks the reference ellipsoid of a transformation from geocentric to
/// geodetic coordinates, before anything is computed.
///
/// # Errors
///
/// `InvalidValue` for `f` unless `0 <= f < 1`; then `InvalidValue` for `a` if
/// `a <= 0`.
pub fn check_ellipsoid(a: Binary64, f: Binary64) -> (verdict: Result<(), ErfaError>)
    ensures
        verdict == ellipsoid_verdict(a, f),
{
    let zero = Binary64::zero();
    let one = Binary64::one();
    if !(zero.le(f) && f.lt(one)) {
        return Err(
            ErfaError::InvalidValue { function: "geocentric_to_geodetic_inner", value: "f" },
        );
    }
    if a.le(zero) {
        return Err(
            ErfaError::InvalidValue { function: "geocentric_to_geodetic_inner", value: "a" },
        );
    }
    Ok(())
}

/// What the square of the equatorial radius is multiplied by to give the
/// square below which a distance from the polar axis counts as none: the
/// number nearest to 10^-32.
pub fn polar_bound_factor() -> (x: Binary64)
    ensures
        x.is_within_half_ulp_of(1, 100_000_000_000_000_000_000_000_000_000_000),
{
    let x = Binary64 { bits: 0x3949_f623_d5a8_a733 };
    proof {
        lemma2_to64();
        lemma_pow2_adds(64, 64);
        lemma_pow2_adds(128, 31);
        assert(x.biased_exponent() == 916 && x.fraction() == 0x9f623d5a8a733);
        lemma_is_within_half_ulp_of(x, 1, 100_000_000_000_000_000_000_000_000_000_000);
    }
    x
}

/// Sorts a geocentric position into its case: `dist2` is the square of its
/// distance from the polar axis, `aeps2` the square below which that distance
/// counts as none, and `z` its third coordinate.
pub fn geodetic_case(dist2: Binary64, aeps2: Binary64, z: Binary64) -> (case: GeodeticCase)
    ensures
        case == geodetic_case_of(dist2, aeps2, z),
{
    let zero = Binary64::zero();
    GeodeticCase { off_axis: zero.lt(dist2), polar: !aeps2.lt(dist2), south: z.lt(zero) }
}

/// Checks the discriminant of a transformation from geodetic to geocentric
/// coordinates.
///
/// # Errors
///
/// `Unrealistic` if `d <= 0`.
pub fn check_discriminant(d: Binary64) -> (verdict: Result<(), ErfaError>)
    ensures
        verdict == discriminant_verdict(d),
{
    if d.le(Binary64::zero()) {
        return Err(ErfaError::Unrealistic { function: "geodetic_to_geocentric_inner" });
    }
    Ok(())
}

/// The longitude is set by convention only where the solution for the pole
/// is used, whenever the square that bounds the polar case is not negative.
pub proof fn lemma_on_axis_is_polar(dist2: Binary64, aeps2: Binary64, z: Binary64)
    requires
        !aeps2.less(Binary64 { bits: 0 }),
    ensures
        !geodetic_case_of(dist2, aeps2, z).off_axis ==> geodetic_case_of(dist2, aeps2, z).polar,
{
}

/// The parameters of each reference ellipsoid pass the check: a
/// transformation on a named ellipsoid never fails on its ellipsoid.
pub proof fn lemma_named_ellipsoids_pass(e: Ellipsoid)
    ensures
        ellipsoid_verdict(e.params().0, e.params().1) == Ok::<(), ErfaError>(()),
{
    let (a, f) = e.params();
    lemma_params(e);
    lemma_one();
    lemma_pow2_pos(UNIT_EXPONENT as nat);
    assert(a.units() * 1 == e.radius_metres() * pow2(UNIT_EXPONENT as nat));
    assert(e.radius_metres() * pow2(UNIT_EXPONENT as nat) > 0) by (nonlinear_arith)
        requires
            e.radius_metres() > 0,
            pow2(UNIT_EXPONENT as nat) > 0,
    ;
}

} // verus!
