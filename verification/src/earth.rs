//! Earth rotation: its rate, and how the two parts of a date are taken.

use crate::binary64::{lemma_is_within_half_ulp_of, Binary64};
use vstd::arithmetic::power2::{lemma2_to64, lemma2_to64_rest, lemma_pow2_adds};
use vstd::prelude::*;

verus! {

/// The two parts of a date with the smaller first, as the Earth rotation
/// angle takes them. Where neither is smaller, and so where one is a NaN,
/// they change places.
pub open spec fn ordered_parts(dj1: Binary64, dj2: Binary64) -> (Binary64, Binary64) {
    if dj1.less(dj2) {
        (dj1, dj2)
    } else {
        (dj2, dj1)
    }
}

/// Orders the two parts of a date, the smaller first: the larger is the day
/// from which the Earth rotation angle counts.
pub fn order_parts(dj1: Binary64, dj2: Binary64) -> (parts: (Binary64, Binary64))
    ensures
        parts == ordered_parts(dj1, dj2),
{
    if dj1.lt(dj2) {
        (dj1, dj2)
    } else {
        (dj2, dj1)
    }
}

/// The parts come out in order, and as the same two numbers whichever was
/// given first: a date may be split either way round.
pub proof fn lemma_ordered_parts(dj1: Binary64, dj2: Binary64)
    requires
        !dj1.nan(),
        !dj2.nan(),
    ensures
        ordered_parts(dj1, dj2).0.less_eq(ordered_parts(dj1, dj2).1),
        ordered_parts(dj1, dj2).0.units() == ordered_parts(dj2, dj1).0.units(),
        ordered_parts(dj1, dj2).1.units() == ordered_parts(dj2, dj1).1.units(),
{
}

/// The Earth rotation angle at J2000.0, and what it gains in a day of UT1
/// over one turn, both in turns.
///
/// Published: `0.7790572732640`, `0.00273781191135448`.
pub fn rotation_coefficients() -> (c: [Binary64; 2])
    ensures
        c[0].is_within_half_ulp_of(779_057_273_264, 1_000_000_000_000),
        c[1].is_within_half_ulp_of(273_781_191_135_448, 100_000_000_000_000_000),
{
    let c = [
        Binary64 { bits: 0x3fe8_ee09_84cc_2772 },
        Binary64 { bits: 0x3f66_6d9b_93e6_5515 },
    ];
    proof {
        lemma2_to64();
        lemma2_to64_rest();
        assert(c[0].is_within_half_ulp_of(779_057_273_264, 1_000_000_000_000)) by {
            assert(c[0].biased_exponent() == 1022 && c[0].fraction() == 0x8ee0984cc2772);
            lemma_is_within_half_ulp_of(c[0], 779_057_273_264, 1_000_000_000_000);
        }
        assert(c[1].is_within_half_ulp_of(273_781_191_135_448, 100_000_000_000_000_000)) by {
            assert(c[1].biased_exponent() == 1014 && c[1].fraction() == 0x66d9b93e65515);
            lemma_is_within_half_ulp_of(c[1], 273_781_191_135_448, 100_000_000_000_000_000);
        }
    }
    c
}

} // verus!
