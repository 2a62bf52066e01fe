//! Sidereal time: its polynomial, and the series that the CIO locator rests
//! on.

use crate::binary64::{lemma_is_within_half_ulp_of, Binary64};
use vstd::arithmetic::power2::{lemma2_to64, lemma2_to64_rest, lemma_pow2_adds};
use vstd::prelude::*;

pub mod s06;

verus! {

/// Greenwich mean sidereal time less the Earth rotation angle, consistent
/// with the IAU 2006 precession: the coefficients of the powers 0 to 5 of the
/// time, in arcseconds. The time is in Julian centuries since J2000.0 (TT).
///
/// Published: `0.014506`, `4612.156534`, `1.3915817`, `-0.00000044`,
/// `-0.000029956`, `-0.0000000368`.
pub fn gmst_coefficients() -> (c: [Binary64; 6])
    ensures
        c[0].is_within_half_ulp_of(14_506, 1_000_000),
        c[1].is_within_half_ulp_of(4_612_156_534, 1_000_000),
        c[2].is_within_half_ulp_of(13_915_817, 10_000_000),
        c[3].is_within_half_ulp_of(-44, 100_000_000),
        c[4].is_within_half_ulp_of(-29_956, 1_000_000_000),
        c[5].is_within_half_ulp_of(-368, 10_000_000_000),
{
    let c = [
        Binary64 { bits: 0x3f8d_b552_5cc4_2635 },
        Binary64 { bits: 0x40b2_0428_129c_bab6 },
        Binary64 { bits: 0x3ff6_43eb_2c33_64b1 },
        Binary64 { bits: 0xbe9d_8724_7702_c0d0 },
        Binary64 { bits: 0xbeff_6940_a525_82b5 },
        Binary64 { bits: 0xbe63_c1c0_e493_105e },
    ];
    proof {
        lemma2_to64();
        lemma2_to64_rest();
        assert(c[0].is_within_half_ulp_of(14_506, 1_000_000)) by {
            assert(c[0].biased_exponent() == 1016 && c[0].fraction() == 0xdb5525cc42635);
            lemma_is_within_half_ulp_of(c[0], 14_506, 1_000_000);
        }
        assert(c[1].is_within_half_ulp_of(4_612_156_534, 1_000_000)) by {
            assert(c[1].biased_exponent() == 1035 && c[1].fraction() == 0x20428129cbab6);
            lemma_is_within_half_ulp_of(c[1], 4_612_156_534, 1_000_000);
        }
        assert(c[2].is_within_half_ulp_of(13_915_817, 10_000_000)) by {
            assert(c[2].biased_exponent() == 1023 && c[2].fraction() == 0x643eb2c3364b1);
            lemma_is_within_half_ulp_of(c[2], 13_915_817, 10_000_000);
        }
        assert(c[3].is_within_half_ulp_of(-44, 100_000_000)) by {
            assert(c[3].biased_exponent() == 1001 && c[3].fraction() == 0xd87247702c0d0);
            lemma_pow2_adds(64, 10);
            lemma_is_within_half_ulp_of(c[3], -44, 100_000_000);
        }
        assert(c[4].is_within_half_ulp_of(-29_956, 1_000_000_000)) by {
            assert(c[4].biased_exponent() == 1007 && c[4].fraction() == 0xf6940a52582b5);
            lemma_pow2_adds(64, 4);
            lemma_is_within_half_ulp_of(c[4], -29_956, 1_000_000_000);
        }
        assert(c[5].is_within_half_ulp_of(-368, 10_000_000_000)) by {
            assert(c[5].biased_exponent() == 998 && c[5].fraction() == 0x3c1c0e493105e);
            lemma_pow2_adds(64, 13);
            lemma_is_within_half_ulp_of(c[5], -368, 10_000_000_000);
        }
    }
    c
}

} // verus!
