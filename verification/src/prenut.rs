//! Precession and nutation: the coefficients of their polynomials, and what
//! is read off their matrices.
//!
//! The time of the polynomials is in Julian centuries since J2000.0 (TT).

use crate::binary64::{lemma_is_within_half_ulp_of, Binary64};
use vstd::arithmetic::power2::{lemma2_to64, lemma2_to64_rest, lemma_pow2_adds};
use vstd::prelude::*;

verus! {

/// The x and y coordinates of the Celestial Intermediate Pole in a
/// bias-precession-nutation matrix: the first two elements of its bottom row.
pub fn bpn_to_xy(rbpn: [[Binary64; 3]; 3]) -> (xy: (Binary64, Binary64))
    ensures
        xy == (rbpn[2][0], rbpn[2][1]),
{
    (rbpn[2][0], rbpn[2][1])
}

/// Mean obliquity of the ecliptic, IAU 2006: the coefficients of the powers 0
/// to 5 of the time, in arcseconds. Each is the number nearest to the
/// published value.
///
/// Published: `84381.406`, `-46.836769`, `-0.0001831`, `0.00200340`,
/// `-0.000000576`, `-0.0000000434`.
pub fn obliquity_coefficients() -> (c: [Binary64; 6])
    ensures
        c[0].is_within_half_ulp_of(84_381_406, 1_000),
        c[1].is_within_half_ulp_of(-46_836_769, 1_000_000),
        c[2].is_within_half_ulp_of(-1_831, 10_000_000),
        c[3].is_within_half_ulp_of(20_034, 10_000_000),
        c[4].is_within_half_ulp_of(-576, 1_000_000_000),
        c[5].is_within_half_ulp_of(-434, 10_000_000_000),
{
    let c = [
        Binary64 { bits: 0x40f4_99d6_7ef9_db23 },
        Binary64 { bits: 0xc047_6b1b_3f20_a73f },
        Binary64 { bits: 0xbf27_ffd1_0617_7136 },
        Binary64 { bits: 0x3f60_696f_2f62_c41a },
        Binary64 { bits: 0xbea3_53cd_652b_b167 },
        Binary64 { bits: 0xbe67_4cd9_bfa7_dfd3 },
    ];
    proof {
        lemma2_to64();
        lemma2_to64_rest();
        assert(c[0].is_within_half_ulp_of(84_381_406, 1_000)) by {
            assert(c[0].biased_exponent() == 1039 && c[0].fraction() == 0x499d67ef9db23);
            lemma_is_within_half_ulp_of(c[0], 84_381_406, 1_000);
        }
        assert(c[1].is_within_half_ulp_of(-46_836_769, 1_000_000)) by {
            assert(c[1].biased_exponent() == 1028 && c[1].fraction() == 0x76b1b3f20a73f);
            lemma_is_within_half_ulp_of(c[1], -46_836_769, 1_000_000);
        }
        assert(c[2].is_within_half_ulp_of(-1_831, 10_000_000)) by {
            assert(c[2].biased_exponent() == 1010 && c[2].fraction() == 0x7ffd106177136);
            lemma_pow2_adds(64, 1);
            lemma_is_within_half_ulp_of(c[2], -1_831, 10_000_000);
        }
        assert(c[3].is_within_half_ulp_of(20_034, 10_000_000)) by {
            assert(c[3].biased_exponent() == 1014 && c[3].fraction() == 0x696f2f62c41a);
            lemma_is_within_half_ulp_of(c[3], 20_034, 10_000_000);
        }
        assert(c[4].is_within_half_ulp_of(-576, 1_000_000_000)) by {
            assert(c[4].biased_exponent() == 1002 && c[4].fraction() == 0x353cd652bb167);
            lemma_pow2_adds(64, 9);
            lemma_is_within_half_ulp_of(c[4], -576, 1_000_000_000);
        }
        assert(c[5].is_within_half_ulp_of(-434, 10_000_000_000)) by {
            assert(c[5].biased_exponent() == 998 && c[5].fraction() == 0x74cd9bfa7dfd3);
            lemma_pow2_adds(64, 13);
            lemma_is_within_half_ulp_of(c[5], -434, 10_000_000_000);
        }
    }
    c
}

/// Luni-solar precession: the coefficients of the powers 1 to 5 of the time,
/// in arcseconds.
///
/// Published: `5038.481507`, `-1.0790069`, `-0.00114045`, `0.000132851`,
/// `-0.0000000951`.
pub fn psia_coefficients() -> (c: [Binary64; 5])
    ensures
        c[0].is_within_half_ulp_of(5_038_481_507, 1_000_000),
        c[1].is_within_half_ulp_of(-10_790_069, 10_000_000),
        c[2].is_within_half_ulp_of(-114_045, 100_000_000),
        c[3].is_within_half_ulp_of(132_851, 1_000_000_000),
        c[4].is_within_half_ulp_of(-951, 10_000_000_000),
{
    let c = [
        Binary64 { bits: 0x40b3_ae7b_440a_f1cc },
        Binary64 { bits: 0xbff1_439c_bd3a_8892 },
        Binary64 { bits: 0xbf52_af64_dcf9_6abb },
        Binary64 { bits: 0x3f21_69bd_6685_f987 },
        Binary64 { bits: 0xbe79_8738_e490_1c74 },
    ];
    proof {
        lemma2_to64();
        lemma2_to64_rest();
        assert(c[0].is_within_half_ulp_of(5_038_481_507, 1_000_000)) by {
            assert(c[0].biased_exponent() == 1035 && c[0].fraction() == 0x3ae7b440af1cc);
            lemma_is_within_half_ulp_of(c[0], 5_038_481_507, 1_000_000);
        }
        assert(c[1].is_within_half_ulp_of(-10_790_069, 10_000_000)) by {
            assert(c[1].biased_exponent() == 1023 && c[1].fraction() == 0x1439cbd3a8892);
            lemma_is_within_half_ulp_of(c[1], -10_790_069, 10_000_000);
        }
        assert(c[2].is_within_half_ulp_of(-114_045, 100_000_000)) by {
            assert(c[2].biased_exponent() == 1013 && c[2].fraction() == 0x2af64dcf96abb);
            lemma_is_within_half_ulp_of(c[2], -114_045, 100_000_000);
        }
        assert(c[3].is_within_half_ulp_of(132_851, 1_000_000_000)) by {
            assert(c[3].biased_exponent() == 1010 && c[3].fraction() == 0x169bd6685f987);
            lemma_pow2_adds(64, 1);
            lemma_is_within_half_ulp_of(c[3], 132_851, 1_000_000_000);
        }
        assert(c[4].is_within_half_ulp_of(-951, 10_000_000_000)) by {
            assert(c[4].biased_exponent() == 999 && c[4].fraction() == 0x98738e4901c74);
            lemma_pow2_adds(64, 12);
            lemma_is_within_half_ulp_of(c[4], -951, 10_000_000_000);
        }
    }
    c
}

/// Inclination of the mean equator with respect to the J2000.0 ecliptic, less
/// the obliquity at J2000.0: the coefficients of the powers 1 to 5 of the
/// time, in arcseconds.
///
/// Published: `-0.025754`, `0.0512623`, `-0.00772503`, `-0.000000467`,
/// `0.0000003337`.
pub fn oma_coefficients() -> (c: [Binary64; 5])
    ensures
        c[0].is_within_half_ulp_of(-25_754, 1_000_000),
        c[1].is_within_half_ulp_of(512_623, 10_000_000),
        c[2].is_within_half_ulp_of(-772_503, 100_000_000),
        c[3].is_within_half_ulp_of(-467, 1_000_000_000),
        c[4].is_within_half_ulp_of(3_337, 10_000_000_000),
{
    let c = [
        Binary64 { bits: 0xbf9a_5f41_aef6_f8f0 },
        Binary64 { bits: 0x3faa_3f0d_5c09_1552 },
        Binary64 { bits: 0xbf7f_a447_f35e_b1e7 },
        Binary64 { bits: 0xbe9f_56ff_b87e_d971 },
        Binary64 { bits: 0x3e96_64ec_1ee9_d382 },
    ];
    proof {
        lemma2_to64();
        lemma2_to64_rest();
        assert(c[0].is_within_half_ulp_of(-25_754, 1_000_000)) by {
            assert(c[0].biased_exponent() == 1017 && c[0].fraction() == 0xa5f41aef6f8f0);
            lemma_is_within_half_ulp_of(c[0], -25_754, 1_000_000);
        }
        assert(c[1].is_within_half_ulp_of(512_623, 10_000_000)) by {
            assert(c[1].biased_exponent() == 1018 && c[1].fraction() == 0xa3f0d5c091552);
            lemma_is_within_half_ulp_of(c[1], 512_623, 10_000_000);
        }
        assert(c[2].is_within_half_ulp_of(-772_503, 100_000_000)) by {
            assert(c[2].biased_exponent() == 1015 && c[2].fraction() == 0xfa447f35eb1e7);
            lemma_is_within_half_ulp_of(c[2], -772_503, 100_000_000);
        }
        assert(c[3].is_within_half_ulp_of(-467, 1_000_000_000)) by {
            assert(c[3].biased_exponent() == 1001 && c[3].fraction() == 0xf56ffb87ed971);
            lemma_pow2_adds(64, 10);
            lemma_is_within_half_ulp_of(c[3], -467, 1_000_000_000);
        }
        assert(c[4].is_within_half_ulp_of(3_337, 10_000_000_000)) by {
            assert(c[4].biased_exponent() == 1001 && c[4].fraction() == 0x664ec1ee9d382);
            lemma_pow2_adds(64, 10);
            lemma_is_within_half_ulp_of(c[4], 3_337, 10_000_000_000);
        }
    }
    c
}

/// Ecliptic pole x, J2000.0 ecliptic triad: the coefficients of the powers 1
/// to 5 of the time, in arcseconds.
///
/// Published: `4.199094`, `0.1939873`, `-0.00022466`, `-0.000000912`,
/// `0.0000000120`.
pub fn bpa_coefficients() -> (c: [Binary64; 5])
    ensures
        c[0].is_within_half_ulp_of(4_199_094, 1_000_000),
        c[1].is_within_half_ulp_of(1_939_873, 10_000_000),
        c[2].is_within_half_ulp_of(-22_466, 100_000_000),
        c[3].is_within_half_ulp_of(-912, 1_000_000_000),
        c[4].is_within_half_ulp_of(12, 1_000_000_000),
{
    let c = [
        Binary64 { bits: 0x4010_cbdf_4c2b_51bd },
        Binary64 { bits: 0x3fc8_d493_6aab_6f85 },
        Binary64 { bits: 0xbf2d_7256_b497_a1c8 },
        Binary64 { bits: 0xbeae_9a05_3585_2e39 },
        Binary64 { bits: 0x3e49_c511_dc3a_41df },
    ];
    proof {
        lemma2_to64();
        lemma2_to64_rest();
        assert(c[0].is_within_half_ulp_of(4_199_094, 1_000_000)) by {
            assert(c[0].biased_exponent() == 1025 && c[0].fraction() == 0xcbdf4c2b51bd);
            lemma_is_within_half_ulp_of(c[0], 4_199_094, 1_000_000);
        }
        assert(c[1].is_within_half_ulp_of(1_939_873, 10_000_000)) by {
            assert(c[1].biased_exponent() == 1020 && c[1].fraction() == 0x8d4936aab6f85);
            lemma_is_within_half_ulp_of(c[1], 1_939_873, 10_000_000);
        }
        assert(c[2].is_within_half_ulp_of(-22_466, 100_000_000)) by {
            assert(c[2].biased_exponent() == 1010 && c[2].fraction() == 0xd7256b497a1c8);
            lemma_pow2_adds(64, 1);
            lemma_is_within_half_ulp_of(c[2], -22_466, 100_000_000);
        }
        assert(c[3].is_within_half_ulp_of(-912, 1_000_000_000)) by {
            assert(c[3].biased_exponent() == 1002 && c[3].fraction() == 0xe9a0535852e39);
            lemma_pow2_adds(64, 9);
            lemma_is_within_half_ulp_of(c[3], -912, 1_000_000_000);
        }
        assert(c[4].is_within_half_ulp_of(12, 1_000_000_000)) by {
            assert(c[4].biased_exponent() == 996 && c[4].fraction() == 0x9c511dc3a41df);
            lemma_pow2_adds(64, 15);
            lemma_is_within_half_ulp_of(c[4], 12, 1_000_000_000);
        }
    }
    c
}

/// Ecliptic pole -y, J2000.0 ecliptic triad: the coefficients of the powers 1
/// to 5 of the time, in arcseconds.
///
/// Published: `-46.811015`, `0.0510283`, `0.00052413`, `-0.000000646`,
/// `-0.0000000172`.
pub fn bqa_coefficients() -> (c: [Binary64; 5])
    ensures
        c[0].is_within_half_ulp_of(-46_811_015, 1_000_000),
        c[1].is_within_half_ulp_of(510_283, 10_000_000),
        c[2].is_within_half_ulp_of(52_413, 100_000_000),
        c[3].is_within_half_ulp_of(-646, 1_000_000_000),
        c[4].is_within_half_ulp_of(-172, 10_000_000_000),
{
    let c = [
        Binary64 { bits: 0xc047_67cf_56ea_c860 },
        Binary64 { bits: 0x3faa_2061_9f57_48bc },
        Binary64 { bits: 0x3f41_2cb8_9abb_ad96 },
        Binary64 { bits: 0xbea5_ad19_05e9_00be },
        Binary64 { bits: 0xbe52_77e6_665c_f379 },
    ];
    proof {
        lemma2_to64();
        lemma2_to64_rest();
        assert(c[0].is_within_half_ulp_of(-46_811_015, 1_000_000)) by {
            assert(c[0].biased_exponent() == 1028 && c[0].fraction() == 0x767cf56eac860);
            lemma_is_within_half_ulp_of(c[0], -46_811_015, 1_000_000);
        }
        assert(c[1].is_within_half_ulp_of(510_283, 10_000_000)) by {
            assert(c[1].biased_exponent() == 1018 && c[1].fraction() == 0xa20619f5748bc);
            lemma_is_within_half_ulp_of(c[1], 510_283, 10_000_000);
        }
        assert(c[2].is_within_half_ulp_of(52_413, 100_000_000)) by {
            assert(c[2].biased_exponent() == 1012 && c[2].fraction() == 0x12cb89abbad96);
            lemma_is_within_half_ulp_of(c[2], 52_413, 100_000_000);
        }
        assert(c[3].is_within_half_ulp_of(-646, 1_000_000_000)) by {
            assert(c[3].biased_exponent() == 1002 && c[3].fraction() == 0x5ad1905e900be);
            lemma_pow2_adds(64, 9);
            lemma_is_within_half_ulp_of(c[3], -646, 1_000_000_000);
        }
        assert(c[4].is_within_half_ulp_of(-172, 10_000_000_000)) by {
            assert(c[4].biased_exponent() == 997 && c[4].fraction() == 0x277e6665cf379);
            lemma_pow2_adds(64, 14);
            lemma_is_within_half_ulp_of(c[4], -172, 10_000_000_000);
        }
    }
    c
}

/// Angle between the moving and the J2000.0 ecliptics: the coefficients of
/// the powers 1 to 5 of the time, in arcseconds.
///
/// Published: `46.998973`, `-0.0334926`, `-0.00012559`, `0.000000113`,
/// `-0.0000000022`.
pub fn pia_coefficients() -> (c: [Binary64; 5])
    ensures
        c[0].is_within_half_ulp_of(46_998_973, 1_000_000),
        c[1].is_within_half_ulp_of(-334_926, 10_000_000),
        c[2].is_within_half_ulp_of(-12_559, 100_000_000),
        c[3].is_within_half_ulp_of(113, 1_000_000_000),
        c[4].is_within_half_ulp_of(-22, 10_000_000_000),
{
    let c = [
        Binary64 { bits: 0x4047_7fde_58e6_4b23 },
        Binary64 { bits: 0xbfa1_25f1_2b50_e6a2 },
        Binary64 { bits: 0xbf20_7619_e2aa_2ebd },
        Binary64 { bits: 0x3e7e_554d_05e4_92df },
        Binary64 { bits: 0xbe22_e5d9_e5c4_5270 },
    ];
    proof {
        lemma2_to64();
        lemma2_to64_rest();
        assert(c[0].is_within_half_ulp_of(46_998_973, 1_000_000)) by {
            assert(c[0].biased_exponent() == 1028 && c[0].fraction() == 0x77fde58e64b23);
            lemma_is_within_half_ulp_of(c[0], 46_998_973, 1_000_000);
        }
        assert(c[1].is_within_half_ulp_of(-334_926, 10_000_000)) by {
            assert(c[1].biased_exponent() == 1018 && c[1].fraction() == 0x125f12b50e6a2);
            lemma_is_within_half_ulp_of(c[1], -334_926, 10_000_000);
        }
        assert(c[2].is_within_half_ulp_of(-12_559, 100_000_000)) by {
            assert(c[2].biased_exponent() == 1010 && c[2].fraction() == 0x7619e2aa2ebd);
            lemma_pow2_adds(64, 1);
            lemma_is_within_half_ulp_of(c[2], -12_559, 100_000_000);
        }
        assert(c[3].is_within_half_ulp_of(113, 1_000_000_000)) by {
            assert(c[3].biased_exponent() == 999 && c[3].fraction() == 0xe554d05e492df);
            lemma_pow2_adds(64, 12);
            lemma_is_within_half_ulp_of(c[3], 113, 1_000_000_000);
        }
        assert(c[4].is_within_half_ulp_of(-22, 10_000_000_000)) by {
            assert(c[4].biased_exponent() == 994 && c[4].fraction() == 0x2e5d9e5c45270);
            lemma_pow2_adds(64, 17);
            lemma_is_within_half_ulp_of(c[4], -22, 10_000_000_000);
        }
    }
    c
}

/// Longitude of the ascending node of the moving ecliptic: the coefficients
/// of the powers 0 to 5 of the time, in arcseconds.
///
/// Published: `629546.7936`, `-867.95758`, `0.157992`, `-0.0005371`,
/// `-0.00004797`, `0.000000072`.
pub fn bpia_coefficients() -> (c: [Binary64; 6])
    ensures
        c[0].is_within_half_ulp_of(6_295_467_936, 10_000),
        c[1].is_within_half_ulp_of(-86_795_758, 100_000),
        c[2].is_within_half_ulp_of(157_992, 1_000_000),
        c[3].is_within_half_ulp_of(-5_371, 10_000_000),
        c[4].is_within_half_ulp_of(-4_797, 100_000_000),
        c[5].is_within_half_ulp_of(72, 1_000_000_000),
{
    let c = [
        Binary64 { bits: 0x4123_3655_9652_bd3c },
        Binary64 { bits: 0xc08b_1fa9_1fb3_fa6e },
        Binary64 { bits: 0x3fc4_3914_f483_cafb },
        Binary64 { bits: 0xbf41_9985_77a3_a58c },
        Binary64 { bits: 0xbf09_266c_a646_7b3a },
        Binary64 { bits: 0x3e73_53cd_652b_b167 },
    ];
    proof {
        lemma2_to64();
        lemma2_to64_rest();
        assert(c[0].is_within_half_ulp_of(6_295_467_936, 10_000)) by {
            assert(c[0].biased_exponent() == 1042 && c[0].fraction() == 0x336559652bd3c);
            lemma_is_within_half_ulp_of(c[0], 6_295_467_936, 10_000);
        }
        assert(c[1].is_within_half_ulp_of(-86_795_758, 100_000)) by {
            assert(c[1].biased_exponent() == 1032 && c[1].fraction() == 0xb1fa91fb3fa6e);
            lemma_is_within_half_ulp_of(c[1], -86_795_758, 100_000);
        }
        assert(c[2].is_within_half_ulp_of(157_992, 1_000_000)) by {
            assert(c[2].biased_exponent() == 1020 && c[2].fraction() == 0x43914f483cafb);
            lemma_is_within_half_ulp_of(c[2], 157_992, 1_000_000);
        }
        assert(c[3].is_within_half_ulp_of(-5_371, 10_000_000)) by {
            assert(c[3].biased_exponent() == 1012 && c[3].fraction() == 0x1998577a3a58c);
            lemma_is_within_half_ulp_of(c[3], -5_371, 10_000_000);
        }
        assert(c[4].is_within_half_ulp_of(-4_797, 100_000_000)) by {
            assert(c[4].biased_exponent() == 1008 && c[4].fraction() == 0x9266ca6467b3a);
            lemma_pow2_adds(64, 3);
            lemma_is_within_half_ulp_of(c[4], -4_797, 100_000_000);
        }
        assert(c[5].is_within_half_ulp_of(72, 1_000_000_000)) by {
            assert(c[5].biased_exponent() == 999 && c[5].fraction() == 0x353cd652bb167);
            lemma_pow2_adds(64, 12);
            lemma_is_within_half_ulp_of(c[5], 72, 1_000_000_000);
        }
    }
    c
}

/// Planetary precession: the coefficients of the powers 1 to 5 of the time,
/// in arcseconds.
///
/// Published: `10.556403`, `-2.3814292`, `-0.00121197`, `0.000170663`,
/// `-0.0000000560`.
pub fn chia_coefficients() -> (c: [Binary64; 5])
    ensures
        c[0].is_within_half_ulp_of(10_556_403, 1_000_000),
        c[1].is_within_half_ulp_of(-23_814_292, 10_000_000),
        c[2].is_within_half_ulp_of(-121_197, 100_000_000),
        c[3].is_within_half_ulp_of(170_663, 1_000_000_000),
        c[4].is_within_half_ulp_of(-56, 1_000_000_000),
{
    let c = [
        Binary64 { bits: 0x4025_1ce0_daa0_cae6 },
        Binary64 { bits: 0xc003_0d2a_c09d_ea61 },
        Binary64 { bits: 0xbf53_db5e_e0e1_00e1 },
        Binary64 { bits: 0x3f26_5e80_01dc_bdca },
        Binary64 { bits: 0xbe6e_1094_d643_f784 },
    ];
    proof {
        lemma2_to64();
        lemma2_to64_rest();
        assert(c[0].is_within_half_ulp_of(10_556_403, 1_000_000)) by {
            assert(c[0].biased_exponent() == 1026 && c[0].fraction() == 0x51ce0daa0cae6);
            lemma_is_within_half_ulp_of(c[0], 10_556_403, 1_000_000);
        }
        assert(c[1].is_within_half_ulp_of(-23_814_292, 10_000_000)) by {
            assert(c[1].biased_exponent() == 1024 && c[1].fraction() == 0x30d2ac09dea61);
            lemma_is_within_half_ulp_of(c[1], -23_814_292, 10_000_000);
        }
        assert(c[2].is_within_half_ulp_of(-121_197, 100_000_000)) by {
            assert(c[2].biased_exponent() == 1013 && c[2].fraction() == 0x3db5ee0e100e1);
            lemma_is_within_half_ulp_of(c[2], -121_197, 100_000_000);
        }
        assert(c[3].is_within_half_ulp_of(170_663, 1_000_000_000)) by {
            assert(c[3].biased_exponent() == 1010 && c[3].fraction() == 0x65e8001dcbdca);
            lemma_pow2_adds(64, 1);
            lemma_is_within_half_ulp_of(c[3], 170_663, 1_000_000_000);
        }
        assert(c[4].is_within_half_ulp_of(-56, 1_000_000_000)) by {
            assert(c[4].biased_exponent() == 998 && c[4].fraction() == 0xe1094d643f784);
            lemma_pow2_adds(64, 13);
            lemma_is_within_half_ulp_of(c[4], -56, 1_000_000_000);
        }
    }
    c
}

/// Equatorial precession, minus the third of the 323 Euler angles: the
/// coefficients of the powers 0 to 5 of the time, in arcseconds.
///
/// Published: `-2.650545`, `2306.077181`, `1.0927348`, `0.01826837`,
/// `-0.000028596`, `-0.0000002904`.
pub fn za_coefficients() -> (c: [Binary64; 6])
    ensures
        c[0].is_within_half_ulp_of(-2_650_545, 1_000_000),
        c[1].is_within_half_ulp_of(2_306_077_181, 1_000_000),
        c[2].is_within_half_ulp_of(10_927_348, 10_000_000),
        c[3].is_within_half_ulp_of(1_826_837, 100_000_000),
        c[4].is_within_half_ulp_of(-28_596, 1_000_000_000),
        c[5].is_within_half_ulp_of(-2_904, 10_000_000_000),
{
    let c = [
        Binary64 { bits: 0xc005_3450_efdc_9c4e },
        Binary64 { bits: 0x40a2_0427_8444_9dbf },
        Binary64 { bits: 0x3ff1_7bd7_7c53_37b5 },
        Binary64 { bits: 0x3f92_b4f1_8ece_0e96 },
        Binary64 { bits: 0xbefd_fc2e_2820_4965 },
        Binary64 { bits: 0xbe93_7d08_b4f2_7504 },
    ];
    proof {
        lemma2_to64();
        lemma2_to64_rest();
        assert(c[0].is_within_half_ulp_of(-2_650_545, 1_000_000)) by {
            assert(c[0].biased_exponent() == 1024 && c[0].fraction() == 0x53450efdc9c4e);
            lemma_is_within_half_ulp_of(c[0], -2_650_545, 1_000_000);
        }
        assert(c[1].is_within_half_ulp_of(2_306_077_181, 1_000_000)) by {
            assert(c[1].biased_exponent() == 1034 && c[1].fraction() == 0x2042784449dbf);
            lemma_is_within_half_ulp_of(c[1], 2_306_077_181, 1_000_000);
        }
        assert(c[2].is_within_half_ulp_of(10_927_348, 10_000_000)) by {
            assert(c[2].biased_exponent() == 1023 && c[2].fraction() == 0x17bd77c5337b5);
            lemma_is_within_half_ulp_of(c[2], 10_927_348, 10_000_000);
        }
        assert(c[3].is_within_half_ulp_of(1_826_837, 100_000_000)) by {
            assert(c[3].biased_exponent() == 1017 && c[3].fraction() == 0x2b4f18ece0e96);
            lemma_is_within_half_ulp_of(c[3], 1_826_837, 100_000_000);
        }
        assert(c[4].is_within_half_ulp_of(-28_596, 1_000_000_000)) by {
            assert(c[4].biased_exponent() == 1007 && c[4].fraction() == 0xdfc2e28204965);
            lemma_pow2_adds(64, 4);
            lemma_is_within_half_ulp_of(c[4], -28_596, 1_000_000_000);
        }
        assert(c[5].is_within_half_ulp_of(-2_904, 10_000_000_000)) by {
            assert(c[5].biased_exponent() == 1001 && c[5].fraction() == 0x37d08b4f27504);
            lemma_pow2_adds(64, 10);
            lemma_is_within_half_ulp_of(c[5], -2_904, 10_000_000_000);
        }
    }
    c
}

/// Equatorial precession, minus the first of the 323 Euler angles: the
/// coefficients of the powers 0 to 5 of the time, in arcseconds.
///
/// Published: `2.650545`, `2306.083227`, `0.2988499`, `0.01801828`,
/// `-0.000005971`, `-0.0000003173`.
pub fn zetaa_coefficients() -> (c: [Binary64; 6])
    ensures
        c[0].is_within_half_ulp_of(2_650_545, 1_000_000),
        c[1].is_within_half_ulp_of(2_306_083_227, 1_000_000),
        c[2].is_within_half_ulp_of(2_988_499, 10_000_000),
        c[3].is_within_half_ulp_of(1_801_828, 100_000_000),
        c[4].is_within_half_ulp_of(-5_971, 1_000_000_000),
        c[5].is_within_half_ulp_of(-3_173, 10_000_000_000),
{
    let c = [
        Binary64 { bits: 0x4005_3450_efdc_9c4e },
        Binary64 { bits: 0x40a2_042a_9cba_b64a },
        Binary64 { bits: 0x3fd3_205b_54ba_6c78 },
        Binary64 { bits: 0x3f92_7362_4d52_1851 },
        Binary64 { bits: 0xbed9_0b4f_fb7c_1def },
        Binary64 { bits: 0xbe95_4b2c_2870_f02a },
    ];
    proof {
        lemma2_to64();
        lemma2_to64_rest();
        assert(c[0].is_within_half_ulp_of(2_650_545, 1_000_000)) by {
            assert(c[0].biased_exponent() == 1024 && c[0].fraction() == 0x53450efdc9c4e);
            lemma_is_within_half_ulp_of(c[0], 2_650_545, 1_000_000);
        }
        assert(c[1].is_within_half_ulp_of(2_306_083_227, 1_000_000)) by {
            assert(c[1].biased_exponent() == 1034 && c[1].fraction() == 0x2042a9cbab64a);
            lemma_is_within_half_ulp_of(c[1], 2_306_083_227, 1_000_000);
        }
        assert(c[2].is_within_half_ulp_of(2_988_499, 10_000_000)) by {
            assert(c[2].biased_exponent() == 1021 && c[2].fraction() == 0x3205b54ba6c78);
            lemma_is_within_half_ulp_of(c[2], 2_988_499, 10_000_000);
        }
        assert(c[3].is_within_half_ulp_of(1_801_828, 100_000_000)) by {
            assert(c[3].biased_exponent() == 1017 && c[3].fraction() == 0x273624d521851);
            lemma_is_within_half_ulp_of(c[3], 1_801_828, 100_000_000);
        }
        assert(c[4].is_within_half_ulp_of(-5_971, 1_000_000_000)) by {
            assert(c[4].biased_exponent() == 1005 && c[4].fraction() == 0x90b4ffb7c1def);
            lemma_pow2_adds(64, 6);
            lemma_is_within_half_ulp_of(c[4], -5_971, 1_000_000_000);
        }
        assert(c[5].is_within_half_ulp_of(-3_173, 10_000_000_000)) by {
            assert(c[5].biased_exponent() == 1001 && c[5].fraction() == 0x54b2c2870f02a);
            lemma_pow2_adds(64, 10);
            lemma_is_within_half_ulp_of(c[5], -3_173, 10_000_000_000);
        }
    }
    c
}

/// Equatorial precession, the second of the 323 Euler angles: the
/// coefficients of the powers 1 to 5 of the time, in arcseconds.
///
/// Published: `2004.191903`, `-0.4294934`, `-0.04182264`, `-0.000007089`,
/// `-0.0000001274`.
pub fn thetaa_coefficients() -> (c: [Binary64; 5])
    ensures
        c[0].is_within_half_ulp_of(2_004_191_903, 1_000_000),
        c[1].is_within_half_ulp_of(-4_294_934, 10_000_000),
        c[2].is_within_half_ulp_of(-4_182_264, 100_000_000),
        c[3].is_within_half_ulp_of(-7_089, 1_000_000_000),
        c[4].is_within_half_ulp_of(-1_274, 10_000_000_000),
{
    let c = [
        Binary64 { bits: 0x409f_50c4_8238_5404 },
        Binary64 { bits: 0xbfdb_7cd1_e2b6_431e },
        Binary64 { bits: 0xbfa5_69c6_ee10_944d },
        Binary64 { bits: 0xbedd_bbc1_7b79_b7c1 },
        Binary64 { bits: 0xbe81_196e_4043_74c6 },
    ];
    proof {
        lemma2_to64();
        lemma2_to64_rest();
        assert(c[0].is_within_half_ulp_of(2_004_191_903, 1_000_000)) by {
            assert(c[0].biased_exponent() == 1033 && c[0].fraction() == 0xf50c482385404);
            lemma_is_within_half_ulp_of(c[0], 2_004_191_903, 1_000_000);
        }
        assert(c[1].is_within_half_ulp_of(-4_294_934, 10_000_000)) by {
            assert(c[1].biased_exponent() == 1021 && c[1].fraction() == 0xb7cd1e2b6431e);
            lemma_is_within_half_ulp_of(c[1], -4_294_934, 10_000_000);
        }
        assert(c[2].is_within_half_ulp_of(-4_182_264, 100_000_000)) by {
            assert(c[2].biased_exponent() == 1018 && c[2].fraction() == 0x569c6ee10944d);
            lemma_is_within_half_ulp_of(c[2], -4_182_264, 100_000_000);
        }
        assert(c[3].is_within_half_ulp_of(-7_089, 1_000_000_000)) by {
            assert(c[3].biased_exponent() == 1005 && c[3].fraction() == 0xdbbc17b79b7c1);
            lemma_pow2_adds(64, 6);
            lemma_is_within_half_ulp_of(c[3], -7_089, 1_000_000_000);
        }
        assert(c[4].is_within_half_ulp_of(-1_274, 10_000_000_000)) by {
            assert(c[4].biased_exponent() == 1000 && c[4].fraction() == 0x1196e404374c6);
            lemma_pow2_adds(64, 11);
            lemma_is_within_half_ulp_of(c[4], -1_274, 10_000_000_000);
        }
    }
    c
}

/// General precession: the coefficients of the powers 1 to 5 of the time, in
/// arcseconds.
///
/// Published: `5028.796195`, `1.1054348`, `0.00007964`, `-0.000023857`,
/// `-0.0000000383`.
pub fn pa_coefficients() -> (c: [Binary64; 5])
    ensures
        c[0].is_within_half_ulp_of(5_028_796_195, 1_000_000),
        c[1].is_within_half_ulp_of(11_054_348, 10_000_000),
        c[2].is_within_half_ulp_of(7_964, 100_000_000),
        c[3].is_within_half_ulp_of(-23_857, 1_000_000_000),
        c[4].is_within_half_ulp_of(-383, 10_000_000_000),
{
    let c = [
        Binary64 { bits: 0x40b3_a4cb_d36f_7e3d },
        Binary64 { bits: 0x3ff1_afdc_669d_c3cb },
        Binary64 { bits: 0x3f14_e08c_c824_f253 },
        Binary64 { bits: 0xbef9_0410_8e76_2d8c },
        Binary64 { bits: 0xbe64_8fe9_7374_e26d },
    ];
    proof {
        lemma2_to64();
        lemma2_to64_rest();
        assert(c[0].is_within_half_ulp_of(5_028_796_195, 1_000_000)) by {
            assert(c[0].biased_exponent() == 1035 && c[0].fraction() == 0x3a4cbd36f7e3d);
            lemma_is_within_half_ulp_of(c[0], 5_028_796_195, 1_000_000);
        }
        assert(c[1].is_within_half_ulp_of(11_054_348, 10_000_000)) by {
            assert(c[1].biased_exponent() == 1023 && c[1].fraction() == 0x1afdc669dc3cb);
            lemma_is_within_half_ulp_of(c[1], 11_054_348, 10_000_000);
        }
        assert(c[2].is_within_half_ulp_of(7_964, 100_000_000)) by {
            assert(c[2].biased_exponent() == 1009 && c[2].fraction() == 0x4e08cc824f253);
            lemma_pow2_adds(64, 2);
            lemma_is_within_half_ulp_of(c[2], 7_964, 100_000_000);
        }
        assert(c[3].is_within_half_ulp_of(-23_857, 1_000_000_000)) by {
            assert(c[3].biased_exponent() == 1007 && c[3].fraction() == 0x904108e762d8c);
            lemma_pow2_adds(64, 4);
            lemma_is_within_half_ulp_of(c[3], -23_857, 1_000_000_000);
        }
        assert(c[4].is_within_half_ulp_of(-383, 10_000_000_000)) by {
            assert(c[4].biased_exponent() == 998 && c[4].fraction() == 0x48fe97374e26d);
            lemma_pow2_adds(64, 13);
            lemma_is_within_half_ulp_of(c[4], -383, 10_000_000_000);
        }
    }
    c
}

/// The Fukushima-Williams angle gamma of the precession: the coefficients of
/// the powers 1 to 5 of the time, in arcseconds.
///
/// Published: `10.556403`, `0.4932044`, `-0.00031238`, `-0.000002788`,
/// `0.0000000260`.
pub fn gam_coefficients() -> (c: [Binary64; 5])
    ensures
        c[0].is_within_half_ulp_of(10_556_403, 1_000_000),
        c[1].is_within_half_ulp_of(4_932_044, 10_000_000),
        c[2].is_within_half_ulp_of(-31_238, 100_000_000),
        c[3].is_within_half_ulp_of(-2_788, 1_000_000_000),
        c[4].is_within_half_ulp_of(26, 1_000_000_000),
{
    let c = [
        Binary64 { bits: 0x4025_1ce0_daa0_cae6 },
        Binary64 { bits: 0x3fdf_90a9_300f_9244 },
        Binary64 { bits: 0xbf34_78dd_e248_dfee },
        Binary64 { bits: 0xbec7_632f_3588_df1d },
        Binary64 { bits: 0x3e5b_ead3_593f_1cb2 },
    ];
    proof {
        lemma2_to64();
        lemma2_to64_rest();
        assert(c[0].is_within_half_ulp_of(10_556_403, 1_000_000)) by {
            assert(c[0].biased_exponent() == 1026 && c[0].fraction() == 0x51ce0daa0cae6);
            lemma_is_within_half_ulp_of(c[0], 10_556_403, 1_000_000);
        }
        assert(c[1].is_within_half_ulp_of(4_932_044, 10_000_000)) by {
            assert(c[1].biased_exponent() == 1021 && c[1].fraction() == 0xf90a9300f9244);
            lemma_is_within_half_ulp_of(c[1], 4_932_044, 10_000_000);
        }
        assert(c[2].is_within_half_ulp_of(-31_238, 100_000_000)) by {
            assert(c[2].biased_exponent() == 1011 && c[2].fraction() == 0x478dde248dfee);
            lemma_is_within_half_ulp_of(c[2], -31_238, 100_000_000);
        }
        assert(c[3].is_within_half_ulp_of(-2_788, 1_000_000_000)) by {
            assert(c[3].biased_exponent() == 1004 && c[3].fraction() == 0x7632f3588df1d);
            lemma_pow2_adds(64, 7);
            lemma_is_within_half_ulp_of(c[3], -2_788, 1_000_000_000);
        }
        assert(c[4].is_within_half_ulp_of(26, 1_000_000_000)) by {
            assert(c[4].biased_exponent() == 997 && c[4].fraction() == 0xbead3593f1cb2);
            lemma_pow2_adds(64, 14);
            lemma_is_within_half_ulp_of(c[4], 26, 1_000_000_000);
        }
    }
    c
}

/// The Fukushima-Williams angle phi of the precession, less the obliquity at
/// J2000.0: the coefficients of the powers 1 to 5 of the time, in arcseconds.
///
/// Published: `-46.811015`, `0.0511269`, `0.00053289`, `-0.000000440`,
/// `-0.0000000176`.
pub fn phi_coefficients() -> (c: [Binary64; 5])
    ensures
        c[0].is_within_half_ulp_of(-46_811_015, 1_000_000),
        c[1].is_within_half_ulp_of(511_269, 10_000_000),
        c[2].is_within_half_ulp_of(53_289, 100_000_000),
        c[3].is_within_half_ulp_of(-44, 100_000_000),
        c[4].is_within_half_ulp_of(-176, 10_000_000_000),
{
    let c = [
        Binary64 { bits: 0xc047_67cf_56ea_c860 },
        Binary64 { bits: 0x3faa_2d4e_16e4_4814 },
        Binary64 { bits: 0x3f41_7634_8fa9_abb5 },
        Binary64 { bits: 0xbe9d_8724_7702_c0d0 },
        Binary64 { bits: 0xbe52_e5d9_e5c4_5270 },
    ];
    proof {
        lemma2_to64();
        lemma2_to64_rest();
        assert(c[0].is_within_half_ulp_of(-46_811_015, 1_000_000)) by {
            assert(c[0].biased_exponent() == 1028 && c[0].fraction() == 0x767cf56eac860);
            lemma_is_within_half_ulp_of(c[0], -46_811_015, 1_000_000);
        }
        assert(c[1].is_within_half_ulp_of(511_269, 10_000_000)) by {
            assert(c[1].biased_exponent() == 1018 && c[1].fraction() == 0xa2d4e16e44814);
            lemma_is_within_half_ulp_of(c[1], 511_269, 10_000_000);
        }
        assert(c[2].is_within_half_ulp_of(53_289, 100_000_000)) by {
            assert(c[2].biased_exponent() == 1012 && c[2].fraction() == 0x176348fa9abb5);
            lemma_is_within_half_ulp_of(c[2], 53_289, 100_000_000);
        }
        assert(c[3].is_within_half_ulp_of(-44, 100_000_000)) by {
            assert(c[3].biased_exponent() == 1001 && c[3].fraction() == 0xd87247702c0d0);
            lemma_pow2_adds(64, 10);
            lemma_is_within_half_ulp_of(c[3], -44, 100_000_000);
        }
        assert(c[4].is_within_half_ulp_of(-176, 10_000_000_000)) by {
            assert(c[4].biased_exponent() == 997 && c[4].fraction() == 0x2e5d9e5c45270);
            lemma_pow2_adds(64, 14);
            lemma_is_within_half_ulp_of(c[4], -176, 10_000_000_000);
        }
    }
    c
}

/// The Fukushima-Williams angle psi of the precession: the coefficients of
/// the powers 1 to 5 of the time, in arcseconds.
///
/// Published: `5038.481507`, `1.5584176`, `-0.00018522`, `-0.000026452`,
/// `-0.0000000148`.
pub fn psi_coefficients() -> (c: [Binary64; 5])
    ensures
        c[0].is_within_half_ulp_of(5_038_481_507, 1_000_000),
        c[1].is_within_half_ulp_of(15_584_176, 10_000_000),
        c[2].is_within_half_ulp_of(-18_522, 100_000_000),
        c[3].is_within_half_ulp_of(-26_452, 1_000_000_000),
        c[4].is_within_half_ulp_of(-148, 10_000_000_000),
{
    let c = [
        Binary64 { bits: 0x40b3_ae7b_440a_f1cc },
        Binary64 { bits: 0x3ff8_ef47_4b18_2c47 },
        Binary64 { bits: 0xbf28_46f3_af64_b206 },
        Binary64 { bits: 0xbefb_bca7_993f_3451 },
        Binary64 { bits: 0xbe4f_c862_d3e1_7360 },
    ];
    proof {
        lemma2_to64();
        lemma2_to64_rest();
        assert(c[0].is_within_half_ulp_of(5_038_481_507, 1_000_000)) by {
            assert(c[0].biased_exponent() == 1035 && c[0].fraction() == 0x3ae7b440af1cc);
            lemma_is_within_half_ulp_of(c[0], 5_038_481_507, 1_000_000);
        }
        assert(c[1].is_within_half_ulp_of(15_584_176, 10_000_000)) by {
            assert(c[1].biased_exponent() == 1023 && c[1].fraction() == 0x8ef474b182c47);
            lemma_is_within_half_ulp_of(c[1], 15_584_176, 10_000_000);
        }
        assert(c[2].is_within_half_ulp_of(-18_522, 100_000_000)) by {
            assert(c[2].biased_exponent() == 1010 && c[2].fraction() == 0x846f3af64b206);
            lemma_pow2_adds(64, 1);
            lemma_is_within_half_ulp_of(c[2], -18_522, 100_000_000);
        }
        assert(c[3].is_within_half_ulp_of(-26_452, 1_000_000_000)) by {
            assert(c[3].biased_exponent() == 1007 && c[3].fraction() == 0xbbca7993f3451);
            lemma_pow2_adds(64, 4);
            lemma_is_within_half_ulp_of(c[3], -26_452, 1_000_000_000);
        }
        assert(c[4].is_within_half_ulp_of(-148, 10_000_000_000)) by {
            assert(c[4].biased_exponent() == 996 && c[4].fraction() == 0xfc862d3e17360);
            lemma_pow2_adds(64, 15);
            lemma_is_within_half_ulp_of(c[4], -148, 10_000_000_000);
        }
    }
    c
}

/// The Fukushima-Williams angle gamma-bar of bias and precession: the
/// coefficients of the powers 0 to 5 of the time, in arcseconds.
///
/// Published: `-0.052928`, `10.556378`, `0.4932044`, `-0.00031238`,
/// `-0.000002788`, `0.0000000260`.
pub fn gamb_coefficients() -> (c: [Binary64; 6])
    ensures
        c[0].is_within_half_ulp_of(-52_928, 1_000_000),
        c[1].is_within_half_ulp_of(10_556_378, 1_000_000),
        c[2].is_within_half_ulp_of(4_932_044, 10_000_000),
        c[3].is_within_half_ulp_of(-31_238, 100_000_000),
        c[4].is_within_half_ulp_of(-2_788, 1_000_000_000),
        c[5].is_within_half_ulp_of(26, 1_000_000_000),
{
    let c = [
        Binary64 { bits: 0xbfab_1960_fa15_db34 },
        Binary64 { bits: 0x4025_1cdd_93c4_6d83 },
        Binary64 { bits: 0x3fdf_90a9_300f_9244 },
        Binary64 { bits: 0xbf34_78dd_e248_dfee },
        Binary64 { bits: 0xbec7_632f_3588_df1d },
        Binary64 { bits: 0x3e5b_ead3_593f_1cb2 },
    ];
    proof {
        lemma2_to64();
        lemma2_to64_rest();
        assert(c[0].is_within_half_ulp_of(-52_928, 1_000_000)) by {
            assert(c[0].biased_exponent() == 1018 && c[0].fraction() == 0xb1960fa15db34);
            lemma_is_within_half_ulp_of(c[0], -52_928, 1_000_000);
        }
        assert(c[1].is_within_half_ulp_of(10_556_378, 1_000_000)) by {
            assert(c[1].biased_exponent() == 1026 && c[1].fraction() == 0x51cdd93c46d83);
            lemma_is_within_half_ulp_of(c[1], 10_556_378, 1_000_000);
        }
        assert(c[2].is_within_half_ulp_of(4_932_044, 10_000_000)) by {
            assert(c[2].biased_exponent() == 1021 && c[2].fraction() == 0xf90a9300f9244);
            lemma_is_within_half_ulp_of(c[2], 4_932_044, 10_000_000);
        }
        assert(c[3].is_within_half_ulp_of(-31_238, 100_000_000)) by {
            assert(c[3].biased_exponent() == 1011 && c[3].fraction() == 0x478dde248dfee);
            lemma_is_within_half_ulp_of(c[3], -31_238, 100_000_000);
        }
        assert(c[4].is_within_half_ulp_of(-2_788, 1_000_000_000)) by {
            assert(c[4].biased_exponent() == 1004 && c[4].fraction() == 0x7632f3588df1d);
            lemma_pow2_adds(64, 7);
            lemma_is_within_half_ulp_of(c[4], -2_788, 1_000_000_000);
        }
        assert(c[5].is_within_half_ulp_of(26, 1_000_000_000)) by {
            assert(c[5].biased_exponent() == 997 && c[5].fraction() == 0xbead3593f1cb2);
            lemma_pow2_adds(64, 14);
            lemma_is_within_half_ulp_of(c[5], 26, 1_000_000_000);
        }
    }
    c
}

/// The Fukushima-Williams angle phi-bar of bias and precession: the
/// coefficients of the powers 0 to 5 of the time, in arcseconds.
///
/// Published: `84381.412819`, `-46.811016`, `0.0511268`, `0.00053289`,
/// `-0.000000440`, `-0.0000000176`.
pub fn phib_coefficients() -> (c: [Binary64; 6])
    ensures
        c[0].is_within_half_ulp_of(84_381_412_819, 1_000_000),
        c[1].is_within_half_ulp_of(-46_811_016, 1_000_000),
        c[2].is_within_half_ulp_of(511_268, 10_000_000),
        c[3].is_within_half_ulp_of(53_289, 100_000_000),
        c[4].is_within_half_ulp_of(-44, 100_000_000),
        c[5].is_within_half_ulp_of(-176, 10_000_000_000),
{
    let c = [
        Binary64 { bits: 0x40f4_99d6_9ae8_1883 },
        Binary64 { bits: 0xc047_67cf_5f4e_4431 },
        Binary64 { bits: 0x3faa_2d4a_bbe5_f4bc },
        Binary64 { bits: 0x3f41_7634_8fa9_abb5 },
        Binary64 { bits: 0xbe9d_8724_7702_c0d0 },
        Binary64 { bits: 0xbe52_e5d9_e5c4_5270 },
    ];
    proof {
        lemma2_to64();
        lemma2_to64_rest();
        assert(c[0].is_within_half_ulp_of(84_381_412_819, 1_000_000)) by {
            assert(c[0].biased_exponent() == 1039 && c[0].fraction() == 0x499d69ae81883);
            lemma_is_within_half_ulp_of(c[0], 84_381_412_819, 1_000_000);
        }
        assert(c[1].is_within_half_ulp_of(-46_811_016, 1_000_000)) by {
            assert(c[1].biased_exponent() == 1028 && c[1].fraction() == 0x767cf5f4e4431);
            lemma_is_within_half_ulp_of(c[1], -46_811_016, 1_000_000);
        }
        assert(c[2].is_within_half_ulp_of(511_268, 10_000_000)) by {
            assert(c[2].biased_exponent() == 1018 && c[2].fraction() == 0xa2d4abbe5f4bc);
            lemma_is_within_half_ulp_of(c[2], 511_268, 10_000_000);
        }
        assert(c[3].is_within_half_ulp_of(53_289, 100_000_000)) by {
            assert(c[3].biased_exponent() == 1012 && c[3].fraction() == 0x176348fa9abb5);
            lemma_is_within_half_ulp_of(c[3], 53_289, 100_000_000);
        }
        assert(c[4].is_within_half_ulp_of(-44, 100_000_000)) by {
            assert(c[4].biased_exponent() == 1001 && c[4].fraction() == 0xd87247702c0d0);
            lemma_pow2_adds(64, 10);
            lemma_is_within_half_ulp_of(c[4], -44, 100_000_000);
        }
        assert(c[5].is_within_half_ulp_of(-176, 10_000_000_000)) by {
            assert(c[5].biased_exponent() == 997 && c[5].fraction() == 0x2e5d9e5c45270);
            lemma_pow2_adds(64, 14);
            lemma_is_within_half_ulp_of(c[5], -176, 10_000_000_000);
        }
    }
    c
}

/// The Fukushima-Williams angle psi-bar of bias and precession: the
/// coefficients of the powers 0 to 5 of the time, in arcseconds.
///
/// Published: `-0.041775`, `5038.481484`, `1.5584175`, `-0.00018522`,
/// `-0.000026452`, `-0.0000000148`.
pub fn psib_coefficients() -> (c: [Binary64; 6])
    ensures
        c[0].is_within_half_ulp_of(-41_775, 1_000_000),
        c[1].is_within_half_ulp_of(5_038_481_484, 1_000_000),
        c[2].is_within_half_ulp_of(15_584_175, 10_000_000),
        c[3].is_within_half_ulp_of(-18_522, 100_000_000),
        c[4].is_within_half_ulp_of(-26_452, 1_000_000_000),
        c[5].is_within_half_ulp_of(-148, 10_000_000_000),
{
    let c = [
        Binary64 { bits: 0xbfa5_6388_6594_af4f },
        Binary64 { bits: 0x40b3_ae7b_4289_118c },
        Binary64 { bits: 0x3ff8_ef47_3040_39ac },
        Binary64 { bits: 0xbf28_46f3_af64_b206 },
        Binary64 { bits: 0xbefb_bca7_993f_3451 },
        Binary64 { bits: 0xbe4f_c862_d3e1_7360 },
    ];
    proof {
        lemma2_to64();
        lemma2_to64_rest();
        assert(c[0].is_within_half_ulp_of(-41_775, 1_000_000)) by {
            assert(c[0].biased_exponent() == 1018 && c[0].fraction() == 0x563886594af4f);
            lemma_is_within_half_ulp_of(c[0], -41_775, 1_000_000);
        }
        assert(c[1].is_within_half_ulp_of(5_038_481_484, 1_000_000)) by {
            assert(c[1].biased_exponent() == 1035 && c[1].fraction() == 0x3ae7b4289118c);
            lemma_is_within_half_ulp_of(c[1], 5_038_481_484, 1_000_000);
        }
        assert(c[2].is_within_half_ulp_of(15_584_175, 10_000_000)) by {
            assert(c[2].biased_exponent() == 1023 && c[2].fraction() == 0x8ef47304039ac);
            lemma_is_within_half_ulp_of(c[2], 15_584_175, 10_000_000);
        }
        assert(c[3].is_within_half_ulp_of(-18_522, 100_000_000)) by {
            assert(c[3].biased_exponent() == 1010 && c[3].fraction() == 0x846f3af64b206);
            lemma_pow2_adds(64, 1);
            lemma_is_within_half_ulp_of(c[3], -18_522, 100_000_000);
        }
        assert(c[4].is_within_half_ulp_of(-26_452, 1_000_000_000)) by {
            assert(c[4].biased_exponent() == 1007 && c[4].fraction() == 0xbbca7993f3451);
            lemma_pow2_adds(64, 4);
            lemma_is_within_half_ulp_of(c[4], -26_452, 1_000_000_000);
        }
        assert(c[5].is_within_half_ulp_of(-148, 10_000_000_000)) by {
            assert(c[5].biased_exponent() == 996 && c[5].fraction() == 0xfc862d3e17360);
            lemma_pow2_adds(64, 15);
            lemma_is_within_half_ulp_of(c[5], -148, 10_000_000_000);
        }
    }
    c
}

/// What adjusts the IAU 2000A nutation to the IAU 2006 precession: the rate
/// per century of the factor for the secular variation of the Earth's
/// dynamical form factor J2, and the factor for the change of the obliquity's
/// convention.
///
/// Published: `-2.7774e-6`, `0.4697e-6`.
pub fn nutation_adjustments() -> (c: [Binary64; 2])
    ensures
        c[0].is_within_half_ulp_of(-27_774, 10_000_000_000),
        c[1].is_within_half_ulp_of(4_697, 10_000_000_000),
{
    let c = [
        Binary64 { bits: 0xbec7_4c6b_cc28_7874 },
        Binary64 { bits: 0x3e9f_8562_723e_7581 },
    ];
    proof {
        lemma2_to64();
        lemma2_to64_rest();
        assert(c[0].is_within_half_ulp_of(-27_774, 10_000_000_000)) by {
            assert(c[0].biased_exponent() == 1004 && c[0].fraction() == 0x74c6bcc287874);
            lemma_pow2_adds(64, 7);
            lemma_is_within_half_ulp_of(c[0], -27_774, 10_000_000_000);
        }
        assert(c[1].is_within_half_ulp_of(4_697, 10_000_000_000)) by {
            assert(c[1].biased_exponent() == 1001 && c[1].fraction() == 0xf8562723e7581);
            lemma_pow2_adds(64, 10);
            lemma_is_within_half_ulp_of(c[1], 4_697, 10_000_000_000);
        }
    }
    c
}

} // verus!
