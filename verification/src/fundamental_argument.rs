//! Fundamental arguments (IERS Conventions 2003): the coefficients of the
//! polynomials that give the mean longitudes and anomalies of the Moon, the
//! Sun and the planets, and the general precession.
//!
//! The time of the polynomials is in Julian centuries since J2000.0 (TDB).
//! Each coefficient is the number nearest to the published value.

use crate::binary64::{lemma_is_within_half_ulp_of, Binary64};
use vstd::arithmetic::power2::{lemma2_to64, lemma2_to64_rest, lemma_pow2_adds};
use vstd::prelude::*;

verus! {

/// Mean anomaly of the Moon: the coefficients of the powers 0 to 4 of the
/// time, in arcseconds.
///
/// Published: `485868.249036`, `1717915923.2178`, `31.8792`, `0.051635`,
/// `-0.00024470`.
pub fn l03_coefficients() -> (c: [Binary64; 5])
    ensures
        c[0].is_within_half_ulp_of(485_868_249_036, 1_000_000),
        c[1].is_within_half_ulp_of(17_179_159_232_178, 10_000),
        c[2].is_within_half_ulp_of(318_792, 10_000),
        c[3].is_within_half_ulp_of(51_635, 1_000_000),
        c[4].is_within_half_ulp_of(-2_447, 10_000_000),
{
    let c = [
        Binary64 { bits: 0x411d_a7b0_ff03_4b0e },
        Binary64 { bits: 0x41d9_9954_44cd_f06f },
        Binary64 { bits: 0x403f_e113_404e_a4a9 },
        Binary64 { bits: 0x3faa_6fe7_18a8_6d72 },
        Binary64 { bits: 0xbf30_0962_7f51_18f7 },
    ];
    proof {
        lemma2_to64();
        lemma2_to64_rest();
        assert(c[0].is_within_half_ulp_of(485_868_249_036, 1_000_000)) by {
            assert(c[0].biased_exponent() == 1041 && c[0].fraction() == 0xda7b0ff034b0e);
            lemma_is_within_half_ulp_of(c[0], 485_868_249_036, 1_000_000);
        }
        assert(c[1].is_within_half_ulp_of(17_179_159_232_178, 10_000)) by {
            assert(c[1].biased_exponent() == 1053 && c[1].fraction() == 0x9995444cdf06f);
            lemma_is_within_half_ulp_of(c[1], 17_179_159_232_178, 10_000);
        }
        assert(c[2].is_within_half_ulp_of(318_792, 10_000)) by {
            assert(c[2].biased_exponent() == 1027 && c[2].fraction() == 0xfe113404ea4a9);
            lemma_is_within_half_ulp_of(c[2], 318_792, 10_000);
        }
        assert(c[3].is_within_half_ulp_of(51_635, 1_000_000)) by {
            assert(c[3].biased_exponent() == 1018 && c[3].fraction() == 0xa6fe718a86d72);
            lemma_is_within_half_ulp_of(c[3], 51_635, 1_000_000);
        }
        assert(c[4].is_within_half_ulp_of(-2_447, 10_000_000)) by {
            assert(c[4].biased_exponent() == 1011 && c[4].fraction() == 0x9627f5118f7);
            lemma_is_within_half_ulp_of(c[4], -2_447, 10_000_000);
        }
    }
    c
}

/// Mean anomaly of the Sun: the coefficients of the powers 0 to 4 of the time,
/// in arcseconds.
///
/// Published: `1287104.793048`, `129596581.0481`, `-0.5532`, `0.000136`,
/// `-0.00001149`.
pub fn lp03_coefficients() -> (c: [Binary64; 5])
    ensures
        c[0].is_within_half_ulp_of(1_287_104_793_048, 1_000_000),
        c[1].is_within_half_ulp_of(1_295_965_810_481, 10_000),
        c[2].is_within_half_ulp_of(-5_532, 10_000),
        c[3].is_within_half_ulp_of(136, 1_000_000),
        c[4].is_within_half_ulp_of(-1_149, 100_000_000),
{
    let c = [
        Binary64 { bits: 0x4133_a3c0_cb05_3198 },
        Binary64 { bits: 0x419e_e5f2_9431_4120 },
        Binary64 { bits: 0xbfe1_b3d0_7c84_b5dd },
        Binary64 { bits: 0x3f21_d367_1ac1_4c66 },
        Binary64 { bits: 0xbee8_18a5_934c_f958 },
    ];
    proof {
        lemma2_to64();
        lemma2_to64_rest();
        assert(c[0].is_within_half_ulp_of(1_287_104_793_048, 1_000_000)) by {
            assert(c[0].biased_exponent() == 1043 && c[0].fraction() == 0x3a3c0cb053198);
            lemma_is_within_half_ulp_of(c[0], 1_287_104_793_048, 1_000_000);
        }
        assert(c[1].is_within_half_ulp_of(1_295_965_810_481, 10_000)) by {
            assert(c[1].biased_exponent() == 1049 && c[1].fraction() == 0xee5f294314120);
            lemma_is_within_half_ulp_of(c[1], 1_295_965_810_481, 10_000);
        }
        assert(c[2].is_within_half_ulp_of(-5_532, 10_000)) by {
            assert(c[2].biased_exponent() == 1022 && c[2].fraction() == 0x1b3d07c84b5dd);
            lemma_is_within_half_ulp_of(c[2], -5_532, 10_000);
        }
        assert(c[3].is_within_half_ulp_of(136, 1_000_000)) by {
            assert(c[3].biased_exponent() == 1010 && c[3].fraction() == 0x1d3671ac14c66);
            lemma_pow2_adds(64, 1);
            lemma_is_within_half_ulp_of(c[3], 136, 1_000_000);
        }
        assert(c[4].is_within_half_ulp_of(-1_149, 100_000_000)) by {
            assert(c[4].biased_exponent() == 1006 && c[4].fraction() == 0x818a5934cf958);
            lemma_pow2_adds(64, 5);
            lemma_is_within_half_ulp_of(c[4], -1_149, 100_000_000);
        }
    }
    c
}

/// Mean longitude of the Moon minus that of its ascending node: the
/// coefficients of the powers 0 to 4 of the time, in arcseconds.
///
/// Published: `335779.526232`, `1739527262.8478`, `-12.7512`, `-0.001037`,
/// `0.00000417`.
pub fn f03_coefficients() -> (c: [Binary64; 5])
    ensures
        c[0].is_within_half_ulp_of(335_779_526_232, 1_000_000),
        c[1].is_within_half_ulp_of(17_395_272_628_478, 10_000),
        c[2].is_within_half_ulp_of(-127_512, 10_000),
        c[3].is_within_half_ulp_of(-1_037, 1_000_000),
        c[4].is_within_half_ulp_of(417, 100_000_000),
{
    let c = [
        Binary64 { bits: 0x4114_7e8e_1adc_8fb8 },
        Binary64 { bits: 0x41d9_ebc5_17b6_425b },
        Binary64 { bits: 0xc029_809d_4951_82aa },
        Binary64 { bits: 0xbf50_fd7e_4580_3cd1 },
        Binary64 { bits: 0x3ed1_7d80_df38_8a35 },
    ];
    proof {
        lemma2_to64();
        lemma2_to64_rest();
        assert(c[0].is_within_half_ulp_of(335_779_526_232, 1_000_000)) by {
            assert(c[0].biased_exponent() == 1041 && c[0].fraction() == 0x47e8e1adc8fb8);
            lemma_is_within_half_ulp_of(c[0], 335_779_526_232, 1_000_000);
        }
        assert(c[1].is_within_half_ulp_of(17_395_272_628_478, 10_000)) by {
            assert(c[1].biased_exponent() == 1053 && c[1].fraction() == 0x9ebc517b6425b);
            lemma_is_within_half_ulp_of(c[1], 17_395_272_628_478, 10_000);
        }
        assert(c[2].is_within_half_ulp_of(-127_512, 10_000)) by {
            assert(c[2].biased_exponent() == 1026 && c[2].fraction() == 0x9809d495182aa);
            lemma_is_within_half_ulp_of(c[2], -127_512, 10_000);
        }
        assert(c[3].is_within_half_ulp_of(-1_037, 1_000_000)) by {
            assert(c[3].biased_exponent() == 1013 && c[3].fraction() == 0xfd7e45803cd1);
            lemma_is_within_half_ulp_of(c[3], -1_037, 1_000_000);
        }
        assert(c[4].is_within_half_ulp_of(417, 100_000_000)) by {
            assert(c[4].biased_exponent() == 1005 && c[4].fraction() == 0x17d80df388a35);
            lemma_pow2_adds(64, 6);
            lemma_is_within_half_ulp_of(c[4], 417, 100_000_000);
        }
    }
    c
}

/// Mean elongation of the Moon from the Sun: the coefficients of the powers 0
/// to 4 of the time, in arcseconds.
///
/// Published: `1072260.703692`, `1602961601.2090`, `-6.3706`, `0.006593`,
/// `-0.00003169`.
pub fn d03_coefficients() -> (c: [Binary64; 5])
    ensures
        c[0].is_within_half_ulp_of(1_072_260_703_692, 1_000_000),
        c[1].is_within_half_ulp_of(1_602_961_601_209, 1_000),
        c[2].is_within_half_ulp_of(-63_706, 10_000),
        c[3].is_within_half_ulp_of(6_593, 1_000_000),
        c[4].is_within_half_ulp_of(-3_169, 100_000_000),
{
    let c = [
        Binary64 { bits: 0x4130_5c84_b425_28ae },
        Binary64 { bits: 0x41d7_e2d0_304d_6042 },
        Binary64 { bits: 0xc019_7b7e_90ff_9724 },
        Binary64 { bits: 0x3f7b_0142_f61e_d5ae },
        Binary64 { bits: 0xbf00_9d5c_1bdf_af7e },
    ];
    proof {
        lemma2_to64();
        lemma2_to64_rest();
        assert(c[0].is_within_half_ulp_of(1_072_260_703_692, 1_000_000)) by {
            assert(c[0].biased_exponent() == 1043 && c[0].fraction() == 0x5c84b42528ae);
            lemma_is_within_half_ulp_of(c[0], 1_072_260_703_692, 1_000_000);
        }
        assert(c[1].is_within_half_ulp_of(1_602_961_601_209, 1_000)) by {
            assert(c[1].biased_exponent() == 1053 && c[1].fraction() == 0x7e2d0304d6042);
            lemma_is_within_half_ulp_of(c[1], 1_602_961_601_209, 1_000);
        }
        assert(c[2].is_within_half_ulp_of(-63_706, 10_000)) by {
            assert(c[2].biased_exponent() == 1025 && c[2].fraction() == 0x97b7e90ff9724);
            lemma_is_within_half_ulp_of(c[2], -63_706, 10_000);
        }
        assert(c[3].is_within_half_ulp_of(6_593, 1_000_000)) by {
            assert(c[3].biased_exponent() == 1015 && c[3].fraction() == 0xb0142f61ed5ae);
            lemma_is_within_half_ulp_of(c[3], 6_593, 1_000_000);
        }
        assert(c[4].is_within_half_ulp_of(-3_169, 100_000_000)) by {
            assert(c[4].biased_exponent() == 1008 && c[4].fraction() == 0x9d5c1bdfaf7e);
            lemma_pow2_adds(64, 3);
            lemma_is_within_half_ulp_of(c[4], -3_169, 100_000_000);
        }
    }
    c
}

/// Mean longitude of the Moon's ascending node: the coefficients of the powers
/// 0 to 4 of the time, in arcseconds.
///
/// Published: `450160.398036`, `-6962890.5431`, `7.4722`, `0.007702`,
/// `-0.00005939`.
pub fn om03_coefficients() -> (c: [Binary64; 5])
    ensures
        c[0].is_within_half_ulp_of(450_160_398_036, 1_000_000),
        c[1].is_within_half_ulp_of(-69_628_905_431, 10_000),
        c[2].is_within_half_ulp_of(74_722, 10_000),
        c[3].is_within_half_ulp_of(7_702, 1_000_000),
        c[4].is_within_half_ulp_of(-5_939, 100_000_000),
{
    let c = [
        Binary64 { bits: 0x411b_79c1_9796_bfcb },
        Binary64 { bits: 0xc15a_8fb2_a2c2_2681 },
        Binary64 { bits: 0x401d_e388_6594_af4f },
        Binary64 { bits: 0x3f7f_8c21_e1d2_178f },
        Binary64 { bits: 0xbf0f_2330_dc96_c452 },
    ];
    proof {
        lemma2_to64();
        lemma2_to64_rest();
        assert(c[0].is_within_half_ulp_of(450_160_398_036, 1_000_000)) by {
            assert(c[0].biased_exponent() == 1041 && c[0].fraction() == 0xb79c19796bfcb);
            lemma_is_within_half_ulp_of(c[0], 450_160_398_036, 1_000_000);
        }
        assert(c[1].is_within_half_ulp_of(-69_628_905_431, 10_000)) by {
            assert(c[1].biased_exponent() == 1045 && c[1].fraction() == 0xa8fb2a2c22681);
            lemma_is_within_half_ulp_of(c[1], -69_628_905_431, 10_000);
        }
        assert(c[2].is_within_half_ulp_of(74_722, 10_000)) by {
            assert(c[2].biased_exponent() == 1025 && c[2].fraction() == 0xde3886594af4f);
            lemma_is_within_half_ulp_of(c[2], 74_722, 10_000);
        }
        assert(c[3].is_within_half_ulp_of(7_702, 1_000_000)) by {
            assert(c[3].biased_exponent() == 1015 && c[3].fraction() == 0xf8c21e1d2178f);
            lemma_is_within_half_ulp_of(c[3], 7_702, 1_000_000);
        }
        assert(c[4].is_within_half_ulp_of(-5_939, 100_000_000)) by {
            assert(c[4].biased_exponent() == 1008 && c[4].fraction() == 0xf2330dc96c452);
            lemma_pow2_adds(64, 3);
            lemma_is_within_half_ulp_of(c[4], -5_939, 100_000_000);
        }
    }
    c
}

/// Mean longitude of Mercury: the coefficients of the powers 0 and 1 of the
/// time, in radians.
///
/// Published: `4.402608842`, `2608.7903141574`.
pub fn me03_coefficients() -> (c: [Binary64; 2])
    ensures
        c[0].is_within_half_ulp_of(4_402_608_842, 1_000_000_000),
        c[1].is_within_half_ulp_of(26_087_903_141_574, 10_000_000_000),
{
    let c = [
        Binary64 { bits: 0x4011_9c45_7e05_e1b9 },
        Binary64 { bits: 0x40a4_6194_a40e_a733 },
    ];
    proof {
        lemma2_to64();
        lemma2_to64_rest();
        assert(c[0].is_within_half_ulp_of(4_402_608_842, 1_000_000_000)) by {
            assert(c[0].biased_exponent() == 1025 && c[0].fraction() == 0x19c457e05e1b9);
            lemma_is_within_half_ulp_of(c[0], 4_402_608_842, 1_000_000_000);
        }
        assert(c[1].is_within_half_ulp_of(26_087_903_141_574, 10_000_000_000)) by {
            assert(c[1].biased_exponent() == 1034 && c[1].fraction() == 0x46194a40ea733);
            lemma_is_within_half_ulp_of(c[1], 26_087_903_141_574, 10_000_000_000);
        }
    }
    c
}

/// Mean longitude of Venus: the coefficients of the powers 0 and 1 of the
/// time, in radians.
///
/// Published: `3.176146697`, `1021.3285546211`.
pub fn ve03_coefficients() -> (c: [Binary64; 2])
    ensures
        c[0].is_within_half_ulp_of(3_176_146_697, 1_000_000_000),
        c[1].is_within_half_ulp_of(10_213_285_546_211, 10_000_000_000),
{
    let c = [
        Binary64 { bits: 0x4009_68bf_9977_4eb0 },
        Binary64 { bits: 0x408f_eaa0_e13e_c498 },
    ];
    proof {
        lemma2_to64();
        lemma2_to64_rest();
        assert(c[0].is_within_half_ulp_of(3_176_146_697, 1_000_000_000)) by {
            assert(c[0].biased_exponent() == 1024 && c[0].fraction() == 0x968bf99774eb0);
            lemma_is_within_half_ulp_of(c[0], 3_176_146_697, 1_000_000_000);
        }
        assert(c[1].is_within_half_ulp_of(10_213_285_546_211, 10_000_000_000)) by {
            assert(c[1].biased_exponent() == 1032 && c[1].fraction() == 0xfeaa0e13ec498);
            lemma_is_within_half_ulp_of(c[1], 10_213_285_546_211, 10_000_000_000);
        }
    }
    c
}

/// Mean longitude of Earth: the coefficients of the powers 0 and 1 of the
/// time, in radians.
///
/// Published: `1.753470314`, `628.3075849991`.
pub fn e03_coefficients() -> (c: [Binary64; 2])
    ensures
        c[0].is_within_half_ulp_of(1_753_470_314, 1_000_000_000),
        c[1].is_within_half_ulp_of(6_283_075_849_991, 10_000_000_000),
{
    let c = [
        Binary64 { bits: 0x3ffc_0e36_e352_308b },
        Binary64 { bits: 0x4083_a275_ef1f_beff },
    ];
    proof {
        lemma2_to64();
        lemma2_to64_rest();
        assert(c[0].is_within_half_ulp_of(1_753_470_314, 1_000_000_000)) by {
            assert(c[0].biased_exponent() == 1023 && c[0].fraction() == 0xc0e36e352308b);
            lemma_is_within_half_ulp_of(c[0], 1_753_470_314, 1_000_000_000);
        }
        assert(c[1].is_within_half_ulp_of(6_283_075_849_991, 10_000_000_000)) by {
            assert(c[1].biased_exponent() == 1032 && c[1].fraction() == 0x3a275ef1fbeff);
            lemma_is_within_half_ulp_of(c[1], 6_283_075_849_991, 10_000_000_000);
        }
    }
    c
}

/// Mean longitude of Mars: the coefficients of the powers 0 and 1 of the time,
/// in radians.
///
/// Published: `6.203480913`, `334.0612426700`.
pub fn ma03_coefficients() -> (c: [Binary64; 2])
    ensures
        c[0].is_within_half_ulp_of(6_203_480_913, 1_000_000_000),
        c[1].is_within_half_ulp_of(33_406_124_267, 100_000_000),
{
    let c = [
        Binary64 { bits: 0x4018_d05d_4cea_c7e8 },
        Binary64 { bits: 0x4074_e0fa_d998_0c51 },
    ];
    proof {
        lemma2_to64();
        lemma2_to64_rest();
        assert(c[0].is_within_half_ulp_of(6_203_480_913, 1_000_000_000)) by {
            assert(c[0].biased_exponent() == 1025 && c[0].fraction() == 0x8d05d4ceac7e8);
            lemma_is_within_half_ulp_of(c[0], 6_203_480_913, 1_000_000_000);
        }
        assert(c[1].is_within_half_ulp_of(33_406_124_267, 100_000_000)) by {
            assert(c[1].biased_exponent() == 1031 && c[1].fraction() == 0x4e0fad9980c51);
            lemma_is_within_half_ulp_of(c[1], 33_406_124_267, 100_000_000);
        }
    }
    c
}

/// Mean longitude of Jupiter: the coefficients of the powers 0 and 1 of the
/// time, in radians.
///
/// Published: `0.599546497`, `52.9690962641`.
pub fn ju03_coefficients() -> (c: [Binary64; 2])
    ensures
        c[0].is_within_half_ulp_of(599_546_497, 1_000_000_000),
        c[1].is_within_half_ulp_of(529_690_962_641, 10_000_000_000),
{
    let c = [
        Binary64 { bits: 0x3fe3_2f7c_22a1_7bcc },
        Binary64 { bits: 0x404a_7c0b_58ac_7e1e },
    ];
    proof {
        lemma2_to64();
        lemma2_to64_rest();
        assert(c[0].is_within_half_ulp_of(599_546_497, 1_000_000_000)) by {
            assert(c[0].biased_exponent() == 1022 && c[0].fraction() == 0x32f7c22a17bcc);
            lemma_is_within_half_ulp_of(c[0], 599_546_497, 1_000_000_000);
        }
        assert(c[1].is_within_half_ulp_of(529_690_962_641, 10_000_000_000)) by {
            assert(c[1].biased_exponent() == 1028 && c[1].fraction() == 0xa7c0b58ac7e1e);
            lemma_is_within_half_ulp_of(c[1], 529_690_962_641, 10_000_000_000);
        }
    }
    c
}

/// Mean longitude of Saturn: the coefficients of the powers 0 and 1 of the
/// time, in radians.
///
/// Published: `0.874016757`, `21.3299104960`.
pub fn sa03_coefficients() -> (c: [Binary64; 2])
    ensures
        c[0].is_within_half_ulp_of(874_016_757, 1_000_000_000),
        c[1].is_within_half_ulp_of(21_329_910_496, 1_000_000_000),
{
    let c = [
        Binary64 { bits: 0x3feb_f7f1_fd6f_1243 },
        Binary64 { bits: 0x4035_5475_03a6_ed59 },
    ];
    proof {
        lemma2_to64();
        lemma2_to64_rest();
        assert(c[0].is_within_half_ulp_of(874_016_757, 1_000_000_000)) by {
            assert(c[0].biased_exponent() == 1022 && c[0].fraction() == 0xbf7f1fd6f1243);
            lemma_is_within_half_ulp_of(c[0], 874_016_757, 1_000_000_000);
        }
        assert(c[1].is_within_half_ulp_of(21_329_910_496, 1_000_000_000)) by {
            assert(c[1].biased_exponent() == 1027 && c[1].fraction() == 0x5547503a6ed59);
            lemma_is_within_half_ulp_of(c[1], 21_329_910_496, 1_000_000_000);
        }
    }
    c
}

/// Mean longitude of Uranus: the coefficients of the powers 0 and 1 of the
/// time, in radians.
///
/// Published: `5.481293872`, `7.4781598567`.
pub fn ur03_coefficients() -> (c: [Binary64; 2])
    ensures
        c[0].is_within_half_ulp_of(5_481_293_872, 1_000_000_000),
        c[1].is_within_half_ulp_of(74_781_598_567, 10_000_000_000),
{
    let c = [
        Binary64 { bits: 0x4015_ecd8_4d00_0556 },
        Binary64 { bits: 0x401d_e9a2_bccb_256c },
    ];
    proof {
        lemma2_to64();
        lemma2_to64_rest();
        assert(c[0].is_within_half_ulp_of(5_481_293_872, 1_000_000_000)) by {
            assert(c[0].biased_exponent() == 1025 && c[0].fraction() == 0x5ecd84d000556);
            lemma_is_within_half_ulp_of(c[0], 5_481_293_872, 1_000_000_000);
        }
        assert(c[1].is_within_half_ulp_of(74_781_598_567, 10_000_000_000)) by {
            assert(c[1].biased_exponent() == 1025 && c[1].fraction() == 0xde9a2bccb256c);
            lemma_is_within_half_ulp_of(c[1], 74_781_598_567, 10_000_000_000);
        }
    }
    c
}

/// General accumulated precession in longitude: the coefficients of the powers
/// 1 and 2 of the time, in radians.
///
/// Published: `0.024381750`, `0.00000538691`.
pub fn pa03_coefficients() -> (c: [Binary64; 2])
    ensures
        c[0].is_within_half_ulp_of(2_438_175, 100_000_000),
        c[1].is_within_half_ulp_of(538_691, 100_000_000_000),
{
    let c = [
        Binary64 { bits: 0x3f98_f787_8b7a_1c26 },
        Binary64 { bits: 0x3ed6_9826_8bb2_b6ae },
    ];
    proof {
        lemma2_to64();
        lemma2_to64_rest();
        assert(c[0].is_within_half_ulp_of(2_438_175, 100_000_000)) by {
            assert(c[0].biased_exponent() == 1017 && c[0].fraction() == 0x8f7878b7a1c26);
            lemma_is_within_half_ulp_of(c[0], 2_438_175, 100_000_000);
        }
        assert(c[1].is_within_half_ulp_of(538_691, 100_000_000_000)) by {
            assert(c[1].biased_exponent() == 1005 && c[1].fraction() == 0x698268bb2b6ae);
            lemma_pow2_adds(64, 6);
            lemma_is_within_half_ulp_of(c[1], 538_691, 100_000_000_000);
        }
    }
    c
}

} // verus!
