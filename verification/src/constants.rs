//! Constants of astronomy and of the calendar, as the encodings of the
//! double-precision numbers that stand for them.
//!
//! A constant that is a whole number, or a whole number of halves or
//! quarters, is encoded exactly. Every other is encoded by the number nearest
//! to its definition: no further from it than half a unit in the last place.

use crate::binary64::{lemma_is_ratio, lemma_is_within_half_ulp_of, Binary64};
use vstd::arithmetic::power2::{lemma2_to64, lemma2_to64_rest, lemma_pow2_adds, pow2};
use vstd::prelude::*;

verus! {

/// Pi, to 25 digits: 3.141592653589793238462643, rounded.
pub const ERFA_DPI: u64 = 0x4009_21fb_5444_2d18;

/// 2Pi, to 25 digits: 6.283185307179586476925287, rounded.
pub const ERFA_D2PI: u64 = 0x4019_21fb_5444_2d18;

/// Radians to degrees: 57.29577951308232087679815, rounded.
pub const ERFA_DR2D: u64 = 0x404c_a5dc_1a63_c1f8;

/// Degrees to radians: 1.745329251994329576923691e-2, rounded.
pub const ERFA_DD2R: u64 = 0x3f91_df46_a252_9d39;

/// Radians to arcseconds: 206264.8062470963551564734, rounded.
pub const ERFA_DR2AS: u64 = 0x4109_2dc6_7331_ad7b;

/// Arcseconds to radians: 4.848136811095359935899141e-6, rounded.
pub const ERFA_DAS2R: u64 = 0x3ed4_55a5_b2ff_8f9d;

/// Seconds of time to radians: 7.272205216643039903848712e-5, rounded.
pub const ERFA_DS2R: u64 = 0x3f13_104b_57cf_96a3;

/// Arcseconds in a full circle: 1296000.0, exactly.
pub const ERFA_TURNAS: u64 = 0x4133_c680_0000_0000;

/// Milliarcseconds to radians: `ERFA_DAS2R` / 1000, rounded.
pub const ERFA_DMAS2R: u64 = 0x3e34_d295_322c_9b41;

/// Length of tropical year B1900 (days): 365.242198781, rounded.
pub const ERFA_DTY: u64 = 0x4076_d3e0_0bd4_386b;

/// Seconds per day: 86400.0, exactly.
pub const ERFA_DAYSEC: u64 = 0x40f5_1800_0000_0000;

/// Days per Julian year: 365.25, exactly.
pub const ERFA_DJY: u64 = 0x4076_d400_0000_0000;

/// Days per Julian century: 36525.0, exactly.
pub const ERFA_DJC: u64 = 0x40e1_d5a0_0000_0000;

/// Days per Julian millennium: 365250.0, exactly.
pub const ERFA_DJM: u64 = 0x4116_4b08_0000_0000;

/// Reference epoch (J2000.0), Julian Date: 2451545.0, exactly.
pub const ERFA_DJ00: u64 = 0x4142_b42c_8000_0000;

/// Julian Date of Modified Julian Date zero: 2400000.5, exactly.
pub const ERFA_DJM0: u64 = 0x4142_4f80_4000_0000;

/// Reference epoch (J2000.0), Modified Julian Date: 51544.5, exactly.
pub const ERFA_DJM00: u64 = 0x40e9_2b10_0000_0000;

/// 1977 Jan 1.0 as MJD: 43144.0, exactly.
pub const ERFA_DJM77: u64 = 0x40e5_1100_0000_0000;

/// TT minus TAI (s): 32.184, rounded.
pub const ERFA_TTMTAI: u64 = 0x4040_178d_4fdf_3b64;

/// Astronomical unit (m, IAU 2012): 149597870.7e3, exactly.
pub const ERFA_DAU: u64 = 0x4241_6a5d_2d36_0000;

/// Speed of light (m/s): 299792458.0, exactly.
pub const ERFA_CMPS: u64 = 0x41b1_de78_4a00_0000;

/// Light time for 1 au (s): `ERFA_DAU` / `ERFA_CMPS`, rounded.
pub const ERFA_AULT: u64 = 0x407f_3013_9837_3d76;

/// Speed of light (au per day): `ERFA_DAYSEC` / `ERFA_AULT`, rounded.
pub const ERFA_DC: u64 = 0x4065_a4a0_d4b3_b972;

/// L_G = 1 - d(TT)/d(TCG): 6.969290134e-10, rounded.
pub const ERFA_ELG: u64 = 0x3e07_f240_9f5d_dc8f;

/// L_B = 1 - d(TDB)/d(TCB): 1.550519768e-8, rounded.
pub const ERFA_ELB: u64 = 0x3e50_a609_49f9_cf0c;

/// TDB (s) at TAI 1977/1/1.0: -6.55e-5, rounded.
pub const ERFA_TDB0: u64 = 0xbf11_2ba1_6e7a_311f;

/// Schwarzschild radius of the Sun (au)
/// = 2 * 1.32712440041e20 / (2.99792458e8)^2 / 1.49597870700e11: 1.97412574336e-8, rounded.
pub const ERFA_SRS: u64 = 0x3e55_326f_7e7c_b578;

/// The number that the constant `bits` encodes.
pub open spec fn number(bits: u64) -> Binary64 {
    Binary64 { bits }
}

/// The constants of angle: each is its definition, exactly or rounded to the
/// nearest number.
pub proof fn lemma_angles()
    ensures
        number(ERFA_DPI).is_within_half_ulp_of(
            3_141_592_653_589_793_238_462_643,
            1_000_000_000_000_000_000_000_000,
        ),
        number(ERFA_D2PI).is_within_half_ulp_of(
            6_283_185_307_179_586_476_925_287,
            1_000_000_000_000_000_000_000_000,
        ),
        number(ERFA_DR2D).is_within_half_ulp_of(
            5_729_577_951_308_232_087_679_815,
            100_000_000_000_000_000_000_000,
        ),
        number(ERFA_DD2R).is_within_half_ulp_of(
            1_745_329_251_994_329_576_923_691,
            100_000_000_000_000_000_000_000_000,
        ),
        number(ERFA_DR2AS).is_within_half_ulp_of(
            2_062_648_062_470_963_551_564_734,
            10_000_000_000_000_000_000,
        ),
        number(ERFA_DAS2R).is_within_half_ulp_of(
            4_848_136_811_095_359_935_899_141,
            1_000_000_000_000_000_000_000_000_000_000,
        ),
        number(ERFA_DAS2R).is_ratio(5_723_669_695_270_813, pow2(70) as int),
        number(ERFA_DS2R).is_within_half_ulp_of(
            7_272_205_216_643_039_903_848_712,
            100_000_000_000_000_000_000_000_000_000,
        ),
        number(ERFA_TURNAS).is_ratio(1_296_000, 1),
        number(ERFA_DMAS2R).is_within_half_ulp_of(5_723_669_695_270_813, 1000 * pow2(70) as int),
{
    lemma2_to64();
    lemma2_to64_rest();
    assert(number(ERFA_DPI).is_within_half_ulp_of(
        3_141_592_653_589_793_238_462_643,
        1_000_000_000_000_000_000_000_000,
    )) by {
        let x = number(ERFA_DPI);
        assert(x.biased_exponent() == 1024 && x.fraction() == 0x921fb54442d18);
        lemma_is_within_half_ulp_of(
            x,
            3_141_592_653_589_793_238_462_643,
            1_000_000_000_000_000_000_000_000,
        );
    }
    assert(number(ERFA_D2PI).is_within_half_ulp_of(
        6_283_185_307_179_586_476_925_287,
        1_000_000_000_000_000_000_000_000,
    )) by {
        let x = number(ERFA_D2PI);
        assert(x.biased_exponent() == 1025 && x.fraction() == 0x921fb54442d18);
        lemma_is_within_half_ulp_of(
            x,
            6_283_185_307_179_586_476_925_287,
            1_000_000_000_000_000_000_000_000,
        );
    }
    assert(number(ERFA_DR2D).is_within_half_ulp_of(
        5_729_577_951_308_232_087_679_815,
        100_000_000_000_000_000_000_000,
    )) by {
        let x = number(ERFA_DR2D);
        assert(x.biased_exponent() == 1028 && x.fraction() == 0xca5dc1a63c1f8);
        lemma_is_within_half_ulp_of(
            x,
            5_729_577_951_308_232_087_679_815,
            100_000_000_000_000_000_000_000,
        );
    }
    assert(number(ERFA_DD2R).is_within_half_ulp_of(
        1_745_329_251_994_329_576_923_691,
        100_000_000_000_000_000_000_000_000,
    )) by {
        let x = number(ERFA_DD2R);
        assert(x.biased_exponent() == 1017 && x.fraction() == 0x1df46a2529d39);
        lemma_is_within_half_ulp_of(
            x,
            1_745_329_251_994_329_576_923_691,
            100_000_000_000_000_000_000_000_000,
        );
    }
    assert(number(ERFA_DR2AS).is_within_half_ulp_of(
        2_062_648_062_470_963_551_564_734,
        10_000_000_000_000_000_000,
    )) by {
        let x = number(ERFA_DR2AS);
        assert(x.biased_exponent() == 1040 && x.fraction() == 0x92dc67331ad7b);
        lemma_is_within_half_ulp_of(
            x,
            2_062_648_062_470_963_551_564_734,
            10_000_000_000_000_000_000,
        );
    }
    assert(number(ERFA_DAS2R).is_within_half_ulp_of(
        4_848_136_811_095_359_935_899_141,
        1_000_000_000_000_000_000_000_000_000_000,
    )) by {
        let x = number(ERFA_DAS2R);
        assert(x.biased_exponent() == 1005 && x.fraction() == 0x455a5b2ff8f9d);
        lemma_pow2_adds(64, 6);
        lemma_is_within_half_ulp_of(
            x,
            4_848_136_811_095_359_935_899_141,
            1_000_000_000_000_000_000_000_000_000_000,
        );
    }
    assert(number(ERFA_DAS2R).is_ratio(5_723_669_695_270_813, pow2(70) as int)) by {
        let x = number(ERFA_DAS2R);
        assert(x.biased_exponent() == 1005 && x.fraction() == 0x455a5b2ff8f9d);
        lemma_pow2_adds(64, 6);
        lemma_is_ratio(x, 5_723_669_695_270_813, pow2(70) as int);
    }
    assert(number(ERFA_DS2R).is_within_half_ulp_of(
        7_272_205_216_643_039_903_848_712,
        100_000_000_000_000_000_000_000_000_000,
    )) by {
        let x = number(ERFA_DS2R);
        assert(x.biased_exponent() == 1009 && x.fraction() == 0x3104b57cf96a3);
        lemma_pow2_adds(64, 2);
        lemma_is_within_half_ulp_of(
            x,
            7_272_205_216_643_039_903_848_712,
            100_000_000_000_000_000_000_000_000_000,
        );
    }
    assert(number(ERFA_TURNAS).is_ratio(1_296_000, 1)) by {
        let x = number(ERFA_TURNAS);
        assert(x.biased_exponent() == 1043 && x.fraction() == 0x3c68000000000);
        lemma_is_ratio(x, 1_296_000, 1);
    }
    assert(number(ERFA_DMAS2R).is_within_half_ulp_of(
        5_723_669_695_270_813,
        1000 * pow2(70) as int,
    )) by {
        let x = number(ERFA_DMAS2R);
        assert(x.biased_exponent() == 995 && x.fraction() == 0x4d295322c9b41);
        lemma_pow2_adds(64, 16);
        lemma_pow2_adds(64, 6);
        assert(pow2(70) == 0x40_0000_0000_0000_0000);
        assert(pow2(80) == 0x1_0000_0000_0000_0000_0000);
        lemma_is_within_half_ulp_of(x, 5_723_669_695_270_813, 1000 * pow2(70) as int);
    }
}

/// The constants of the calendar and of the time scales: each is its
/// definition, exactly or rounded to the nearest number.
pub proof fn lemma_calendar()
    ensures
        number(ERFA_DTY).is_within_half_ulp_of(365_242_198_781, 1_000_000_000),
        number(ERFA_DAYSEC).is_ratio(86_400, 1),
        number(ERFA_DJY).is_ratio(1_461, 4),
        number(ERFA_DJC).is_ratio(36_525, 1),
        number(ERFA_DJM).is_ratio(365_250, 1),
        number(ERFA_DJ00).is_ratio(2_451_545, 1),
        number(ERFA_DJM0).is_ratio(4_800_001, 2),
        number(ERFA_DJM00).is_ratio(103_089, 2),
        number(ERFA_DJM77).is_ratio(43_144, 1),
        number(ERFA_TTMTAI).is_within_half_ulp_of(32_184, 1_000),
{
    lemma2_to64();
    lemma2_to64_rest();
    assert(number(ERFA_DTY).is_within_half_ulp_of(365_242_198_781, 1_000_000_000)) by {
        let x = number(ERFA_DTY);
        assert(x.biased_exponent() == 1031 && x.fraction() == 0x6d3e00bd4386b);
        lemma_is_within_half_ulp_of(x, 365_242_198_781, 1_000_000_000);
    }
    assert(number(ERFA_DAYSEC).is_ratio(86_400, 1)) by {
        let x = number(ERFA_DAYSEC);
        assert(x.biased_exponent() == 1039 && x.fraction() == 0x5180000000000);
        lemma_is_ratio(x, 86_400, 1);
    }
    assert(number(ERFA_DJY).is_ratio(1_461, 4)) by {
        let x = number(ERFA_DJY);
        assert(x.biased_exponent() == 1031 && x.fraction() == 0x6d40000000000);
        lemma_is_ratio(x, 1_461, 4);
    }
    assert(number(ERFA_DJC).is_ratio(36_525, 1)) by {
        let x = number(ERFA_DJC);
        assert(x.biased_exponent() == 1038 && x.fraction() == 0x1d5a000000000);
        lemma_is_ratio(x, 36_525, 1);
    }
    assert(number(ERFA_DJM).is_ratio(365_250, 1)) by {
        let x = number(ERFA_DJM);
        assert(x.biased_exponent() == 1041 && x.fraction() == 0x64b0800000000);
        lemma_is_ratio(x, 365_250, 1);
    }
    assert(number(ERFA_DJ00).is_ratio(2_451_545, 1)) by {
        let x = number(ERFA_DJ00);
        assert(x.biased_exponent() == 1044 && x.fraction() == 0x2b42c80000000);
        lemma_is_ratio(x, 2_451_545, 1);
    }
    assert(number(ERFA_DJM0).is_ratio(4_800_001, 2)) by {
        let x = number(ERFA_DJM0);
        assert(x.biased_exponent() == 1044 && x.fraction() == 0x24f8040000000);
        lemma_is_ratio(x, 4_800_001, 2);
    }
    assert(number(ERFA_DJM00).is_ratio(103_089, 2)) by {
        let x = number(ERFA_DJM00);
        assert(x.biased_exponent() == 1038 && x.fraction() == 0x92b1000000000);
        lemma_is_ratio(x, 103_089, 2);
    }
    assert(number(ERFA_DJM77).is_ratio(43_144, 1)) by {
        let x = number(ERFA_DJM77);
        assert(x.biased_exponent() == 1038 && x.fraction() == 0x5110000000000);
        lemma_is_ratio(x, 43_144, 1);
    }
    assert(number(ERFA_TTMTAI).is_within_half_ulp_of(32_184, 1_000)) by {
        let x = number(ERFA_TTMTAI);
        assert(x.biased_exponent() == 1028 && x.fraction() == 0x178d4fdf3b64);
        lemma_is_within_half_ulp_of(x, 32_184, 1_000);
    }
}

/// The constants of physics: each is its definition, exactly or rounded to
/// the nearest number. The two quotients are those of the numbers as they
/// are encoded.
pub proof fn lemma_physics()
    ensures
        number(ERFA_DAU).is_ratio(149_597_870_700, 1),
        number(ERFA_CMPS).is_ratio(299_792_458, 1),
        number(ERFA_AULT).is_within_half_ulp_of(149_597_870_700, 299_792_458),
        number(ERFA_AULT).is_ratio(8_778_584_994_299_254, pow2(44) as int),
        number(ERFA_DC).is_within_half_ulp_of(86400 * pow2(44) as int, 8_778_584_994_299_254),
        number(ERFA_ELG).is_within_half_ulp_of(6_969_290_134, 10_000_000_000_000_000_000),
        number(ERFA_ELB).is_within_half_ulp_of(1_550_519_768, 100_000_000_000_000_000),
        number(ERFA_TDB0).is_within_half_ulp_of(-655, 10_000_000),
        number(ERFA_SRS).is_within_half_ulp_of(197_412_574_336, 10_000_000_000_000_000_000),
{
    lemma2_to64();
    lemma2_to64_rest();
    assert(number(ERFA_DAU).is_ratio(149_597_870_700, 1)) by {
        let x = number(ERFA_DAU);
        assert(x.biased_exponent() == 1060 && x.fraction() == 0x16a5d2d360000);
        lemma_is_ratio(x, 149_597_870_700, 1);
    }
    assert(number(ERFA_CMPS).is_ratio(299_792_458, 1)) by {
        let x = number(ERFA_CMPS);
        assert(x.biased_exponent() == 1051 && x.fraction() == 0x1de784a000000);
        lemma_is_ratio(x, 299_792_458, 1);
    }
    assert(number(ERFA_AULT).is_within_half_ulp_of(149_597_870_700, 299_792_458)) by {
        let x = number(ERFA_AULT);
        assert(x.biased_exponent() == 1031 && x.fraction() == 0xf301398373d76);
        lemma_is_within_half_ulp_of(x, 149_597_870_700, 299_792_458);
    }
    assert(number(ERFA_AULT).is_ratio(8_778_584_994_299_254, pow2(44) as int)) by {
        let x = number(ERFA_AULT);
        assert(x.biased_exponent() == 1031 && x.fraction() == 0xf301398373d76);
        lemma_is_ratio(x, 8_778_584_994_299_254, pow2(44) as int);
    }
    assert(number(ERFA_DC).is_within_half_ulp_of(
        86400 * pow2(44) as int,
        8_778_584_994_299_254,
    )) by {
        let x = number(ERFA_DC);
        assert(x.biased_exponent() == 1030 && x.fraction() == 0x5a4a0d4b3b972);
        lemma_is_within_half_ulp_of(x, 86400 * pow2(44) as int, 8_778_584_994_299_254);
    }
    assert(number(ERFA_ELG).is_within_half_ulp_of(6_969_290_134, 10_000_000_000_000_000_000)) by {
        let x = number(ERFA_ELG);
        assert(x.biased_exponent() == 992 && x.fraction() == 0x7f2409f5ddc8f);
        lemma_pow2_adds(64, 19);
        lemma_is_within_half_ulp_of(x, 6_969_290_134, 10_000_000_000_000_000_000);
    }
    assert(number(ERFA_ELB).is_within_half_ulp_of(1_550_519_768, 100_000_000_000_000_000)) by {
        let x = number(ERFA_ELB);
        assert(x.biased_exponent() == 997 && x.fraction() == 0xa60949f9cf0c);
        lemma_pow2_adds(64, 14);
        lemma_is_within_half_ulp_of(x, 1_550_519_768, 100_000_000_000_000_000);
    }
    assert(number(ERFA_TDB0).is_within_half_ulp_of(-655, 10_000_000)) by {
        let x = number(ERFA_TDB0);
        assert(x.biased_exponent() == 1009 && x.fraction() == 0x12ba16e7a311f);
        lemma_pow2_adds(64, 2);
        lemma_is_within_half_ulp_of(x, -655, 10_000_000);
    }
    assert(number(ERFA_SRS).is_within_half_ulp_of(197_412_574_336, 10_000_000_000_000_000_000)) by {
        let x = number(ERFA_SRS);
        assert(x.biased_exponent() == 997 && x.fraction() == 0x5326f7e7cb578);
        lemma_pow2_adds(64, 14);
        lemma_is_within_half_ulp_of(x, 197_412_574_336, 10_000_000_000_000_000_000);
    }
}

} // verus!
