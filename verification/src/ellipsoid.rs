//! Reference ellipsoids.

use crate::binary64::{lemma_is_ratio, lemma_is_within_ulp_of, lemma_magnitude_order, Binary64};
use vstd::arithmetic::power2::{lemma2_to64, lemma2_to64_rest};
use vstd::prelude::*;

verus! {

/// Available ellipsoid models. If in doubt, use `WGS84`.
#[derive(Clone, Copy, Debug, PartialEq, Eq, Structural)]
pub enum Ellipsoid {
    /// World Geodetic System 1984.
    WGS84,
    /// Geodetic Reference System 1980.
    GRS80,
    /// World Geodetic System 1972.
    WGS72,
}

impl Default for Ellipsoid {
    fn default() -> (e: Self)
        ensures
            e == Ellipsoid::WGS84,
    {
        Ellipsoid::WGS84
    }
}

impl Ellipsoid {
    /// The number by which numeric interfaces identify the ellipsoid.
    pub open spec fn identifier(self) -> int {
        match self {
            Ellipsoid::WGS84 => 1,
            Ellipsoid::GRS80 => 2,
            Ellipsoid::WGS72 => 3,
        }
    }

    /// The equatorial radius in metres, a whole number for each model.
    pub open spec fn radius_metres(self) -> int {
        match self {
            Ellipsoid::WGS84 => 6378137,
            Ellipsoid::GRS80 => 6378137,
            Ellipsoid::WGS72 => 6378135,
        }
    }

    /// The inverse flattening that defines the model, as numerator and
    /// denominator: 298.257223563, 298.257222101 and 298.26.
    pub open spec fn inverse_flattening(self) -> (int, int) {
        match self {
            Ellipsoid::WGS84 => (298_257_223_563, 1_000_000_000),
            Ellipsoid::GRS80 => (298_257_222_101, 1_000_000_000),
            Ellipsoid::WGS72 => (29_826, 100),
        }
    }

    /// The encodings of the equatorial radius and of the flattening.
    pub open spec fn params(self) -> (Binary64, Binary64) {
        match self {
            Ellipsoid::WGS84 => (
                Binary64 { bits: 0x4158_54a6_4000_0000 },
                Binary64 { bits: 0x3f6b_775a_84f3_e128 },
            ),
            Ellipsoid::GRS80 => (
                Binary64 { bits: 0x4158_54a6_4000_0000 },
                Binary64 { bits: 0x3f6b_775a_8736_2105 },
            ),
            Ellipsoid::WGS72 => (
                Binary64 { bits: 0x4158_54a5_c000_0000 },
                Binary64 { bits: 0x3f6b_7749_c367_3876 },
            ),
        }
    }

    /// The identifier of the ellipsoid: 1 for WGS84, 2 for GRS80, 3 for WGS72.
    pub fn code(self) -> (n: i32)
        ensures
            n == self.identifier(),
    {
        match self {
            Ellipsoid::WGS84 => 1,
            Ellipsoid::GRS80 => 2,
            Ellipsoid::WGS72 => 3,
        }
    }

    /// The ellipsoid that `n` identifies, if it is one of the three.
    pub fn from_code(n: i32) -> (found: Option<Ellipsoid>)
        ensures
            match found {
                Some(e) => e.identifier() == n,
                None => n < 1 || n > 3,
            },
    {
        if n == 1 {
            Some(Ellipsoid::WGS84)
        } else if n == 2 {
            Some(Ellipsoid::GRS80)
        } else if n == 3 {
            Some(Ellipsoid::WGS72)
        } else {
            None
        }
    }

    /// The parameters of the ellipsoid: the equatorial radius in metres (`a`)
    /// and the flattening (`f`), a number around 1/298.
    ///
    /// The radius is exact. The flattening is the quotient of one by the
    /// inverse flattening as double-precision arithmetic gives it, which is
    /// the exact quotient rounded up or down.
    pub fn get_params(self) -> (p: (Binary64, Binary64))
        ensures
            p == self.params(),
            p.0.is_ratio(self.radius_metres(), 1),
            p.1.is_within_ulp_of(self.inverse_flattening().1, self.inverse_flattening().0),
            !p.1.negative(),
            p.1.less(Binary64 { bits: 0x3ff0_0000_0000_0000 }),
    {
        let (a, f) = match self {
            Ellipsoid::WGS84 => (0x4158_54a6_4000_0000u64, 0x3f6b_775a_84f3_e128u64),
            Ellipsoid::GRS80 => (0x4158_54a6_4000_0000u64, 0x3f6b_775a_8736_2105u64),
            Ellipsoid::WGS72 => (0x4158_54a5_c000_0000u64, 0x3f6b_7749_c367_3876u64),
        };
        let p = (Binary64 { bits: a }, Binary64 { bits: f });
        proof {
            lemma_params(self);
        }
        p
    }
}

/// What the encodings of the parameters stand for.
pub proof fn lemma_params(e: Ellipsoid)
    ensures
        e.params().0.is_ratio(e.radius_metres(), 1),
        e.params().1.is_within_ulp_of(e.inverse_flattening().1, e.inverse_flattening().0),
        !e.params().1.negative(),
        e.params().1.less(Binary64 { bits: 0x3ff0_0000_0000_0000 }),
{
    let (a, f) = e.params();
    let (num, den) = e.inverse_flattening();
    let one = Binary64 { bits: 0x3ff0_0000_0000_0000 };
    lemma2_to64();
    lemma2_to64_rest();
    assert(a.biased_exponent() == 1045 && a.scale() == 1044);
    assert(f.biased_exponent() == 1014 && f.scale() == 1013);
    assert(a.signed_significand() == e.radius_metres() * 0x4000_0000);
    lemma_is_ratio(a, e.radius_metres(), 1);
    lemma_is_within_ulp_of(f, den, num);
    lemma_magnitude_order(f, one);
    assert(one.biased_exponent() == 1023 && one.fraction() == 0);
}

} // verus!
