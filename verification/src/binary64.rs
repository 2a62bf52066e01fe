//! Double-precision numbers, held by their IEEE 754 binary64 encoding.
//!
//! Every decision this library takes on a double-precision number is a
//! comparison, and comparisons are exact. A number is therefore carried as the
//! 64 bits of its encoding (what `f64::to_bits` gives), and its meaning is
//! stated over the integers: a number that is not a NaN stands for
//! `units() / 2^1074`, where 2^-1074 is the spacing of the smallest subnormals.

use vstd::arithmetic::power2::{
    lemma2_to64, lemma2_to64_rest, lemma_pow2_adds, lemma_pow2_pos, lemma_pow2_strictly_increases,
    lemma_pow2_unfold, pow2,
};
use vstd::prelude::*;

verus! {

/// The weight of the sign bit.
pub const SIGN_BIT: u64 = 0x8000_0000_0000_0000;

/// The weight of the lowest exponent bit: one more than the largest fraction.
pub const HIDDEN_BIT: u64 = 0x0010_0000_0000_0000;

/// The encoding of positive infinity: every larger magnitude is a NaN.
pub const INFINITY_BITS: u64 = 0x7ff0_0000_0000_0000;

/// The exponent of the unit in which `units` counts: a number is `units() / 2^1074`.
pub const UNIT_EXPONENT: u64 = 1074;

/// A double-precision number, as the bits of its binary64 encoding.
#[derive(Clone, Copy, Debug)]
pub struct Binary64 {
    pub bits: u64,
}

impl Binary64 {
    /// The encoding without its sign bit.
    pub open spec fn abs_bits(self) -> nat {
        (self.bits % SIGN_BIT) as nat
    }

    /// The sign bit is set. This holds of `-0.0` and of half the NaNs too.
    pub open spec fn negative(self) -> bool {
        self.bits >= SIGN_BIT
    }

    /// The eleven exponent bits, read as a number.
    pub open spec fn biased_exponent(self) -> nat {
        self.abs_bits() / (HIDDEN_BIT as nat)
    }

    /// The fifty-two fraction bits, read as a number.
    pub open spec fn fraction(self) -> nat {
        self.abs_bits() % (HIDDEN_BIT as nat)
    }

    /// Not a number.
    pub open spec fn nan(self) -> bool {
        self.biased_exponent() == 0x7ff && self.fraction() != 0
    }

    /// Positive or negative infinity.
    pub open spec fn infinite(self) -> bool {
        self.biased_exponent() == 0x7ff && self.fraction() == 0
    }

    /// Zero, subnormal or normal.
    pub open spec fn finite(self) -> bool {
        self.biased_exponent() < 0x7ff
    }

    /// The significand as an integer: the fraction, with the hidden bit for
    /// every exponent but the lowest.
    pub open spec fn significand(self) -> nat {
        if self.biased_exponent() == 0 {
            self.fraction()
        } else {
            (HIDDEN_BIT as nat) + self.fraction()
        }
    }

    /// The power of two by which the significand is multiplied, counted from
    /// the exponent of the unit. Subnormals and the lowest normals share 0.
    pub open spec fn scale(self) -> nat {
        if self.biased_exponent() == 0 {
            0
        } else {
            (self.biased_exponent() - 1) as nat
        }
    }

    /// The absolute value in units of 2^-1074. An infinity gets 2^2098, which
    /// is larger than the magnitude of every finite number.
    pub open spec fn magnitude(self) -> nat {
        self.significand() * pow2(self.scale())
    }

    /// The value in units of 2^-1074: a finite number is exactly
    /// `units() / 2^1074`, and the infinities lie beyond every finite number.
    /// It means nothing for a NaN.
    pub open spec fn units(self) -> int {
        if self.negative() {
            -(self.magnitude() as int)
        } else {
            self.magnitude() as int
        }
    }

    /// The number is exactly the fraction `num / den`.
    pub open spec fn is_ratio(self, num: int, den: int) -> bool {
        &&& self.finite()
        &&& den > 0
        &&& self.units() * den == num * pow2(UNIT_EXPONENT as nat)
    }

    /// The number is less than one unit in its last place away from the
    /// fraction `num / den`: it is that fraction rounded up or down.
    pub open spec fn is_within_ulp_of(self, num: int, den: int) -> bool {
        &&& self.finite()
        &&& den > 0
        &&& {
            let error = self.units() * den - num * pow2(UNIT_EXPONENT as nat);
            let ulp = pow2(self.scale()) * den;
            -ulp < error < ulp
        }
    }

    /// The number is no further than half a unit in its last place from the
    /// fraction `num / den`: no number is nearer to it, but perhaps the next
    /// one below a power of two.
    pub open spec fn is_within_half_ulp_of(self, num: int, den: int) -> bool {
        &&& self.finite()
        &&& den > 0
        &&& {
            let error = self.units() * den - num * pow2(UNIT_EXPONENT as nat);
            let ulp = pow2(self.scale()) * den;
            -ulp <= 2 * error <= ulp
        }
    }

    /// The significand with the sign of the number.
    pub open spec fn signed_significand(self) -> int {
        if self.negative() {
            -(self.significand() as int)
        } else {
            self.significand() as int
        }
    }

    /// The number is zero, with either sign. A NaN is not.
    pub open spec fn vanishes(self) -> bool {
        !self.nan() && self.units() == 0
    }

    /// `self < other` as IEEE 754 orders them: false when either is a NaN, and
    /// the two zeros are equal.
    pub open spec fn less(self, other: Binary64) -> bool {
        !self.nan() && !other.nan() && self.units() < other.units()
    }

    /// `self <= other` as IEEE 754 orders them: false when either is a NaN.
    pub open spec fn less_eq(self, other: Binary64) -> bool {
        !self.nan() && !other.nan() && self.units() <= other.units()
    }
}

/// The magnitude that an exponent field and a fraction field stand for.
spec fn field_magnitude(exponent: nat, fraction: nat) -> nat {
    if exponent == 0 {
        fraction
    } else {
        ((HIDDEN_BIT as nat) + fraction) * pow2((exponent - 1) as nat)
    }
}

/// The magnitudes with one exponent field lie from 2^52 times a power of two
/// up to, and not at, 2^52 times the next power of two.
proof fn lemma_field_magnitude_bounds(exponent: nat, fraction: nat)
    requires
        fraction < HIDDEN_BIT,
    ensures
        exponent > 0 ==> HIDDEN_BIT * pow2((exponent - 1) as nat) <= field_magnitude(
            exponent,
            fraction,
        ),
        field_magnitude(exponent, fraction) < HIDDEN_BIT * pow2(exponent),
{
    lemma2_to64();
    if exponent == 0 {
    } else {
        let p = pow2((exponent - 1) as nat);
        lemma_pow2_pos((exponent - 1) as nat);
        lemma_pow2_unfold(exponent);
        let h = HIDDEN_BIT as nat;
        assert(h * p <= (h + fraction) * p && (h + fraction) * p < h * (2 * p))
            by (nonlinear_arith)
            requires
                p > 0,
                fraction < h,
        ;
    }
}

/// A larger exponent field, or the same with a larger fraction, is a larger
/// magnitude.
proof fn lemma_field_magnitude_increases(e1: nat, f1: nat, e2: nat, f2: nat)
    requires
        f1 < HIDDEN_BIT,
        f2 < HIDDEN_BIT,
        e1 < e2 || (e1 == e2 && f1 < f2),
    ensures
        field_magnitude(e1, f1) < field_magnitude(e2, f2),
{
    if e1 == e2 {
        if e1 > 0 {
            let p = pow2((e1 - 1) as nat);
            lemma_pow2_pos((e1 - 1) as nat);
            let h = HIDDEN_BIT as nat;
            assert((h + f1) * p < (h + f2) * p) by (nonlinear_arith)
                requires
                    p > 0,
                    f1 < f2,
            ;
        }
    } else {
        lemma_field_magnitude_bounds(e1, f1);
        lemma_field_magnitude_bounds(e2, f2);
        let below = (e2 - 1) as nat;
        if e1 < below {
            lemma_pow2_strictly_increases(e1, below);
        }
        let h = HIDDEN_BIT as nat;
        let low = pow2(e1);
        let high = pow2(below);
        assert(h * low <= h * high) by (nonlinear_arith)
            requires
                low <= high,
        ;
    }
}

/// The encoding orders magnitudes: without their sign bits, two encodings
/// compare as the magnitudes they stand for.
pub proof fn lemma_magnitude_order(x: Binary64, y: Binary64)
    ensures
        x.abs_bits() < y.abs_bits() <==> x.magnitude() < y.magnitude(),
        x.abs_bits() == y.abs_bits() <==> x.magnitude() == y.magnitude(),
{
    let (ex, fx) = (x.biased_exponent(), x.fraction());
    let (ey, fy) = (y.biased_exponent(), y.fraction());
    let unit = pow2(0);
    assert(unit == 1) by {
        lemma2_to64();
    }
    assert(fx * unit == fx && fy * unit == fy) by (nonlinear_arith)
        requires
            unit == 1,
    ;
    assert(x.magnitude() == field_magnitude(ex, fx));
    assert(y.magnitude() == field_magnitude(ey, fy));
    if x.abs_bits() < y.abs_bits() {
        lemma_field_magnitude_increases(ex, fx, ey, fy);
    } else if y.abs_bits() < x.abs_bits() {
        lemma_field_magnitude_increases(ey, fy, ex, fx);
    }
}

/// Only the two zeros have magnitude zero.
pub proof fn lemma_magnitude_zero(x: Binary64)
    ensures
        x.magnitude() == 0 <==> x.abs_bits() == 0,
{
    let zero = Binary64 { bits: 0 };
    lemma_magnitude_order(x, zero);
    assert(zero.magnitude() == 0) by {
        assert(zero.abs_bits() == 0);
        assert(zero.significand() == 0);
        assert(0 * pow2(zero.scale()) == 0);
    }
}

/// The encoding of one stands for 2^1074 units.
pub proof fn lemma_one()
    ensures
        (Binary64 { bits: 0x3ff0_0000_0000_0000 }).finite(),
        (Binary64 { bits: 0x3ff0_0000_0000_0000 }).units() == pow2(UNIT_EXPONENT as nat) > 0,
{
    let x = Binary64 { bits: 0x3ff0_0000_0000_0000 };
    assert(x.biased_exponent() == 1023);
    assert(x.fraction() == 0);
    lemma2_to64_rest();
    lemma_pow2_adds(52, 1022);
    lemma_pow2_pos(UNIT_EXPONENT as nat);
}

/// The units of a number are its significand, with its sign, times the power
/// of two of its scale.
proof fn lemma_units(x: Binary64)
    ensures
        x.units() == x.signed_significand() * pow2(x.scale()),
{
    let sig = x.significand();
    let low = pow2(x.scale());
    assert(-((sig * low) as int) == (-(sig as int)) * low) by (nonlinear_arith);
}

/// A number below 2^53 is its significand over a power of two, so it is the
/// fraction `num / den` where the significand is.
pub proof fn lemma_is_ratio(x: Binary64, num: int, den: int)
    requires
        x.finite(),
        den > 0,
        x.scale() <= UNIT_EXPONENT,
        x.signed_significand() * den == num * pow2((UNIT_EXPONENT - x.scale()) as nat),
    ensures
        x.is_ratio(num, den),
{
    let low = pow2(x.scale());
    let high = pow2((UNIT_EXPONENT - x.scale()) as nat);
    let sig = x.signed_significand();
    lemma_pow2_adds(x.scale(), (UNIT_EXPONENT - x.scale()) as nat);
    lemma_units(x);
    assert((sig * low) * den == num * (low * high)) by (nonlinear_arith)
        requires
            sig * den == num * high,
    ;
}

/// A number below 2^53 is within a unit in its last place of the fraction
/// `num / den` where its significand is within one of that fraction's.
pub proof fn lemma_is_within_ulp_of(x: Binary64, num: int, den: int)
    requires
        x.finite(),
        den > 0,
        x.scale() <= UNIT_EXPONENT,
        -den < x.signed_significand() * den - num * pow2((UNIT_EXPONENT - x.scale()) as nat) < den,
    ensures
        x.is_within_ulp_of(num, den),
{
    let low = pow2(x.scale());
    let high = pow2((UNIT_EXPONENT - x.scale()) as nat);
    let sig = x.signed_significand();
    lemma_pow2_adds(x.scale(), (UNIT_EXPONENT - x.scale()) as nat);
    lemma_pow2_pos(x.scale());
    lemma_units(x);
    let gap = sig * den - num * high;
    assert((sig * low) * den - num * (low * high) == gap * low && -(low * den) < gap * low < low
        * den) by (nonlinear_arith)
        requires
            gap == sig * den - num * high,
            -den < gap < den,
            low > 0,
    ;
}

/// A number below 2^53 is within half a unit in its last place of the
/// fraction `num / den` where its significand is within a half of that
/// fraction's.
pub proof fn lemma_is_within_half_ulp_of(x: Binary64, num: int, den: int)
    requires
        x.finite(),
        den > 0,
        x.scale() <= UNIT_EXPONENT,
        -den <= 2 * (x.signed_significand() * den - num * pow2(
            (UNIT_EXPONENT - x.scale()) as nat,
        )) <= den,
    ensures
        x.is_within_half_ulp_of(num, den),
{
    let low = pow2(x.scale());
    let high = pow2((UNIT_EXPONENT - x.scale()) as nat);
    let sig = x.signed_significand();
    lemma_pow2_adds(x.scale(), (UNIT_EXPONENT - x.scale()) as nat);
    lemma_pow2_pos(x.scale());
    lemma_units(x);
    let gap = sig * den - num * high;
    assert((sig * low) * den - num * (low * high) == gap * low && -(low * den) <= 2 * (gap * low)
        <= low * den) by (nonlinear_arith)
        requires
            gap == sig * den - num * high,
            -den <= 2 * gap <= den,
            low > 0,
    ;
}

impl Binary64 {
    /// The number with the given encoding.
    pub fn from_bits(bits: u64) -> (x: Binary64)
        ensures
            x.bits == bits,
    {
        Binary64 { bits }
    }

    /// Positive zero.
    pub fn zero() -> (x: Binary64)
        ensures
            x.bits == 0,
            x.finite(),
            x.units() == 0,
    {
        let x = Binary64 { bits: 0 };
        proof {
            lemma_magnitude_zero(x);
        }
        x
    }

    /// One.
    pub fn one() -> (x: Binary64)
        ensures
            x.bits == 0x3ff0_0000_0000_0000,
            x.finite(),
            x.units() == pow2(UNIT_EXPONENT as nat) > 0,
    {
        let x = Binary64 { bits: 0x3ff0_0000_0000_0000 };
        proof {
            lemma_one();
        }
        x
    }

    /// The encoding without its sign bit.
    fn magnitude_bits(self) -> (m: u64)
        ensures
            m == self.abs_bits(),
    {
        if self.bits >= SIGN_BIT {
            self.bits - SIGN_BIT
        } else {
            self.bits
        }
    }

    /// Whether the number is a NaN.
    pub fn is_nan(self) -> (r: bool)
        ensures
            r == self.nan(),
    {
        self.magnitude_bits() > INFINITY_BITS
    }

    /// Whether the number is zero, as its comparison with zero gives it: true
    /// of both zeros, false of a NaN.
    pub fn is_zero(self) -> (r: bool)
        ensures
            r == self.vanishes(),
    {
        proof {
            lemma_magnitude_zero(self);
        }
        self.magnitude_bits() == 0
    }

    /// `self < other`, as the comparison of the two numbers gives it.
    pub fn lt(self, other: Binary64) -> (r: bool)
        ensures
            r == self.less(other),
    {
        if self.is_nan() || other.is_nan() {
            return false;
        }
        let a = self.magnitude_bits();
        let b = other.magnitude_bits();
        proof {
            lemma_magnitude_order(self, other);
            lemma_magnitude_zero(self);
            lemma_magnitude_zero(other);
        }
        if self.bits >= SIGN_BIT {
            if other.bits >= SIGN_BIT {
                b < a
            } else {
                a != 0 || b != 0
            }
        } else {
            if other.bits >= SIGN_BIT {
                false
            } else {
                a < b
            }
        }
    }

    /// `self <= other`, as the comparison of the two numbers gives it.
    pub fn le(self, other: Binary64) -> (r: bool)
        ensures
            r == self.less_eq(other),
    {
        if self.is_nan() || other.is_nan() {
            return false;
        }
        let a = self.magnitude_bits();
        let b = other.magnitude_bits();
        proof {
            lemma_magnitude_order(self, other);
            lemma_magnitude_zero(self);
            lemma_magnitude_zero(other);
        }
        if self.bits >= SIGN_BIT {
            if other.bits >= SIGN_BIT {
                b <= a
            } else {
                true
            }
        } else {
            if other.bits >= SIGN_BIT {
                a == 0 && b == 0
            } else {
                a <= b
            }
        }
    }
}

} // verus!
