//! Lengths and coordinates, held as IEEE 754 single-precision bit patterns.
//!
//! The layout toolkit and the grid solver exchange single-precision numbers.
//! This module carries such a number by its 32 bits and states, over plain
//! integers, the few things the adapter needs to know of it: whether it is
//! finite, whether two of them are the same number, and what it rounds to.

use vstd::arithmetic::div_mod::lemma_div_by_multiple;
use vstd::arithmetic::div_mod::lemma_div_is_ordered;
use vstd::arithmetic::div_mod::lemma_div_multiples_vanish_quotient;
use vstd::arithmetic::div_mod::lemma_fundamental_div_mod;
use vstd::arithmetic::div_mod::lemma_fundamental_div_mod_converse;
use vstd::arithmetic::mul::lemma_mul_equality_converse;
use vstd::arithmetic::mul::lemma_mul_inequality;
use vstd::arithmetic::mul::lemma_mul_is_commutative;
use vstd::arithmetic::power2::lemma2_to64;
use vstd::arithmetic::power2::lemma_pow2_adds;
use vstd::arithmetic::power2::lemma_pow2_pos;
use vstd::arithmetic::power2::lemma_pow2_unfold;
use vstd::arithmetic::power2::lemma_pow2_strictly_increases;
use vstd::arithmetic::power2::pow2;
use vstd::bits::lemma_u32_shl_is_mul;
use vstd::prelude::*;

verus! {

/// The sign bit of a bit pattern.
pub const SIGN_BIT: u32 = 0x8000_0000;

/// The weight of the lowest exponent bit: two to the power 23.
pub const HIDDEN_BIT: u32 = 0x0080_0000;

/// The bit pattern of positive infinity; every larger magnitude is a NaN.
pub const INFINITY_BITS: u32 = 0x7f80_0000;

/// The bit pattern of the number one.
pub const ONE_BITS: u32 = 0x3f80_0000;

/// The biased exponent from which on every finite number is whole.
pub const WHOLE_EXPONENT: u32 = 150;

/// The biased exponent of the numbers in `[1/2, 1)`.
pub const HALF_EXPONENT: u32 = 126;

/// A single-precision number, identified by its bit pattern.
///
/// Two scalars are `==` when their bits are the same. Whether they are the same
/// *number* is a different question, answered by [`Scalar::equals`].
#[derive(Clone, Copy, Debug, PartialEq, Eq, Structural)]
pub struct Scalar {
    pub bits: u32,
}

/// The exponent of two that [`Scalar::scaled_magnitude`] scales by.
pub const SCALE: u32 = 149;

/// The nearest multiple of `unit` to `magnitude`, a tie going upwards.
pub open spec fn nearest_multiple(magnitude: int, unit: int) -> int {
    ((magnitude + unit / 2) / unit) * unit
}

impl Scalar {
    /// The bits without the sign.
    pub open spec fn magnitude(self) -> nat {
        (self.bits % SIGN_BIT) as nat
    }

    /// Whether the sign bit is set.
    pub open spec fn is_negative(self) -> bool {
        self.bits >= SIGN_BIT
    }

    /// The sign bit alone.
    pub open spec fn sign(self) -> nat {
        if self.is_negative() {
            SIGN_BIT as nat
        } else {
            0
        }
    }

    /// The biased exponent, from 0 to 255.
    pub open spec fn exponent(self) -> nat {
        self.magnitude() / (HIDDEN_BIT as nat)
    }

    /// The 23 fraction bits.
    pub open spec fn fraction(self) -> nat {
        self.magnitude() % (HIDDEN_BIT as nat)
    }

    /// Neither an infinity nor a NaN.
    pub open spec fn finite(self) -> bool {
        self.magnitude() < INFINITY_BITS
    }

    /// Not a number.
    pub open spec fn nan(self) -> bool {
        self.magnitude() > INFINITY_BITS
    }

    /// Whether `self` and `other` are the same number: neither is a NaN, and
    /// they have the same bits or are both zeros (of either sign).
    pub open spec fn same_number(self, other: Scalar) -> bool {
        &&& !self.nan()
        &&& !other.nan()
        &&& (self.bits == other.bits || (self.magnitude() == 0 && other.magnitude() == 0))
    }

    /// The absolute value of a finite scalar in units of two to the power -149,
    /// the spacing of the smallest subnormals: an exact natural number.
    pub open spec fn scaled_magnitude(self) -> nat {
        if self.exponent() == 0 {
            self.fraction()
        } else {
            ((self.fraction() + HIDDEN_BIT) * pow2((self.exponent() - 1) as nat)) as nat
        }
    }

    /// The scalar that [`Scalar::round`] computes: the nearest whole number, a
    /// tie going away from zero, with the sign kept. Infinities and NaNs round
    /// to themselves.
    pub open spec fn rounded(self) -> Scalar {
        let e = self.exponent();
        if e >= WHOLE_EXPONENT {
            self
        } else if e < HALF_EXPONENT {
            Scalar { bits: self.sign() as u32 }
        } else if e == HALF_EXPONENT {
            Scalar { bits: (self.sign() + ONE_BITS) as u32 }
        } else {
            let unit = pow2((WHOLE_EXPONENT - e) as nat);
            let whole = nearest_multiple(self.fraction() + HIDDEN_BIT, unit as int);
            Scalar { bits: (self.sign() + e * HIDDEN_BIT + whole - HIDDEN_BIT) as u32 }
        }
    }

    /// The scalar with the given bits.
    pub fn from_bits(bits: u32) -> (out: Scalar)
        ensures
            out.bits == bits,
    {
        Scalar { bits }
    }

    /// The bits of the scalar.
    pub fn to_bits(self) -> (out: u32)
        ensures
            out == self.bits,
    {
        self.bits
    }

    /// Positive zero.
    pub fn zero() -> (out: Scalar)
        ensures
            out.bits == 0,
    {
        Scalar { bits: 0 }
    }

    /// Positive infinity.
    pub fn infinity() -> (out: Scalar)
        ensures
            out.bits == INFINITY_BITS,
    {
        Scalar { bits: INFINITY_BITS }
    }

    /// Whether the scalar is neither infinite nor a NaN.
    pub fn is_finite(self) -> (out: bool)
        ensures
            out == self.finite(),
    {
        self.bits % SIGN_BIT < INFINITY_BITS
    }

    /// Whether the scalar is a NaN.
    pub fn is_nan(self) -> (out: bool)
        ensures
            out == self.nan(),
    {
        self.bits % SIGN_BIT > INFINITY_BITS
    }

    /// Whether two scalars are the same number, as the comparison of the
    /// numbers themselves would say: a NaN equals nothing, and the two zeros
    /// equal each other.
    pub fn equals(self, other: Scalar) -> (out: bool)
        ensures
            out == self.same_number(other),
    {
        if self.is_nan() || other.is_nan() {
            false
        } else {
            self.bits == other.bits || (self.bits % SIGN_BIT == 0 && other.bits % SIGN_BIT == 0)
        }
    }

    /// Rounds to the nearest whole number, half-way cases away from zero.
    pub fn round(self) -> (out: Scalar)
        ensures
            out == self.rounded(),
    {
        let sign: u32 = if self.bits >= SIGN_BIT {
            SIGN_BIT
        } else {
            0
        };
        let magnitude: u32 = self.bits % SIGN_BIT;
        let e: u32 = magnitude / HIDDEN_BIT;
        if e >= WHOLE_EXPONENT {
            self
        } else if e < HALF_EXPONENT {
            Scalar { bits: sign }
        } else if e == HALF_EXPONENT {
            Scalar { bits: sign + ONE_BITS }
        } else {
            let shift: u32 = WHOLE_EXPONENT - e;
            proof {
                lemma_unit_divides_hidden_bit(shift as nat);
                lemma_u32_shl_is_mul(1, shift);
            }
            let unit: u32 = 1u32 << shift;
            let significand: u32 = magnitude % HIDDEN_BIT + HIDDEN_BIT;
            proof {
                lemma_nearest_multiple_bounds(significand as nat, shift as nat);
            }
            let whole: u32 = (significand + unit / 2) / unit * unit;
            Scalar { bits: sign + e * HIDDEN_BIT + whole - HIDDEN_BIT }
        }
    }
}

/// A scalar that is put together from a sign, an exponent and a fraction has
/// that sign, that exponent and that fraction.
proof fn lemma_parts(negative: bool, exponent: nat, fraction: nat) -> (out: Scalar)
    requires
        exponent <= 255,
        fraction < HIDDEN_BIT,
    ensures
        out.bits == (if negative {
            SIGN_BIT as nat
        } else {
            0
        }) + exponent * HIDDEN_BIT + fraction,
        out.is_negative() == negative,
        out.exponent() == exponent,
        out.fraction() == fraction,
{
    let sign: nat = if negative {
        SIGN_BIT as nat
    } else {
        0
    };
    Scalar { bits: (sign + exponent * HIDDEN_BIT + fraction) as u32 }
}

/// Adding half a unit to a multiple of the unit and dividing by the unit gives
/// the multiple back: a whole number rounds to itself.
proof fn lemma_multiple_is_nearest(count: int, unit: int)
    requires
        0 <= count,
        2 <= unit,
    ensures
        nearest_multiple(count * unit, unit) == count * unit,
{
    lemma_fundamental_div_mod_converse(count * unit + unit / 2, unit, count, unit / 2);
}

/// What the rounding of a finite scalar is, said of the numbers: the result is
/// finite and has the sign of the scalar, and its absolute value is the whole
/// number nearest to the absolute value of the scalar, the upper one where two
/// are equally near.
///
/// Both absolute values are taken in units of two to the power -149, in which
/// the number one is two to the power 149.
pub proof fn lemma_rounded_is_nearest_whole(x: Scalar)
    requires
        x.finite(),
    ensures
        x.rounded().finite(),
        x.rounded().is_negative() == x.is_negative(),
        x.rounded().scaled_magnitude() == nearest_multiple(
            x.scaled_magnitude() as int,
            pow2(SCALE as nat) as int,
        ),
{
    let e = x.exponent();
    let m = x.fraction();
    let significand = (m + HIDDEN_BIT) as int;
    let one = pow2(149) as int;
    let half = pow2(148) as int;
    let magnitude = x.scaled_magnitude() as int;
    lemma_pow2_unfold(149);
    lemma_pow2_pos(148);
    lemma2_to64();
    lemma_pow2_strictly_increases(24, 148);
    if e >= WHOLE_EXPONENT {
        // The scalar is a whole number already.
        let scale = pow2((e - 150) as nat) as int;
        lemma_pow2_adds((e - 150) as nat, 149);
        lemma_pow2_pos((e - 150) as nat);
        assert(magnitude == (significand * scale) * one) by (nonlinear_arith)
            requires
                magnitude == significand * (scale * one),
        ;
        assert(0 <= significand * scale) by (nonlinear_arith)
            requires
                0 <= significand,
                0 <= scale,
        ;
        lemma_multiple_is_nearest(significand * scale, one);
    } else if e < HALF_EXPONENT {
        // The scalar is less than a half.
        if e > 0 {
            let scale = pow2((e - 1) as nat) as int;
            lemma_pow2_adds(24, (e - 1) as nat);
            lemma_pow2_pos((e - 1) as nat);
            if e + 23 < 148 {
                lemma_pow2_strictly_increases(e + 23, 148);
            }
            assert(significand * scale < 0x100_0000 * scale) by (nonlinear_arith)
                requires
                    significand < 0x100_0000,
                    0 < scale,
            ;
        }
        assert(magnitude < half);
        lemma_fundamental_div_mod_converse(magnitude + one / 2, one, 0, magnitude + one / 2);
        let zero = lemma_parts(x.is_negative(), 0, 0);
        assert(x.rounded() == zero);
    } else if e == HALF_EXPONENT {
        // The scalar is at least a half and less than one.
        let scale = pow2(125) as int;
        lemma_pow2_adds(23, 125);
        lemma_pow2_adds(24, 125);
        lemma_pow2_pos(125);
        assert(0x80_0000 * scale <= significand * scale < 0x100_0000 * scale) by (nonlinear_arith)
            requires
                0x80_0000 <= significand < 0x100_0000,
                0 < scale,
        ;
        lemma_fundamental_div_mod_converse(magnitude + one / 2, one, 1, magnitude + one / 2 - one);
        let unit = lemma_parts(x.is_negative(), 127, 0);
        assert(x.rounded() == unit);
        lemma_pow2_adds(23, 126);
    } else {
        // The scalar has a fraction of `shift` bits below the unit.
        let shift = (150 - e) as nat;
        let unit = pow2(shift) as int;
        let scale = pow2((e - 1) as nat) as int;
        lemma_unit_divides_hidden_bit(shift);
        lemma_nearest_multiple_bounds(significand as nat, shift);
        lemma_pow2_adds(shift, (e - 1) as nat);
        lemma_pow2_adds((shift - 1) as nat, (e - 1) as nat);
        lemma_pow2_pos((e - 1) as nat);
        lemma_pow2_pos((shift - 1) as nat);
        let raised = significand + unit / 2;
        let count = raised / unit;
        let whole = nearest_multiple(significand, unit);
        // In units of the scale the scalar is its significand, and one is the
        // unit: rounding the one is rounding the other.
        assert(one == unit * scale);
        assert(one / 2 == (unit / 2) * scale) by (nonlinear_arith)
            requires
                one == unit * scale,
                unit == 2 * (unit / 2),
        ;
        assert(magnitude + one / 2 == scale * raised) by (nonlinear_arith)
            requires
                magnitude == significand * scale,
                one / 2 == (unit / 2) * scale,
                raised == significand + unit / 2,
        ;
        lemma_div_multiples_vanish_quotient(scale, raised, unit);
        assert(scale * unit == one) by (nonlinear_arith)
            requires
                one == unit * scale,
        ;
        assert((magnitude + one / 2) / one == count);
        assert(nearest_multiple(magnitude, one) == whole * scale) by (nonlinear_arith)
            requires
                nearest_multiple(magnitude, one) == count * one,
                whole == count * unit,
                one == unit * scale,
        ;
        if whole == 2 * HIDDEN_BIT {
            let carried = lemma_parts(x.is_negative(), e + 1, 0);
            assert(x.rounded() == carried);
            lemma_pow2_unfold(e);
            assert(carried.scaled_magnitude() == whole * scale) by (nonlinear_arith)
                requires
                    carried.scaled_magnitude() == 0x80_0000 * pow2(e),
                    pow2(e) == 2 * scale,
                    whole == 0x100_0000,
            ;
        } else {
            let kept = lemma_parts(x.is_negative(), e, (whole - HIDDEN_BIT) as nat);
            assert(x.rounded() == kept);
        }
    }
}

/// A scalar that has been rounded rounds to itself.
pub proof fn lemma_rounding_is_idempotent(x: Scalar)
    ensures
        x.rounded().rounded() == x.rounded(),
{
    let e = x.exponent();
    lemma2_to64();
    if e >= WHOLE_EXPONENT {
    } else if e < HALF_EXPONENT {
        let zero = lemma_parts(x.is_negative(), 0, 0);
        assert(x.rounded() == zero);
    } else if e == HALF_EXPONENT {
        let unit = lemma_parts(x.is_negative(), 127, 0);
        assert(x.rounded() == unit);
        lemma_multiple_is_nearest(1, HIDDEN_BIT as int);
    } else {
        let shift = (150 - e) as nat;
        let unit = pow2(shift) as int;
        let significand = (x.fraction() + HIDDEN_BIT) as int;
        let whole = nearest_multiple(significand, unit);
        lemma_unit_divides_hidden_bit(shift);
        lemma_nearest_multiple_bounds(significand as nat, shift);
        if whole == 2 * HIDDEN_BIT {
            // The rounding carried into the next exponent, where the unit is
            // half as large and still divides the hidden bit.
            let carried = lemma_parts(x.is_negative(), e + 1, 0);
            assert(x.rounded() == carried);
            if e + 1 < WHOLE_EXPONENT {
                let next = (shift - 1) as nat;
                lemma_unit_divides_hidden_bit(next);
                lemma_pow2_pos((23 - next) as nat);
                lemma_multiple_is_nearest(pow2((23 - next) as nat) as int, pow2(next) as int);
            }
        } else {
            // The rounded significand is a multiple of the unit.
            let kept = lemma_parts(x.is_negative(), e, (whole - HIDDEN_BIT) as nat);
            assert(x.rounded() == kept);
            let count = (significand + unit / 2) / unit;
            assert(0 <= count) by (nonlinear_arith)
                requires
                    0 <= significand + unit / 2,
                    0 < unit,
                    count == (significand + unit / 2) / unit,
            ;
            lemma_multiple_is_nearest(count, unit);
        }
    }
}

/// Between which powers of two the scaled magnitude of a scalar lies: below two
/// to the power 23 for the exponent zero, and for any other exponent `e` from
/// two to the power `e + 22` up to, and not reaching, two to the power
/// `e + 23`.
proof fn lemma_scaled_magnitude_bounds(x: Scalar)
    ensures
        x.exponent() == 0 ==> x.scaled_magnitude() < pow2(23),
        x.exponent() > 0 ==> pow2(x.exponent() + 22) <= x.scaled_magnitude() < pow2(
            x.exponent() + 23,
        ),
{
    let e = x.exponent();
    lemma2_to64();
    if e > 0 {
        let scale = pow2((e - 1) as nat) as int;
        let significand = (x.fraction() + HIDDEN_BIT) as int;
        lemma_pow2_pos((e - 1) as nat);
        lemma_pow2_adds(23, (e - 1) as nat);
        lemma_pow2_adds(24, (e - 1) as nat);
        assert(0x80_0000 * scale <= significand * scale < 0x100_0000 * scale) by (nonlinear_arith)
            requires
                0x80_0000 <= significand < 0x100_0000,
                0 < scale,
        ;
    }
}

/// A finite scalar is known by its sign and its absolute value: two finite
/// scalars of the same sign and the same scaled magnitude have the same bits.
/// So what [`lemma_rounded_is_nearest_whole`] says of the rounded scalar is true
/// of that scalar alone.
pub proof fn lemma_sign_and_magnitude_make_the_scalar(a: Scalar, b: Scalar)
    requires
        a.finite(),
        b.finite(),
        a.is_negative() == b.is_negative(),
        a.scaled_magnitude() == b.scaled_magnitude(),
    ensures
        a == b,
{
    lemma_scaled_magnitude_bounds(a);
    lemma_scaled_magnitude_bounds(b);
    let ea = a.exponent();
    let eb = b.exponent();
    if ea < eb {
        if ea + 23 < eb + 22 {
            lemma_pow2_strictly_increases(ea + 23, eb + 22);
        }
    } else if eb < ea {
        if eb + 23 < ea + 22 {
            lemma_pow2_strictly_increases(eb + 23, ea + 22);
        }
    } else if ea > 0 {
        let scale = pow2((ea - 1) as nat) as int;
        lemma_pow2_pos((ea - 1) as nat);
        lemma_mul_equality_converse(
            scale,
            (a.fraction() + HIDDEN_BIT) as int,
            (b.fraction() + HIDDEN_BIT) as int,
        );
        lemma_mul_is_commutative(scale, (a.fraction() + HIDDEN_BIT) as int);
        lemma_mul_is_commutative(scale, (b.fraction() + HIDDEN_BIT) as int);
    }
    assert(a.bits == b.bits);
}

/// For a shift of 1 to 23, two to that power divides two to the power 23.
proof fn lemma_unit_divides_hidden_bit(shift: nat)
    requires
        1 <= shift <= 23,
    ensures
        2 <= pow2(shift) <= HIDDEN_BIT,
        pow2((23 - shift) as nat) * pow2(shift) == HIDDEN_BIT,
        pow2(shift) == 2 * pow2((shift - 1) as nat),
{
    lemma2_to64();
    lemma_pow2_adds((23 - shift) as nat, shift);
    lemma_pow2_adds(1, (shift - 1) as nat);
    lemma_pow2_pos((23 - shift) as nat);
    lemma_pow2_pos((shift - 1) as nat);
    let high = pow2((23 - shift) as nat) as int;
    let unit = pow2(shift) as int;
    assert(unit <= high * unit) by (nonlinear_arith)
        requires
            high >= 1,
            unit >= 0,
    ;
}

/// A significand of 24 bits rounds, at a unit of two to the power `shift`, to a
/// multiple of the unit that still has its hidden bit and is at most two to the
/// power 24.
proof fn lemma_nearest_multiple_bounds(significand: nat, shift: nat)
    requires
        1 <= shift <= 23,
        HIDDEN_BIT <= significand < 2 * HIDDEN_BIT,
    ensures
        HIDDEN_BIT <= nearest_multiple(significand as int, pow2(shift) as int) <= 2 * HIDDEN_BIT,
        nearest_multiple(significand as int, pow2(shift) as int) <= significand + pow2(shift) / 2,
        significand + pow2(shift) / 2 < nearest_multiple(significand as int, pow2(shift) as int)
            + pow2(shift),
{
    lemma_unit_divides_hidden_bit(shift);
    let unit = pow2(shift) as int;
    let high = pow2((23 - shift) as nat) as int;
    let raised = significand as int + unit / 2;
    let quotient = raised / unit;
    lemma_fundamental_div_mod(raised, unit);
    lemma_mul_is_commutative(unit, quotient);
    // The quotient lies between `high`, the quotient of two to the power 23,
    // and twice that.
    lemma_div_is_ordered(high * unit, raised, unit);
    lemma_div_by_multiple(high, unit);
    lemma_mul_inequality(high, quotient, unit);
    assert(quotient <= 2 * high) by (nonlinear_arith)
        requires
            unit >= 2,
            high * unit == HIDDEN_BIT,
            quotient * unit <= raised,
            raised < 2 * HIDDEN_BIT + unit,
    ;
    assert(quotient * unit <= 2 * HIDDEN_BIT) by (nonlinear_arith)
        requires
            unit >= 2,
            high * unit == HIDDEN_BIT,
            quotient <= 2 * high,
    ;
}

} // verus!
