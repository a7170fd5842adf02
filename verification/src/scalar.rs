//! Single-precision numbers and 2D vectors, held by their IEEE-754 bit
//! patterns.
//!
//! The library never does arithmetic on these numbers. It stores them, hands
//! them out, and classifies them: is a number finite, is it at least the
//! smallest magnitude a length or a frequency may have. Classification reads
//! only the sign, exponent and significand fields of the pattern; what it
//! means is stated over the number's absolute value, counted in units of
//! two to the power -149, the smallest positive number.

use vstd::prelude::*;
use vstd::arithmetic::power2::{
    lemma2_to64, lemma_pow2_pos, lemma_pow2_strictly_increases, lemma_pow2_unfold, pow2,
};

verus! {

/// Two to the power 23: the weight of the lowest exponent bit.
pub const EXPONENT_UNIT: u32 = 0x0080_0000;

/// Two to the power 31: the weight of the sign bit.
pub const SIGN_UNIT: u32 = 0x8000_0000;

/// The exponent field of infinities and of NaNs.
pub const EXPONENT_SPECIAL: u32 = 0xff;

/// Bit pattern of `0.0`.
pub const ZERO_BITS: u32 = 0x0000_0000;

/// Bit pattern of `0.5`.
pub const HALF_BITS: u32 = 0x3f00_0000;

/// Bit pattern of `1.0`.
pub const ONE_BITS: u32 = 0x3f80_0000;

/// Bit pattern of two to the power -23, the smallest magnitude that a length
/// or a frequency is allowed to have.
pub const EPSILON_BITS: u32 = 0x3400_0000;

/// A single-precision number, held by its bit pattern.
#[derive(Clone, Copy, Debug, PartialEq, Eq, Structural)]
pub struct Scalar {
    pub bits: u32,
}

impl Scalar {
    /// The sign bit: set for negative numbers and for negative zero.
    pub open spec fn sign(self) -> bool {
        self.bits >= SIGN_UNIT
    }

    /// The biased exponent field, bits 23 to 30.
    pub open spec fn exponent(self) -> int {
        (self.bits as int / EXPONENT_UNIT as int) % 0x100
    }

    /// The significand field, bits 0 to 22.
    pub open spec fn significand(self) -> int {
        self.bits as int % EXPONENT_UNIT as int
    }

    /// The pattern without its sign bit.
    pub open spec fn magnitude(self) -> int {
        self.bits as int % SIGN_UNIT as int
    }

    /// The absolute value of a finite number, in units of two to the power
    /// -149. With a zero exponent field the significand counts the units
    /// itself; otherwise the significand gets its leading one and is doubled
    /// once for each step of the exponent above one.
    pub open spec fn units(self) -> nat
        recommends
            self.finite(),
    {
        if self.exponent() == 0 {
            self.significand() as nat
        } else {
            ((EXPONENT_UNIT as int + self.significand()) * pow2(
                (self.exponent() - 1) as nat,
            )) as nat
        }
    }

    /// Epsilon, two to the power -23, in units of two to the power -149.
    pub open spec fn epsilon_units() -> nat {
        EXPONENT_UNIT as nat * pow2(103)
    }

    /// Not a number: the special exponent with a nonzero significand.
    pub open spec fn nan(self) -> bool {
        self.exponent() == EXPONENT_SPECIAL && self.significand() != 0
    }

    /// An infinity: the special exponent with a zero significand.
    pub open spec fn infinite(self) -> bool {
        self.exponent() == EXPONENT_SPECIAL && self.significand() == 0
    }

    /// Neither NaN nor an infinity.
    pub open spec fn finite(self) -> bool {
        self.exponent() != EXPONENT_SPECIAL
    }

    /// Positive or negative zero: finite, and of no units.
    pub open spec fn zero(self) -> bool {
        self.finite() && self.units() == 0
    }

    /// Finite and not below zero: what a timestep has to be.
    pub open spec fn timestep(self) -> bool {
        self.finite() && (self.zero() || !self.sign())
    }

    /// At least epsilon: positive infinity, or a finite number that is not
    /// negative and of no fewer units than epsilon.
    pub open spec fn at_least_epsilon(self) -> bool {
        !self.sign() && (self.infinite() || self.finite() && self.units()
            >= Scalar::epsilon_units())
    }

    /// What a length or a frequency is clamped to: itself where it is at
    /// least epsilon, and epsilon otherwise. Zero, negative numbers, positive
    /// numbers below epsilon and NaN all give epsilon.
    pub open spec fn clamped(self) -> Scalar {
        if self.at_least_epsilon() {
            self
        } else {
            Scalar { bits: EPSILON_BITS }
        }
    }

    pub fn from_bits(bits: u32) -> (r: Scalar)
        ensures
            r.bits == bits,
    {
        Scalar { bits }
    }

    pub fn to_bits(&self) -> (bits: u32)
        ensures
            bits == self.bits,
    {
        self.bits
    }

    /// `0.0`.
    pub fn new_zero() -> (r: Scalar)
        ensures
            r.bits == ZERO_BITS,
            r.zero(),
            r.finite(),
            !r.sign(),
    {
        Scalar { bits: ZERO_BITS }
    }

    /// `0.5`: two to the power 148 units.
    pub fn new_half() -> (r: Scalar)
        ensures
            r.bits == HALF_BITS,
            r.finite(),
            !r.sign(),
            r.units() == EXPONENT_UNIT * pow2(125),
            r.at_least_epsilon(),
    {
        proof {
            lemma_at_least_epsilon_by_magnitude(Scalar { bits: HALF_BITS });
        }
        Scalar { bits: HALF_BITS }
    }

    /// `1.0`: two to the power 149 units.
    pub fn new_one() -> (r: Scalar)
        ensures
            r.bits == ONE_BITS,
            r.finite(),
            !r.sign(),
            r.units() == EXPONENT_UNIT * pow2(126),
            r.at_least_epsilon(),
    {
        proof {
            lemma_at_least_epsilon_by_magnitude(Scalar { bits: ONE_BITS });
        }
        Scalar { bits: ONE_BITS }
    }

    /// Two to the power -23: two to the power 126 units.
    pub fn new_epsilon() -> (r: Scalar)
        ensures
            r.bits == EPSILON_BITS,
            r.finite(),
            !r.sign(),
            r.units() == Scalar::epsilon_units(),
            r.at_least_epsilon(),
    {
        proof {
            lemma_at_least_epsilon_by_magnitude(Scalar { bits: EPSILON_BITS });
        }
        Scalar { bits: EPSILON_BITS }
    }

    pub fn is_nan(&self) -> (r: bool)
        ensures
            r == self.nan(),
    {
        (self.bits / EXPONENT_UNIT) % 0x100 == EXPONENT_SPECIAL && self.bits % EXPONENT_UNIT != 0
    }

    pub fn is_finite(&self) -> (r: bool)
        ensures
            r == self.finite(),
    {
        (self.bits / EXPONENT_UNIT) % 0x100 != EXPONENT_SPECIAL
    }

    pub fn is_zero(&self) -> (r: bool)
        ensures
            r == self.zero(),
    {
        proof {
            lemma_magnitude_is_exponent_and_significand(*self);
            if self.finite() {
                lemma_units_bounds(*self);
            }
        }
        self.bits % SIGN_UNIT == 0
    }

    pub fn is_sign_negative(&self) -> (r: bool)
        ensures
            r == self.sign(),
    {
        self.bits >= SIGN_UNIT
    }

    /// Whether the number can serve as a timestep: finite and not below zero.
    pub fn is_timestep(&self) -> (r: bool)
        ensures
            r == self.timestep(),
    {
        self.is_finite() && (self.is_zero() || !self.is_sign_negative())
    }

    /// Clamps a length or a frequency to epsilon from below, so that no
    /// model divides by zero or by a negative number, and a NaN does not
    /// travel on.
    pub fn clamp_to_epsilon(self) -> (r: Scalar)
        ensures
            r == self.clamped(),
            r.at_least_epsilon(),
            self.at_least_epsilon() ==> r == self,
            !self.at_least_epsilon() ==> r.bits == EPSILON_BITS,
    {
        proof {
            lemma_at_least_epsilon_by_magnitude(self);
            lemma_at_least_epsilon_by_magnitude(Scalar { bits: EPSILON_BITS });
        }
        if !self.is_nan() && !self.is_sign_negative() && self.bits % SIGN_UNIT >= EPSILON_BITS {
            self
        } else {
            Scalar { bits: EPSILON_BITS }
        }
    }
}

/// A 2D vector of single-precision numbers.
#[derive(Clone, Copy, Debug, PartialEq, Eq, Structural)]
pub struct Vector2 {
    pub x: Scalar,
    pub y: Scalar,
}

impl Vector2 {
    /// Both components are finite.
    pub open spec fn finite(self) -> bool {
        self.x.finite() && self.y.finite()
    }

    pub fn new(x: Scalar, y: Scalar) -> (r: Vector2)
        ensures
            r.x == x,
            r.y == y,
    {
        Vector2 { x, y }
    }

    pub fn from_bits(x: u32, y: u32) -> (r: Vector2)
        ensures
            r.x.bits == x,
            r.y.bits == y,
    {
        Vector2 { x: Scalar { bits: x }, y: Scalar { bits: y } }
    }

    /// The vector `(0.0, 0.0)`.
    pub fn new_zero() -> (r: Vector2)
        ensures
            r.x.bits == ZERO_BITS,
            r.y.bits == ZERO_BITS,
            r.finite(),
    {
        Vector2 { x: Scalar { bits: ZERO_BITS }, y: Scalar { bits: ZERO_BITS } }
    }

    /// The vector `(1.0, 1.0)`.
    pub fn new_one() -> (r: Vector2)
        ensures
            r.x.bits == ONE_BITS,
            r.y.bits == ONE_BITS,
            r.finite(),
    {
        Vector2 { x: Scalar { bits: ONE_BITS }, y: Scalar { bits: ONE_BITS } }
    }

    pub fn is_finite(&self) -> (r: bool)
        ensures
            r == self.finite(),
    {
        self.x.is_finite() && self.y.is_finite()
    }
}

/// Every number is of exactly one class: finite, infinite or NaN.
pub proof fn lemma_classes_partition(s: Scalar)
    ensures
        s.finite() || s.infinite() || s.nan(),
        !(s.finite() && s.infinite()),
        !(s.finite() && s.nan()),
        !(s.infinite() && s.nan()),
{
}

/// The pattern without its sign is the exponent field followed by the
/// significand field.
pub proof fn lemma_magnitude_is_exponent_and_significand(s: Scalar)
    ensures
        s.magnitude() == s.exponent() * EXPONENT_UNIT + s.significand(),
        0 <= s.exponent() < 0x100,
        0 <= s.significand() < EXPONENT_UNIT,
{
}

/// The units of a number lie in the band of its exponent field: below two
/// to the power 23 doubled once for each step of the exponent, and, but for
/// the lowest band, no less than the top of the band below.
pub proof fn lemma_units_bounds(s: Scalar)
    requires
        s.finite(),
    ensures
        s.units() < EXPONENT_UNIT * pow2(s.exponent() as nat),
        s.exponent() >= 1 ==> s.units() >= EXPONENT_UNIT * pow2((s.exponent() - 1) as nat),
        s.exponent() >= 1 ==> s.units() >= EXPONENT_UNIT,
        s.exponent() == 0 ==> s.units() == s.significand(),
{
    let e = s.exponent();
    let m = s.significand();
    if e == 0 {
        lemma2_to64();
    } else {
        let p = pow2((e - 1) as nat);
        lemma_pow2_pos((e - 1) as nat);
        lemma_pow2_unfold(e as nat);
        assert((0x80_0000 + m) * p < 0x80_0000 * (2 * p) && (0x80_0000 + m) * p >= 0x80_0000 * p
            && 0x80_0000 * p >= 0x80_0000) by (nonlinear_arith)
            requires
                0 <= m < 0x80_0000,
                p > 0,
        ;
    }
}

/// Among finite numbers the order of the patterns without their signs is
/// the order of the absolute values.
pub proof fn lemma_units_follow_magnitude(a: Scalar, b: Scalar)
    requires
        a.finite(),
        b.finite(),
    ensures
        a.magnitude() <= b.magnitude() <==> a.units() <= b.units(),
        a.magnitude() == b.magnitude() <==> a.units() == b.units(),
{
    lemma_magnitude_is_exponent_and_significand(a);
    lemma_magnitude_is_exponent_and_significand(b);
    if a.exponent() == b.exponent() {
        if a.exponent() != 0 {
            let p = pow2((a.exponent() - 1) as nat);
            let ma = a.significand();
            let mb = b.significand();
            lemma_pow2_pos((a.exponent() - 1) as nat);
            assert((ma <= mb <==> (0x80_0000 + ma) * p <= (0x80_0000 + mb) * p) && (ma == mb <==> (
            0x80_0000 + ma) * p == (0x80_0000 + mb) * p)) by (nonlinear_arith)
                requires
                    p > 0,
                    ma >= 0,
                    mb >= 0,
            ;
        }
    } else if a.exponent() < b.exponent() {
        lemma_units_in_lower_band(a, b);
    } else {
        lemma_units_in_lower_band(b, a);
    }
}

/// A number with a smaller exponent field has fewer units.
proof fn lemma_units_in_lower_band(a: Scalar, b: Scalar)
    requires
        a.finite(),
        b.finite(),
        a.exponent() < b.exponent(),
    ensures
        a.units() < b.units(),
{
    lemma_units_bounds(a);
    lemma_units_bounds(b);
    let ea = a.exponent() as nat;
    let eb = (b.exponent() - 1) as nat;
    lemma_magnitude_is_exponent_and_significand(a);
    if ea < eb {
        lemma_pow2_strictly_increases(ea, eb);
    }
    assert(0x80_0000 * pow2(ea) <= 0x80_0000 * pow2(eb)) by (nonlinear_arith)
        requires
            pow2(ea) <= pow2(eb),
    ;
}

/// A number is at least epsilon exactly when it is not NaN, its sign bit is
/// clear, and its pattern is no less than that of epsilon.
pub proof fn lemma_at_least_epsilon_by_magnitude(s: Scalar)
    ensures
        s.at_least_epsilon() <==> !s.nan() && !s.sign() && s.magnitude() >= EPSILON_BITS,
{
    let epsilon = Scalar { bits: EPSILON_BITS };
    assert(epsilon.exponent() == 104 && epsilon.significand() == 0);
    assert(epsilon.units() == Scalar::epsilon_units());
    assert(epsilon.magnitude() == EPSILON_BITS);
    lemma_magnitude_is_exponent_and_significand(s);
    if s.finite() {
        lemma_units_follow_magnitude(s, epsilon);
    }
}

/// Clamping changes nothing the second time, and what it gives is never NaN,
/// zero or negative.
pub proof fn lemma_clamped_is_positive(s: Scalar)
    ensures
        s.clamped().clamped() == s.clamped(),
        s.clamped().at_least_epsilon(),
        !s.clamped().nan(),
        !s.clamped().zero(),
        !s.clamped().sign(),
{
    lemma_at_least_epsilon_by_magnitude(s);
    lemma_at_least_epsilon_by_magnitude(Scalar { bits: EPSILON_BITS });
    lemma_pow2_pos(103);
    assert(Scalar::epsilon_units() > 0) by (nonlinear_arith)
        requires
            Scalar::epsilon_units() == 0x80_0000 * pow2(103),
            pow2(103) > 0,
    ;
}

} // verus!
