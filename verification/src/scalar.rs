//! Real-valued animation parameters, held as IEEE 754 binary32 bit patterns.
//!
//! The renderer never does arithmetic on a level or a duration: it only asks
//! how two of them are ordered. Keeping the bit pattern makes that question
//! exact, and leaves every rounding operation to the caller.

use vstd::prelude::*;
use vstd::arithmetic::mul::lemma_mul_strict_inequality;
use vstd::arithmetic::mul::lemma_mul_inequality;
use vstd::arithmetic::power2::pow2;
use vstd::arithmetic::power2::lemma_pow2_pos;
use vstd::arithmetic::power2::lemma_pow2_unfold;
use vstd::arithmetic::power2::lemma_pow2_strictly_increases;
use vstd::arithmetic::power2::lemma_pow2_adds;
use vstd::arithmetic::power2::lemma2_to64;

verus! {

/// A binary32 number, kept by its bit pattern: one sign bit, eight exponent
/// bits, twenty-three mantissa bits.
///
/// Two scalars are equal when their patterns are. How the numbers compare is
/// a different question, answered by `lt`: the two zeros differ as scalars
/// and neither is below the other.
#[derive(Clone, Copy, Debug, PartialEq, Eq, Structural)]
pub struct Scalar {
    pub bits: u32,
}

impl Scalar {
    /// The biased exponent field.
    pub open spec fn exponent(self) -> nat {
        ((self.bits >> 23) & 0xff) as nat
    }

    /// The mantissa field, without the implicit leading bit.
    pub open spec fn mantissa(self) -> nat {
        (self.bits & 0x7f_ffff) as nat
    }

    /// Whether the sign bit is set.
    pub open spec fn negative(self) -> bool {
        self.bits >> 31 == 1
    }

    /// The pattern with the sign bit cleared.
    pub open spec fn pattern(self) -> u32 {
        self.bits & 0x7fff_ffff
    }

    /// Whether the pattern encodes no number at all.
    pub open spec fn nan(self) -> bool {
        self.exponent() == 255 && self.mantissa() != 0
    }

    /// The absolute value, counted in units of two to the power of -149, the
    /// smallest step a binary32 number can take. An infinity counts as the
    /// next power of two above every finite value.
    pub open spec fn magnitude(self) -> nat {
        if self.exponent() == 0 {
            self.mantissa()
        } else {
            (0x80_0000 + self.mantissa()) * pow2((self.exponent() - 1) as nat)
        }
    }

    /// The signed value in the same units; both zeros give 0.
    pub open spec fn scaled(self) -> int {
        if self.negative() {
            -(self.magnitude() as int)
        } else {
            self.magnitude() as int
        }
    }

    /// `self < other` as the numbers compare: false as soon as either side
    /// is not a number.
    pub open spec fn lt(self, other: Scalar) -> bool {
        !self.nan() && !other.nan() && self.scaled() < other.scaled()
    }

    /// The number zero.
    pub open spec fn spec_zero() -> Scalar {
        Scalar { bits: 0 }
    }

    /// The number one.
    pub open spec fn spec_one() -> Scalar {
        Scalar { bits: 0x3f80_0000 }
    }

    /// One half.
    pub open spec fn spec_half() -> Scalar {
        Scalar { bits: 0x3f00_0000 }
    }

    /// Below zero or above one. A pattern that is not a number is neither.
    pub open spec fn outside_unit(self) -> bool {
        self.lt(Scalar::spec_zero()) || Scalar::spec_one().lt(self)
    }

    /// The scalar with the given bit pattern.
    pub fn from_bits(bits: u32) -> (r: Scalar)
        ensures
            r.bits == bits,
    {
        Scalar { bits }
    }

    /// The bit pattern.
    pub fn to_bits(self) -> (r: u32)
        ensures
            r == self.bits,
    {
        self.bits
    }

    #[verifier::when_used_as_spec(spec_zero)]
    pub fn zero() -> (r: Scalar)
        ensures
            r == Scalar::spec_zero(),
    {
        Scalar { bits: 0 }
    }

    #[verifier::when_used_as_spec(spec_one)]
    pub fn one() -> (r: Scalar)
        ensures
            r == Scalar::spec_one(),
    {
        Scalar { bits: 0x3f80_0000 }
    }

    #[verifier::when_used_as_spec(spec_half)]
    pub fn half() -> (r: Scalar)
        ensures
            r == Scalar::spec_half(),
    {
        Scalar { bits: 0x3f00_0000 }
    }

    /// Whether the pattern encodes no number.
    pub fn is_nan(self) -> (r: bool)
        ensures
            r == self.nan(),
    {
        (self.bits >> 23) & 0xff == 255 && self.bits & 0x7f_ffff != 0
    }

    /// Whether `self` is strictly below `other`.
    pub fn less_than(self, other: Scalar) -> (r: bool)
        ensures
            r == self.lt(other),
    {
        if self.is_nan() || other.is_nan() {
            return false;
        }
        let a: u32 = self.bits & 0x7fff_ffff;
        let b: u32 = other.bits & 0x7fff_ffff;
        let a_negative = self.bits >> 31 == 1;
        let b_negative = other.bits >> 31 == 1;
        proof {
            lemma_magnitude_order(self, other);
            lemma_magnitude_order(other, self);
            lemma_magnitude_zero(self);
            lemma_magnitude_zero(other);
        }
        if a_negative {
            if b_negative {
                b < a
            } else {
                a != 0 || b != 0
            }
        } else {
            if b_negative {
                false
            } else {
                a < b
            }
        }
    }

    /// Whether the value lies below zero or above one.
    pub fn is_outside_unit(self) -> (r: bool)
        ensures
            r == self.outside_unit(),
    {
        self.less_than(Scalar::zero()) || Scalar::one().less_than(self)
    }
}

/// Splits a sign-free pattern into its exponent and mantissa fields.
proof fn lemma_pattern_fields(s: Scalar)
    ensures
        s.pattern() == s.exponent() * 0x80_0000 + s.mantissa(),
        s.mantissa() < 0x80_0000,
        s.exponent() <= 255,
{
    let v = s.bits;
    assert((v & 0x7fff_ffff) == ((v >> 23) & 0xff) * 0x80_0000 + (v & 0x7f_ffff)) by (bit_vector);
    assert((v & 0x7f_ffff) < 0x80_0000) by (bit_vector);
    assert(((v >> 23) & 0xff) <= 255) by (bit_vector);
}

/// Only the all-zero pattern has magnitude zero.
proof fn lemma_magnitude_zero(s: Scalar)
    ensures
        s.magnitude() == 0 <==> s.pattern() == 0,
{
    lemma_pattern_fields(s);
    if s.exponent() != 0 {
        let p = pow2((s.exponent() - 1) as nat);
        lemma_pow2_pos((s.exponent() - 1) as nat);
        lemma_mul_strict_inequality(0, (0x80_0000 + s.mantissa()) as int, p as int);
    }
}

/// Sign-free patterns are ordered as the magnitudes they encode.
proof fn lemma_magnitude_order(a: Scalar, b: Scalar)
    ensures
        a.pattern() < b.pattern() ==> a.magnitude() < b.magnitude(),
        a.pattern() == b.pattern() ==> a.magnitude() == b.magnitude(),
{
    lemma_pattern_fields(a);
    lemma_pattern_fields(b);
    let ea = a.exponent();
    let eb = b.exponent();
    let ma = a.mantissa() as int;
    let mb = b.mantissa() as int;
    if a.pattern() < b.pattern() {
        if ea == eb {
            if ea != 0 {
                let p = pow2((ea - 1) as nat) as int;
                lemma_pow2_pos((ea - 1) as nat);
                lemma_mul_strict_inequality(0x80_0000 + ma, 0x80_0000 + mb, p);
            }
        } else {
            assert(ea < eb);
            let q = pow2((eb - 1) as nat) as int;
            lemma_pow2_pos((eb - 1) as nat);
            lemma_mul_inequality(0x80_0000, 0x80_0000 + mb, q);
            assert(0x80_0000 * q <= b.magnitude());
            if ea == 0 {
                assert(0x80_0000 * 1 <= 0x80_0000 * q) by (nonlinear_arith)
                    requires
                        1 <= q,
                ;
            } else {
                let p = pow2((ea - 1) as nat) as int;
                lemma_pow2_pos((ea - 1) as nat);
                lemma_pow2_unfold(ea);
                lemma_mul_strict_inequality(0x80_0000 + ma, 0x100_0000, p);
                assert(a.magnitude() < 0x100_0000 * p);
                assert(0x100_0000 * p == 0x80_0000 * pow2(ea)) by (nonlinear_arith)
                    requires
                        pow2(ea) == 2 * p,
                ;
                if ea < eb - 1 {
                    lemma_pow2_strictly_increases(ea, (eb - 1) as nat);
                }
                assert(0x80_0000 * pow2(ea) <= 0x80_0000 * q) by (nonlinear_arith)
                    requires
                        pow2(ea) <= q,
                ;
            }
        }
    }
}

/// Zero, one half and one have the values their names say, in units of two
/// to the power of -149, and all three lie in the unit interval.
pub proof fn lemma_landmarks()
    ensures
        Scalar::spec_zero().scaled() == 0,
        Scalar::spec_half().scaled() == pow2(148),
        Scalar::spec_one().scaled() == pow2(149),
        !Scalar::spec_zero().nan() && !Scalar::spec_half().nan() && !Scalar::spec_one().nan(),
        !Scalar::spec_zero().outside_unit(),
        !Scalar::spec_half().outside_unit(),
        !Scalar::spec_one().outside_unit(),
        Scalar::spec_zero().lt(Scalar::spec_half()),
        Scalar::spec_half().lt(Scalar::spec_one()),
{
    assert((0u32 >> 31) == 0) by (bit_vector);
    assert(((0u32 >> 23) & 0xff) == 0) by (bit_vector);
    assert((0u32 & 0x7f_ffff) == 0) by (bit_vector);
    assert((0x3f00_0000u32 >> 31) == 0) by (bit_vector);
    assert(((0x3f00_0000u32 >> 23) & 0xff) == 126) by (bit_vector);
    assert((0x3f00_0000u32 & 0x7f_ffff) == 0) by (bit_vector);
    assert((0x3f80_0000u32 >> 31) == 0) by (bit_vector);
    assert(((0x3f80_0000u32 >> 23) & 0xff) == 127) by (bit_vector);
    assert((0x3f80_0000u32 & 0x7f_ffff) == 0) by (bit_vector);
    lemma2_to64();
    lemma_pow2_adds(23, 125);
    lemma_pow2_adds(23, 126);
    lemma_pow2_pos(148);
    lemma_pow2_strictly_increases(148, 149);
}

} // verus!
