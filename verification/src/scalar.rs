//! Single-precision numbers carried by their IEEE-754 bit pattern.
//!
//! The renderer's arithmetic is done by its caller; what this library decides
//! about a number is its sign, whether it is a number at all, and how it
//! orders against another. Those questions are answered here from the 32 bits
//! alone and proved against the exact value that the bits encode.
use vstd::prelude::*;
use vstd::arithmetic::power2::pow2;
use vstd::arithmetic::power2::lemma_pow2_pos;
use vstd::arithmetic::power2::lemma_pow2_strictly_increases;
use vstd::arithmetic::power2::lemma_pow2_unfold;

verus! {

/// The bit that carries the sign.
pub const SIGN_MASK: u32 = 0x8000_0000;

/// Bit pattern of one.
pub const ONE_BITS: u32 = 0x3f80_0000;

/// The low 31 bits of positive infinity; anything above is not a number.
pub const INFINITY_BITS: u32 = 0x7f80_0000;

/// The magnitude encoded by the low 31 bits `m`, counted in units of two to
/// the power -149 (the smallest subnormal), so that every finite value is an
/// integer. An infinity takes the first value beyond the finite ones.
pub open spec fn magnitude_of(m: int) -> int {
    if m / 0x0080_0000 == 0 {
        m
    } else {
        (0x0080_0000 + m % 0x0080_0000) * pow2((m / 0x0080_0000 - 1) as nat)
    }
}

/// A larger bit pattern encodes a larger magnitude.
pub proof fn lemma_magnitude_increases(a: int, b: int)
    requires
        0 <= a < b < 0x8000_0000,
    ensures
        0 <= magnitude_of(a) < magnitude_of(b),
{
    let s: int = 0x0080_0000;
    let ea = a / s;
    let fa = a % s;
    let eb = b / s;
    let fb = b % s;
    assert(ea <= eb);
    if eb == 0 {
    } else {
        let pb: int = pow2((eb - 1) as nat) as int;
        lemma_pow2_pos((eb - 1) as nat);
        assert((s + fb) * pb >= s * pb) by (nonlinear_arith)
            requires
                fb >= 0,
                pb >= 1,
                s >= 0,
        ;
        if ea == 0 {
            assert(s * pb >= s) by (nonlinear_arith)
                requires
                    pb >= 1,
                    s >= 0,
            ;
        } else if ea == eb {
            assert((s + fa) * pb < (s + fb) * pb) by (nonlinear_arith)
                requires
                    fa < fb,
                    pb >= 1,
            ;
            assert((s + fa) * pb >= 0) by (nonlinear_arith)
                requires
                    fa >= 0,
                    pb >= 1,
                    s >= 0,
            ;
        } else {
            let pa: int = pow2((ea - 1) as nat) as int;
            lemma_pow2_pos((ea - 1) as nat);
            lemma_pow2_unfold(ea as nat);
            assert(pow2(ea as nat) == 2 * pa);
            if ea < eb - 1 {
                lemma_pow2_strictly_increases(ea as nat, (eb - 1) as nat);
            }
            assert(2 * pa <= pb);
            assert((s + fa) * pa < s * (2 * pa)) by (nonlinear_arith)
                requires
                    0 <= fa < s,
                    pa >= 1,
            ;
            assert((s + fa) * pa >= 0) by (nonlinear_arith)
                requires
                    fa >= 0,
                    pa >= 1,
                    s >= 0,
            ;
            assert(s * (2 * pa) <= s * pb) by (nonlinear_arith)
                requires
                    2 * pa <= pb,
                    s >= 0,
            ;
        }
    }
}

/// A single-precision number, held as its bit pattern.
#[derive(Clone, Copy, Debug)]
pub struct Scalar {
    pub bits: u32,
}

impl Scalar {
    /// The low 31 bits: the pattern without its sign.
    pub open spec fn magnitude_bits(self) -> int {
        if self.bits >= SIGN_MASK {
            self.bits - SIGN_MASK
        } else {
            self.bits as int
        }
    }

    /// The sign bit is set. Holds of negative zero too.
    pub open spec fn spec_is_sign_negative(self) -> bool {
        self.bits >= SIGN_MASK
    }

    /// The pattern encodes no number.
    pub open spec fn spec_is_nan(self) -> bool {
        self.magnitude_bits() > INFINITY_BITS
    }

    /// The pattern encodes neither an infinity nor a missing number.
    pub open spec fn is_finite(self) -> bool {
        self.magnitude_bits() < INFINITY_BITS
    }

    /// The absolute value, in units of two to the power -149.
    pub open spec fn magnitude(self) -> int {
        magnitude_of(self.magnitude_bits())
    }

    /// The value, in units of two to the power -149. Both zeros have the
    /// value 0. Meaningful only where `spec_is_nan` is false.
    pub open spec fn value(self) -> int {
        if self.spec_is_sign_negative() {
            -self.magnitude()
        } else {
            self.magnitude()
        }
    }

    /// The integer that orders numbers as their values do.
    pub open spec fn key(self) -> int {
        if self.spec_is_sign_negative() {
            -self.magnitude_bits()
        } else {
            self.magnitude_bits()
        }
    }

    /// Both are numbers and the first is strictly below the second.
    pub open spec fn spec_lt(self, other: Scalar) -> bool {
        !self.spec_is_nan() && !other.spec_is_nan() && self.value() < other.value()
    }

    /// Both are numbers and the first is at most the second.
    pub open spec fn spec_le(self, other: Scalar) -> bool {
        !self.spec_is_nan() && !other.spec_is_nan() && self.value() <= other.value()
    }

    /// Both are numbers and the first is strictly above the second.
    pub open spec fn spec_gt(self, other: Scalar) -> bool {
        other.spec_lt(self)
    }

    /// Both are numbers and the first is at least the second.
    pub open spec fn spec_ge(self, other: Scalar) -> bool {
        other.spec_le(self)
    }

    /// The pattern with the sign bit flipped.
    pub open spec fn spec_neg(self) -> Scalar {
        if self.bits >= SIGN_MASK {
            Scalar { bits: (self.bits - SIGN_MASK) as u32 }
        } else {
            Scalar { bits: (self.bits + SIGN_MASK) as u32 }
        }
    }

    /// The pattern with the sign bit cleared.
    pub open spec fn spec_abs(self) -> Scalar {
        Scalar { bits: self.magnitude_bits() as u32 }
    }

    /// Keys compare as values do, whatever the two patterns are.
    pub proof fn lemma_key_orders(self, other: Scalar)
        ensures
            self.key() < other.key() <==> self.value() < other.value(),
            self.key() == other.key() <==> self.value() == other.value(),
    {
        let a = self.magnitude_bits();
        let b = other.magnitude_bits();
        if a < b {
            lemma_magnitude_increases(a, b);
        } else if b < a {
            lemma_magnitude_increases(b, a);
        }
        if 0 < a {
            lemma_magnitude_increases(0, a);
        }
        if 0 < b {
            lemma_magnitude_increases(0, b);
        }
        assert(magnitude_of(0) == 0);
    }

    /// The number with the given bit pattern.
    pub fn from_bits(bits: u32) -> (s: Scalar)
        ensures
            s.bits == bits,
    {
        Scalar { bits }
    }

    /// The bit pattern of the number.
    pub fn to_bits(self) -> (bits: u32)
        ensures
            bits == self.bits,
    {
        self.bits
    }

    /// Positive zero.
    pub fn zero() -> (s: Scalar)
        ensures
            s.bits == 0,
            !s.spec_is_nan(),
            s.value() == 0,
    {
        Scalar { bits: 0 }
    }

    /// One.
    pub fn one() -> (s: Scalar)
        ensures
            s.bits == ONE_BITS,
            !s.spec_is_nan(),
            s.value() == 0x0080_0000 * pow2(126),
    {
        Scalar { bits: ONE_BITS }
    }

    /// Positive infinity.
    pub fn infinity() -> (s: Scalar)
        ensures
            s.bits == INFINITY_BITS,
            !s.spec_is_nan(),
            !s.is_finite(),
            !s.spec_is_sign_negative(),
    {
        Scalar { bits: INFINITY_BITS }
    }

    fn low_bits(self) -> (m: u32)
        ensures
            m == self.magnitude_bits(),
    {
        if self.bits >= SIGN_MASK {
            self.bits - SIGN_MASK
        } else {
            self.bits
        }
    }

    fn ordering_key(self) -> (k: i64)
        ensures
            k == self.key(),
    {
        let m: u32 = self.low_bits();
        if self.bits >= SIGN_MASK {
            -(m as i64)
        } else {
            m as i64
        }
    }

    /// Whether the pattern encodes no number.
    #[verifier::when_used_as_spec(spec_is_nan)]
    pub fn is_nan(self) -> (r: bool)
        ensures
            r == self.spec_is_nan(),
    {
        self.low_bits() > INFINITY_BITS
    }

    /// Whether the sign bit is set.
    #[verifier::when_used_as_spec(spec_is_sign_negative)]
    pub fn is_sign_negative(self) -> (r: bool)
        ensures
            r == self.spec_is_sign_negative(),
    {
        self.bits >= SIGN_MASK
    }

    /// `self < other` as the numbers compare: false where either is not a
    /// number, and the two zeros are equal.
    #[verifier::when_used_as_spec(spec_lt)]
    pub fn lt(self, other: Scalar) -> (r: bool)
        ensures
            r == self.spec_lt(other),
            r == (!self.spec_is_nan() && !other.spec_is_nan() && self.key() < other.key()),
    {
        if self.is_nan() || other.is_nan() {
            return false;
        }
        proof {
            self.lemma_key_orders(other);
        }
        self.ordering_key() < other.ordering_key()
    }

    /// `self <= other` as the numbers compare.
    #[verifier::when_used_as_spec(spec_le)]
    pub fn le(self, other: Scalar) -> (r: bool)
        ensures
            r == self.spec_le(other),
            r == (!self.spec_is_nan() && !other.spec_is_nan() && self.key() <= other.key()),
    {
        if self.is_nan() || other.is_nan() {
            return false;
        }
        proof {
            self.lemma_key_orders(other);
        }
        self.ordering_key() <= other.ordering_key()
    }

    /// `self > other` as the numbers compare.
    #[verifier::when_used_as_spec(spec_gt)]
    pub fn gt(self, other: Scalar) -> (r: bool)
        ensures
            r == self.spec_gt(other),
    {
        other.lt(self)
    }

    /// `self >= other` as the numbers compare.
    #[verifier::when_used_as_spec(spec_ge)]
    pub fn ge(self, other: Scalar) -> (r: bool)
        ensures
            r == self.spec_ge(other),
    {
        other.le(self)
    }

    /// The number with the opposite sign: the same magnitude, the sign bit
    /// flipped. What is not a number stays so.
    #[verifier::when_used_as_spec(spec_neg)]
    pub fn neg(self) -> (r: Scalar)
        ensures
            r == self.spec_neg(),
            r.magnitude_bits() == self.magnitude_bits(),
            r.spec_is_sign_negative() == !self.spec_is_sign_negative(),
            r.spec_is_nan() == self.spec_is_nan(),
            r.value() == -self.value(),
    {
        if self.bits >= SIGN_MASK {
            Scalar { bits: self.bits - SIGN_MASK }
        } else {
            Scalar { bits: self.bits + SIGN_MASK }
        }
    }

    /// The absolute value: the same magnitude with the sign bit cleared.
    #[verifier::when_used_as_spec(spec_abs)]
    pub fn abs(self) -> (r: Scalar)
        ensures
            r == self.spec_abs(),
            !r.spec_is_sign_negative(),
            r.spec_is_nan() == self.spec_is_nan(),
            r.value() == self.magnitude(),
    {
        Scalar { bits: self.low_bits() }
    }

    /// The smaller of two numbers. Where one of them is not a number the
    /// other is returned; of two equal numbers, `self`.
    pub fn min(self, other: Scalar) -> (r: Scalar)
        ensures
            r == (if other.spec_lt(self) || self.spec_is_nan() {
                other
            } else {
                self
            }),
    {
        if other.lt(self) || self.is_nan() {
            other
        } else {
            self
        }
    }

    /// The larger of two numbers. Where one of them is not a number the
    /// other is returned; of two equal numbers, `self`.
    pub fn max(self, other: Scalar) -> (r: Scalar)
        ensures
            r == (if other.spec_gt(self) || self.spec_is_nan() {
                other
            } else {
                self
            }),
    {
        if other.gt(self) || self.is_nan() {
            other
        } else {
            self
        }
    }
}

impl Default for Scalar {
    /// Positive zero.
    fn default() -> (s: Scalar)
        ensures
            s.bits == 0,
    {
        Scalar { bits: 0 }
    }
}

} // verus!
