//! IEEE-754 single-precision numbers, held by their bit patterns.
//!
//! A pattern has a sign bit, eight exponent bits and 23 fraction bits. Every
//! pattern that is not a NaN denotes a number, and every such number is a whole
//! multiple of 2^-149; `value` gives that multiple. The library compares such
//! numbers exactly, through their patterns.

use vstd::prelude::*;
use vstd::arithmetic::power2::*;

verus! {

/// The pattern of `+infinity`.
pub const INFINITY_BITS: u32 = 0x7f80_0000;

/// The pattern of `-infinity`.
pub const NEG_INFINITY_BITS: u32 = 0xff80_0000;

/// The pattern of `1.0`.
pub const ONE_BITS: u32 = 0x3f80_0000;

/// The pattern of `-1.0`.
pub const MINUS_ONE_BITS: u32 = 0xbf80_0000;

/// A single-precision number, as its 32 bits.
#[derive(Debug, Clone, Copy, PartialEq, Eq, Structural)]
pub struct Scalar {
    pub bits: u32,
}

impl Scalar {
    /// The pattern without its sign bit.
    pub open spec fn magnitude(self) -> nat {
        (self.bits % 0x8000_0000) as nat
    }

    /// The sign bit is set (true of `-0.0` too).
    pub open spec fn negative(self) -> bool {
        self.bits >= 0x8000_0000
    }

    /// The pattern denotes no number.
    pub open spec fn nan(self) -> bool {
        self.magnitude() > INFINITY_BITS
    }

    /// The biased exponent field.
    pub open spec fn exponent(self) -> nat {
        self.magnitude() / 0x80_0000
    }

    /// The fraction field.
    pub open spec fn fraction(self) -> nat {
        self.magnitude() % 0x80_0000
    }

    /// The absolute value, in units of 2^-149. An infinity counts as the
    /// power of two that follows the largest finite number.
    pub open spec fn abs_value(self) -> nat {
        if self.exponent() == 0 {
            self.fraction()
        } else {
            (0x80_0000 + self.fraction()) * pow2((self.exponent() - 1) as nat)
        }
    }

    /// The number denoted, in units of 2^-149. Both zeros denote 0.
    pub open spec fn value(self) -> int {
        if self.negative() {
            -(self.abs_value() as int)
        } else {
            self.abs_value() as int
        }
    }

    /// The pattern read as a sign and a magnitude. It orders the patterns as
    /// `value` orders the numbers (see `key_orders_value`).
    pub open spec fn key(self) -> int {
        if self.negative() {
            -(self.magnitude() as int)
        } else {
            self.magnitude() as int
        }
    }

    /// `self < other` as IEEE-754 defines it: false when either is a NaN.
    pub open spec fn less(self, other: Scalar) -> bool {
        !self.nan() && !other.nan() && self.value() < other.value()
    }

    /// The smaller of two numbers, a NaN being passed over. Of two equal
    /// numbers, the first.
    pub open spec fn min_of(self, other: Scalar) -> Scalar {
        if self.nan() {
            other
        } else if other.less(self) {
            other
        } else {
            self
        }
    }

    /// The larger of two numbers, a NaN being passed over. Of two equal
    /// numbers, the first.
    pub open spec fn max_of(self, other: Scalar) -> Scalar {
        if self.nan() {
            other
        } else if self.less(other) {
            other
        } else {
            self
        }
    }

    /// The number held between two bounds; a NaN stays what it is.
    pub open spec fn clamp_of(self, low: Scalar, high: Scalar) -> Scalar {
        if self.less(low) {
            low
        } else if high.less(self) {
            high
        } else {
            self
        }
    }

    /// The pattern with its sign bit cleared.
    pub open spec fn abs_of(self) -> Scalar {
        Scalar { bits: (self.bits % 0x8000_0000) as u32 }
    }

    pub fn from_bits(bits: u32) -> (s: Scalar)
        ensures
            s.bits == bits,
    {
        Scalar { bits }
    }

    pub fn to_bits(self) -> (bits: u32)
        ensures
            bits == self.bits,
    {
        self.bits
    }

    /// `+0.0`.
    pub fn zero() -> (s: Scalar)
        ensures
            s.bits == 0,
            !s.nan(),
            s.value() == 0,
    {
        Scalar { bits: 0 }
    }

    /// `+infinity`.
    pub fn infinity() -> (s: Scalar)
        ensures
            s.bits == INFINITY_BITS,
            !s.nan(),
            !s.negative(),
    {
        Scalar { bits: INFINITY_BITS }
    }

    pub fn is_nan(self) -> (r: bool)
        ensures
            r == self.nan(),
    {
        let bits: u32 = self.bits;
        assert(bits & 0x7fff_ffff == bits % 0x8000_0000) by (bit_vector);
        (self.bits & 0x7fff_ffff) > INFINITY_BITS
    }

    /// The sign-and-magnitude reading of the pattern.
    fn order_key(self) -> (k: i64)
        ensures
            k == self.key(),
    {
        let bits: u32 = self.bits;
        assert(bits & 0x7fff_ffff == bits % 0x8000_0000) by (bit_vector);
        assert((bits & 0x8000_0000 != 0) == (bits >= 0x8000_0000)) by (bit_vector);
        let magnitude: i64 = (self.bits & 0x7fff_ffff) as i64;
        if self.bits & 0x8000_0000 != 0 {
            -magnitude
        } else {
            magnitude
        }
    }

    /// `self < other`; false when either is a NaN.
    pub fn lt(self, other: Scalar) -> (r: bool)
        ensures
            r == self.less(other),
    {
        if self.is_nan() || other.is_nan() {
            return false;
        }
        proof {
            key_orders_value(self, other);
        }
        self.order_key() < other.order_key()
    }

    /// `self > other`; false when either is a NaN.
    pub fn gt(self, other: Scalar) -> (r: bool)
        ensures
            r == other.less(self),
    {
        other.lt(self)
    }

    /// The smaller of the two; where one is a NaN, the other.
    pub fn min(self, other: Scalar) -> (m: Scalar)
        ensures
            m == self.min_of(other),
    {
        if self.is_nan() {
            other
        } else if other.lt(self) {
            other
        } else {
            self
        }
    }

    /// The larger of the two; where one is a NaN, the other.
    pub fn max(self, other: Scalar) -> (m: Scalar)
        ensures
            m == self.max_of(other),
    {
        if self.is_nan() {
            other
        } else if self.lt(other) {
            other
        } else {
            self
        }
    }

    /// `low` where the number is below it, `high` where it is above, else the
    /// number itself; a NaN comes back unchanged.
    pub fn clamp(self, low: Scalar, high: Scalar) -> (c: Scalar)
        requires
            !low.nan(),
            !high.nan(),
            !high.less(low),
        ensures
            c == self.clamp_of(low, high),
            self.nan() ==> c == self,
            !self.nan() ==> !c.nan() && low.value() <= c.value() <= high.value(),
    {
        if self.lt(low) {
            low
        } else if self.gt(high) {
            high
        } else {
            self
        }
    }

    /// The absolute value: the same pattern with the sign bit cleared.
    pub fn abs(self) -> (m: Scalar)
        ensures
            m == self.abs_of(),
            !m.negative(),
            m.magnitude() == self.magnitude(),
            m.nan() == self.nan(),
            m.value() == self.abs_value(),
    {
        let bits: u32 = self.bits;
        assert(bits & 0x7fff_ffff == bits % 0x8000_0000) by (bit_vector);
        Scalar { bits: self.bits & 0x7fff_ffff }
    }
}

/// Among patterns with the same exponent field, the larger fraction denotes
/// the larger absolute value; a larger exponent field outweighs any fraction.
proof fn magnitude_step(a: Scalar, b: Scalar)
    requires
        a.magnitude() < b.magnitude(),
    ensures
        a.abs_value() < b.abs_value(),
{
    let ea = a.exponent();
    let eb = b.exponent();
    let fa = a.fraction();
    let fb = b.fraction();
    assert(a.magnitude() == ea * 0x80_0000 + fa);
    assert(b.magnitude() == eb * 0x80_0000 + fb);
    if ea == eb {
        if ea != 0 {
            let p = pow2((ea - 1) as nat);
            lemma_pow2_pos((ea - 1) as nat);
            assert((0x80_0000 + fa) * p < (0x80_0000 + fb) * p) by (nonlinear_arith)
                requires
                    fa < fb,
                    p > 0,
            ;
        }
    } else {
        assert(ea < eb);
        let pb = pow2((eb - 1) as nat);
        lemma_pow2_pos((eb - 1) as nat);
        assert(0x80_0000 * pb <= (0x80_0000 + fb) * pb) by (nonlinear_arith)
            requires
                fb >= 0,
                pb > 0,
        ;
        if ea == 0 {
            assert(0x80_0000 * 1 <= 0x80_0000 * pb) by (nonlinear_arith)
                requires
                    pb >= 1,
            ;
        } else {
            let pa = pow2((ea - 1) as nat);
            lemma_pow2_pos((ea - 1) as nat);
            lemma_pow2_unfold(ea);
            assert(pow2(ea) == 2 * pa);
            if ea < eb - 1 {
                lemma_pow2_strictly_increases(ea, (eb - 1) as nat);
            }
            assert(pow2(ea) <= pb);
            assert((0x80_0000 + fa) * pa < 0x80_0000 * (2 * pa)) by (nonlinear_arith)
                requires
                    fa < 0x80_0000,
                    pa > 0,
            ;
            assert(0x80_0000 * (2 * pa) <= 0x80_0000 * pb) by (nonlinear_arith)
                requires
                    2 * pa <= pb,
            ;
        }
    }
}

/// Patterns without their sign bits stand in the order of the absolute values
/// that they denote.
pub proof fn magnitude_orders_value(a: Scalar, b: Scalar)
    ensures
        a.magnitude() < b.magnitude() <==> a.abs_value() < b.abs_value(),
        a.magnitude() == b.magnitude() <==> a.abs_value() == b.abs_value(),
{
    if a.magnitude() < b.magnitude() {
        magnitude_step(a, b);
    } else if b.magnitude() < a.magnitude() {
        magnitude_step(b, a);
    }
}

/// Sign-and-magnitude keys stand in the order of the numbers denoted, and two
/// keys are equal exactly when the numbers are (the two zeros share key 0).
pub proof fn key_orders_value(a: Scalar, b: Scalar)
    ensures
        a.key() < b.key() <==> a.value() < b.value(),
        a.key() == b.key() <==> a.value() == b.value(),
{
    magnitude_orders_value(a, b);
    let zero = Scalar { bits: 0 };
    assert(zero.abs_value() == 0);
    assert(zero.magnitude() == 0);
    magnitude_orders_value(a, zero);
    magnitude_orders_value(b, zero);
}

/// `less` is a strict order on the numbers: nothing is below itself, and it
/// is transitive.
pub proof fn less_is_strict_order(a: Scalar, b: Scalar, c: Scalar)
    ensures
        !a.less(a),
        a.less(b) ==> !b.less(a),
        a.less(b) && b.less(c) ==> a.less(c),
{
}

/// Of two numbers exactly one holds: the first is below, the second is
/// below, or they are equal in value.
pub proof fn less_is_total(a: Scalar, b: Scalar)
    requires
        !a.nan(),
        !b.nan(),
    ensures
        a.less(b) || b.less(a) || a.value() == b.value(),
{
}

} // verus!
