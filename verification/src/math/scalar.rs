//! Binary64 numbers by their bit patterns.
//!
//! A binary64 value is a sign bit, eleven exponent bits and fifty-two fraction
//! bits.  Read as an integer without the sign bit, the remaining sixty-three
//! bits grow with the magnitude of the number, up to infinity; the patterns
//! above that of infinity are not numbers.  So a number that is not NaN has a
//! *rank*, its magnitude bits with the sign applied, and two numbers compare
//! as their ranks do.  The two zeros share rank zero and are equal.

use vstd::prelude::*;

verus! {

/// The bit that carries the sign.
pub const SIGN_BIT: u64 = 0x8000_0000_0000_0000;

/// Magnitude bits of infinity; any larger magnitude is not a number.
pub const INFINITY_BITS: u64 = 0x7FF0_0000_0000_0000;

/// Bits of the number one.
pub const ONE_BITS: u64 = 0x3FF0_0000_0000_0000;

/// Two to the power fifty-two: the magnitude bits are the exponent field
/// times this, plus the fraction field.
pub const FRACTION_SPAN: u64 = 0x0010_0000_0000_0000;

/// The exponent field of the number one.  A number whose exponent field `e`
/// lies from 1 to 2046 is `(FRACTION_SPAN + fraction) * 2^(e - 1075)`.
pub const EXPONENT_BIAS: u64 = 1023;

/// A binary64 number, held as its bit pattern.
#[derive(Clone, Copy, Debug)]
pub struct Scalar {
    pub bits: u64,
}

impl View for Scalar {
    type V = Option<int>;

    /// The rank of a number, and `None` for what is not a number.
    open spec fn view(&self) -> Option<int> {
        if self.is_nan_spec() {
            None
        } else {
            Some(self.rank())
        }
    }
}

impl Scalar {
    /// Whether the sign bit is set.
    pub open spec fn negative(self) -> bool {
        self.bits >= SIGN_BIT
    }

    /// The bits without the sign bit.
    pub open spec fn magnitude(self) -> int {
        if self.bits >= SIGN_BIT {
            self.bits - SIGN_BIT
        } else {
            self.bits as int
        }
    }

    /// The magnitude with the sign applied.
    pub open spec fn rank(self) -> int {
        if self.negative() {
            -self.magnitude()
        } else {
            self.magnitude()
        }
    }

    /// The eleven bits below the sign bit.
    pub open spec fn exponent_field(self) -> int {
        self.magnitude() / (FRACTION_SPAN as int)
    }

    /// The low fifty-two bits.
    pub open spec fn fraction_field(self) -> int {
        self.magnitude() % (FRACTION_SPAN as int)
    }

    pub open spec fn is_nan_spec(self) -> bool {
        self.magnitude() > INFINITY_BITS
    }

    /// The number of the same magnitude and the other sign.
    pub open spec fn neg_spec(self) -> Scalar {
        Scalar {
            bits: if self.bits >= SIGN_BIT {
                (self.bits - SIGN_BIT) as u64
            } else {
                (self.bits + SIGN_BIT) as u64
            },
        }
    }

    /// The number of the same magnitude with the sign bit clear.
    pub open spec fn abs_spec(self) -> Scalar {
        Scalar { bits: self.magnitude() as u64 }
    }

    /// `self < other` as binary64 numbers: false as soon as one is NaN.
    pub open spec fn lt_spec(self, other: Scalar) -> bool {
        &&& self@ matches Some(a)
        &&& other@ matches Some(b)
        &&& a < b
    }

    /// `self <= other` as binary64 numbers: false as soon as one is NaN.
    pub open spec fn le_spec(self, other: Scalar) -> bool {
        &&& self@ matches Some(a)
        &&& other@ matches Some(b)
        &&& a <= b
    }

    /// `self > other` as binary64 numbers.
    pub open spec fn gt_spec(self, other: Scalar) -> bool {
        other.lt_spec(self)
    }

    /// `self >= other` as binary64 numbers.
    pub open spec fn ge_spec(self, other: Scalar) -> bool {
        other.le_spec(self)
    }

    /// The number with these bits.
    pub fn from_bits(bits: u64) -> (r: Scalar)
        ensures
            r.bits == bits,
    {
        Scalar { bits }
    }

    /// The bits of this number.
    pub fn to_bits(self) -> (r: u64)
        ensures
            r == self.bits,
    {
        self.bits
    }

    /// Positive zero.
    pub fn zero() -> (r: Scalar)
        ensures
            r.bits == 0,
            r@ == Some(0int),
    {
        Scalar { bits: 0 }
    }

    /// The number one.
    pub fn one() -> (r: Scalar)
        ensures
            r.bits == ONE_BITS,
            r@ == Some(ONE_BITS as int),
    {
        Scalar { bits: ONE_BITS }
    }

    /// Positive infinity, above every other number.
    pub fn infinity() -> (r: Scalar)
        ensures
            r.bits == INFINITY_BITS,
            r@ == Some(INFINITY_BITS as int),
            forall|x: Scalar| x@ is Some ==> #[trigger] x.le_spec(r),
    {
        Scalar { bits: INFINITY_BITS }
    }

    /// The bits without the sign bit.
    fn magnitude_bits(self) -> (r: u64)
        ensures
            r == self.magnitude(),
            r < SIGN_BIT,
    {
        if self.bits >= SIGN_BIT {
            self.bits - SIGN_BIT
        } else {
            self.bits
        }
    }

    /// The rank moved up by two to the sixty-third, so that it fits a `u64`.
    fn key(self) -> (r: u64)
        ensures
            r == SIGN_BIT + self.rank(),
    {
        if self.bits >= SIGN_BIT {
            SIGN_BIT - (self.bits - SIGN_BIT)
        } else {
            SIGN_BIT + self.bits
        }
    }

    /// Whether this is not a number.
    pub fn is_nan(self) -> (r: bool)
        ensures
            r == self.is_nan_spec(),
            r == (self@ is None),
    {
        self.magnitude_bits() > INFINITY_BITS
    }

    /// `self < other`.
    pub fn lt(self, other: Scalar) -> (r: bool)
        ensures
            r == self.lt_spec(other),
    {
        !self.is_nan() && !other.is_nan() && self.key() < other.key()
    }

    /// `self <= other`.
    pub fn le(self, other: Scalar) -> (r: bool)
        ensures
            r == self.le_spec(other),
    {
        !self.is_nan() && !other.is_nan() && self.key() <= other.key()
    }

    /// `self > other`.
    pub fn gt(self, other: Scalar) -> (r: bool)
        ensures
            r == self.gt_spec(other),
    {
        other.lt(self)
    }

    /// `self >= other`.
    pub fn ge(self, other: Scalar) -> (r: bool)
        ensures
            r == self.ge_spec(other),
    {
        other.le(self)
    }

    /// The number of the same magnitude and the other sign.  NaN stays NaN,
    /// and the rank of a number changes sign.
    pub fn neg(self) -> (r: Scalar)
        ensures
            r == self.neg_spec(),
            r.magnitude() == self.magnitude(),
            r.negative() == !self.negative(),
            r@ == match self@ {
                Some(a) => Some(-a),
                None => None,
            },
    {
        if self.bits >= SIGN_BIT {
            Scalar { bits: self.bits - SIGN_BIT }
        } else {
            Scalar { bits: self.bits + SIGN_BIT }
        }
    }

    /// The number of the same magnitude with the sign bit clear.
    pub fn abs(self) -> (r: Scalar)
        ensures
            r == self.abs_spec(),
            r.magnitude() == self.magnitude(),
            !r.negative(),
            r@ == match self@ {
                Some(a) => Some(if a < 0 { -a } else { a }),
                None => None,
            },
    {
        Scalar { bits: self.magnitude_bits() }
    }
}

} // verus!
