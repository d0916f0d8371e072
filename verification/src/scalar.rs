//! Scalars as IEEE-754 binary32 bit patterns.
//!
//! The renderer this library serves works in single-precision floating point,
//! which verified code cannot compute with. A [`Scalar`] therefore carries the
//! exact bit pattern of a binary32 value, as `f32::to_bits` yields it; the
//! library never rounds or re-encodes one, so every scalar handed in comes
//! back bit for bit. The one operation the camera logic itself needs is the
//! IEEE-754 comparison, and that is defined here over the bit pattern: a NaN
//! compares with nothing, the two zeros compare equal, and every other pair
//! orders by sign and magnitude.

use vstd::prelude::*;

verus! {

/// Mask of the sign bit of a binary32 bit pattern.
pub const SIGN_MASK: u32 = 0x8000_0000;

/// Mask of the exponent and mantissa of a binary32 bit pattern.
pub const MAGNITUDE_MASK: u32 = 0x7FFF_FFFF;

/// The magnitude of an infinity: exponent all ones, mantissa zero. A larger
/// magnitude is a NaN.
pub const INFINITY_BITS: u32 = 0x7F80_0000;

/// The exact bit pattern of an IEEE-754 binary32 value.
#[derive(Clone, Copy, Debug, PartialEq, Eq, Structural)]
pub struct Scalar {
    /// The raw bits, as `f32::to_bits` yields them.
    pub bits: u32,
}

impl Scalar {
    /// The bit pattern of positive zero.
    pub open spec fn spec_zero() -> Scalar {
        Scalar { bits: 0 }
    }

    /// Whether the bits encode a NaN: exponent all ones and a non-zero
    /// mantissa.
    pub open spec fn spec_is_nan(self) -> bool {
        self.bits & MAGNITUDE_MASK > INFINITY_BITS
    }

    /// Where the encoded value stands on the number line: magnitude, negated
    /// when the sign bit is set. Both zeros map to the same key, so they
    /// compare equal, as IEEE-754 asks.
    pub open spec fn spec_order_key(self) -> int {
        if self.bits >= SIGN_MASK {
            -((self.bits & MAGNITUDE_MASK) as int)
        } else {
            self.bits as int
        }
    }

    /// IEEE-754 `<`: false whenever either side is a NaN, the order of the
    /// encoded values otherwise.
    pub open spec fn spec_lt(self, other: Scalar) -> bool {
        &&& !self.spec_is_nan()
        &&& !other.spec_is_nan()
        &&& self.spec_order_key() < other.spec_order_key()
    }

    /// IEEE-754 `<=`: false whenever either side is a NaN.
    pub open spec fn spec_le(self, other: Scalar) -> bool {
        &&& !self.spec_is_nan()
        &&& !other.spec_is_nan()
        &&& self.spec_order_key() <= other.spec_order_key()
    }

    /// Positive zero.
    pub fn zero() -> (r: Scalar)
        ensures
            r == Scalar::spec_zero(),
    {
        Scalar { bits: 0 }
    }

    /// Whether the bits encode a NaN.
    pub fn is_nan(self) -> (r: bool)
        ensures
            r == self.spec_is_nan(),
    {
        (self.bits & MAGNITUDE_MASK) > INFINITY_BITS
    }

    fn order_key(self) -> (key: i64)
        ensures
            key as int == self.spec_order_key(),
    {
        let magnitude: u32 = self.bits & MAGNITUDE_MASK;
        if self.bits >= SIGN_MASK {
            -(magnitude as i64)
        } else {
            self.bits as i64
        }
    }

    /// IEEE-754 `<` on the encoded values.
    pub fn lt(self, other: Scalar) -> (r: bool)
        ensures
            r == self.spec_lt(other),
    {
        if self.is_nan() || other.is_nan() {
            false
        } else {
            self.order_key() < other.order_key()
        }
    }

    /// IEEE-754 `<=` on the encoded values.
    pub fn le(self, other: Scalar) -> (r: bool)
        ensures
            r == self.spec_le(other),
    {
        if self.is_nan() || other.is_nan() {
            false
        } else {
            self.order_key() <= other.order_key()
        }
    }
}

} // verus!
