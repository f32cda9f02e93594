use vstd::prelude::*;

verus! {

/// Bit pattern of the sign of a single-precision value.
pub const SIGN_BIT: u32 = 0x8000_0000;

/// Bit pattern of positive infinity; larger magnitudes are NaNs.
pub const INFINITY_BITS: u32 = 0x7f80_0000;

/// The magnitude bits (everything but the sign) of a single-precision pattern.
pub open spec fn magnitude(bits: u32) -> int {
    (bits % SIGN_BIT) as int
}

/// The sign bit is set.
pub open spec fn sign_set(bits: u32) -> bool {
    bits >= SIGN_BIT
}

/// The pattern encodes a NaN: all exponent bits set and a nonzero fraction.
pub open spec fn is_nan(bits: u32) -> bool {
    magnitude(bits) > INFINITY_BITS as int
}

/// For patterns that are not NaN, IEEE-754 orders values exactly as this key:
/// the magnitude bits grow with the value, and the sign mirrors them.
/// Both zeros get key 0.
pub open spec fn order_key(bits: u32) -> int {
    if sign_set(bits) {
        -magnitude(bits)
    } else {
        magnitude(bits)
    }
}

/// IEEE-754 `a < b`: false whenever either side is NaN.
pub open spec fn less_than(a: u32, b: u32) -> bool {
    !is_nan(a) && !is_nan(b) && order_key(a) < order_key(b)
}

/// IEEE-754 `a == 0.0`: true of both signed zeros.
pub open spec fn is_zero(bits: u32) -> bool {
    magnitude(bits) == 0
}

/// A single-precision floating-point value, held as its IEEE-754 bit pattern.
#[derive(Clone, Copy, Debug)]
pub struct Reading {
    pub bits: u32,
}

impl Reading {
    /// Wraps a bit pattern, as produced by `f32::to_bits`.
    pub fn from_bits(bits: u32) -> (r: Reading)
        ensures
            r.bits == bits,
    {
        Reading { bits }
    }

    /// The bit pattern, as consumed by `f32::from_bits`.
    pub fn to_bits(&self) -> (r: u32)
        ensures
            r == self.bits,
    {
        self.bits
    }

    /// Positive zero.
    pub fn zero() -> (r: Reading)
        ensures
            r.bits == 0,
            is_zero(r.bits),
    {
        Reading { bits: 0 }
    }

    /// The value 1.0.
    pub fn one() -> (r: Reading)
        ensures
            r.bits == 0x3f80_0000,
    {
        Reading { bits: 0x3f80_0000 }
    }

    /// The order key of a pattern that is not NaN, computed exactly.
    fn key(&self) -> (r: i64)
        ensures
            r as int == order_key(self.bits),
    {
        if self.bits >= SIGN_BIT {
            -((self.bits - SIGN_BIT) as i64)
        } else {
            self.bits as i64
        }
    }

    /// NaN test on the bits.
    pub fn is_nan(&self) -> (r: bool)
        ensures
            r == is_nan(self.bits),
    {
        let m: u32 = if self.bits >= SIGN_BIT { self.bits - SIGN_BIT } else { self.bits };
        m > INFINITY_BITS
    }

    /// `self < other` as IEEE-754 compares.
    pub fn lt(&self, other: &Reading) -> (r: bool)
        ensures
            r == less_than(self.bits, other.bits),
    {
        !self.is_nan() && !other.is_nan() && self.key() < other.key()
    }

    /// `self > other` as IEEE-754 compares.
    pub fn gt(&self, other: &Reading) -> (r: bool)
        ensures
            r == less_than(other.bits, self.bits),
    {
        other.lt(self)
    }

    /// `self == 0.0` as IEEE-754 compares.
    pub fn is_zero(&self) -> (r: bool)
        ensures
            r == is_zero(self.bits),
    {
        self.bits == 0 || self.bits == SIGN_BIT
    }

    /// The absolute value: the same pattern with the sign bit cleared.
    pub fn abs(&self) -> (r: Reading)
        ensures
            r.bits as int == magnitude(self.bits),
            !sign_set(r.bits),
            is_nan(r.bits) == is_nan(self.bits),
    {
        if self.bits >= SIGN_BIT {
            Reading { bits: self.bits - SIGN_BIT }
        } else {
            Reading { bits: self.bits }
        }
    }
}

} // verus!
