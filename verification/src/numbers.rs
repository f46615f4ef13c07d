//! Doubles held by their bit pattern.

use vstd::prelude::*;

verus! {

/// Bit pattern of `100.0` as an IEEE-754 double.
pub const HUNDRED_MAGNITUDE: u64 = 0x4059_0000_0000_0000;

/// Smallest magnitude that is no number: mantissa bits above the
/// all-ones exponent.
pub const INFINITY_MAGNITUDE: u64 = 0x7ff0_0000_0000_0000;

/// The sign bit of a double.
pub const SIGN_BIT: u64 = 0x8000_0000_0000_0000;

/// An IEEE-754 double held by its bit pattern.
///
/// Telemetry readings and thresholds travel through the library untouched;
/// the few comparisons the rules need are made on the bits.
#[derive(Clone, Copy, Debug, PartialEq, Eq, Structural)]
pub struct F64Bits {
    pub bits: u64,
}

impl F64Bits {
    /// True when the sign bit is set.
    pub open spec fn negative(self) -> bool {
        self.bits >= SIGN_BIT
    }

    /// The pattern with the sign bit cleared.
    pub open spec fn magnitude(self) -> int {
        if self.bits >= SIGN_BIT {
            self.bits - SIGN_BIT
        } else {
            self.bits as int
        }
    }

    /// True when the pattern encodes no number at all.
    pub open spec fn nan(self) -> bool {
        self.magnitude() > INFINITY_MAGNITUDE
    }

    /// Numeric `>` against `100.0`.
    pub open spec fn above_hundred(self) -> bool {
        !self.nan() && !self.negative() && self.magnitude() > HUNDRED_MAGNITUDE
    }

    /// Numeric `<` against `-100.0`.
    pub open spec fn below_minus_hundred(self) -> bool {
        !self.nan() && self.negative() && self.magnitude() > HUNDRED_MAGNITUDE
    }

    /// Numeric equality of two doubles: no number equals anything, the two
    /// zeros equal each other, every other value equals only itself.
    pub open spec fn same_number(self, other: F64Bits) -> bool {
        &&& !self.nan()
        &&& !other.nan()
        &&& (self.bits == other.bits || (self.magnitude() == 0 && other.magnitude() == 0))
    }

    pub fn new(bits: u64) -> (r: F64Bits)
        ensures
            r.bits == bits,
    {
        F64Bits { bits }
    }

    /// Positive zero.
    pub fn zero() -> (r: F64Bits)
        ensures
            r.bits == 0,
    {
        F64Bits { bits: 0 }
    }

    /// The bit pattern of the double that equals a whole number below 256:
    /// zero for zero, else the exponent of the highest bit of the number and,
    /// in the highest bits of the mantissa, the bits below it.
    pub open spec fn of_small(number: u8) -> u64 {
        if number == 0 {
            0
        } else if number < 2 {
            0x3ff0_0000_0000_0000
        } else if number < 4 {
            (0x4000_0000_0000_0000 + (number - 2) * 0x8_0000_0000_0000) as u64
        } else if number < 8 {
            (0x4010_0000_0000_0000 + (number - 4) * 0x4_0000_0000_0000) as u64
        } else if number < 16 {
            (0x4020_0000_0000_0000 + (number - 8) * 0x2_0000_0000_0000) as u64
        } else if number < 32 {
            (0x4030_0000_0000_0000 + (number - 16) * 0x1_0000_0000_0000) as u64
        } else if number < 64 {
            (0x4040_0000_0000_0000 + (number - 32) * 0x8000_0000_0000) as u64
        } else if number < 128 {
            (0x4050_0000_0000_0000 + (number - 64) * 0x4000_0000_0000) as u64
        } else {
            (0x4060_0000_0000_0000 + (number - 128) * 0x2000_0000_0000) as u64
        }
    }

    /// The double that equals a whole number below 256.
    pub fn from_u8(number: u8) -> (r: F64Bits)
        ensures
            r.bits == Self::of_small(number),
            !r.nan(),
            !r.negative(),
    {
        let n: u64 = number as u64;
        let bits: u64 = if number == 0 {
            0
        } else if number < 2 {
            0x3ff0_0000_0000_0000
        } else if number < 4 {
            0x4000_0000_0000_0000 + (n - 2) * 0x8_0000_0000_0000
        } else if number < 8 {
            0x4010_0000_0000_0000 + (n - 4) * 0x4_0000_0000_0000
        } else if number < 16 {
            0x4020_0000_0000_0000 + (n - 8) * 0x2_0000_0000_0000
        } else if number < 32 {
            0x4030_0000_0000_0000 + (n - 16) * 0x1_0000_0000_0000
        } else if number < 64 {
            0x4040_0000_0000_0000 + (n - 32) * 0x8000_0000_0000
        } else if number < 128 {
            0x4050_0000_0000_0000 + (n - 64) * 0x4000_0000_0000
        } else {
            0x4060_0000_0000_0000 + (n - 128) * 0x2000_0000_0000
        };
        F64Bits { bits }
    }

    pub fn is_negative(&self) -> (r: bool)
        ensures
            r == self.negative(),
    {
        self.bits >= SIGN_BIT
    }

    pub fn abs_bits(&self) -> (r: u64)
        ensures
            r as int == self.magnitude(),
    {
        if self.bits >= SIGN_BIT {
            self.bits - SIGN_BIT
        } else {
            self.bits
        }
    }

    pub fn is_nan(&self) -> (r: bool)
        ensures
            r == self.nan(),
    {
        self.abs_bits() > INFINITY_MAGNITUDE
    }

    pub fn is_above_hundred(&self) -> (r: bool)
        ensures
            r == self.above_hundred(),
    {
        !self.is_nan() && !self.is_negative() && self.abs_bits() > HUNDRED_MAGNITUDE
    }

    pub fn is_below_minus_hundred(&self) -> (r: bool)
        ensures
            r == self.below_minus_hundred(),
    {
        !self.is_nan() && self.is_negative() && self.abs_bits() > HUNDRED_MAGNITUDE
    }

    pub fn is_same_number(&self, other: &F64Bits) -> (r: bool)
        ensures
            r == self.same_number(*other),
    {
        if self.is_nan() || other.is_nan() {
            false
        } else {
            self.bits == other.bits || (self.abs_bits() == 0 && other.abs_bits() == 0)
        }
    }
}

/// Numeric equality of two optional doubles, as `==` on `Option<f64>`.
pub open spec fn same_optional_number(a: Option<F64Bits>, b: Option<F64Bits>) -> bool {
    match (a, b) {
        (Some(x), Some(y)) => x.same_number(y),
        (None, None) => true,
        _ => false,
    }
}

pub fn is_same_optional_number(a: &Option<F64Bits>, b: &Option<F64Bits>) -> (r: bool)
    ensures
        r == same_optional_number(*a, *b),
{
    match (a, b) {
        (Some(x), Some(y)) => x.is_same_number(y),
        (None, None) => true,
        _ => false,
    }
}

/// An optional double, or positive zero where there is none.
pub fn or_zero(value: &Option<F64Bits>) -> (r: F64Bits)
    ensures
        r == (match *value {
            Some(v) => v,
            None => (F64Bits { bits: 0 }),
        }),
{
    match value {
        Some(v) => *v,
        None => F64Bits::zero(),
    }
}

} // verus!
