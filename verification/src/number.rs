//! Binary32 numbers, handled through their bit patterns.
//!
//! Sampling parameters, scores and embedding components are IEEE-754 binary32
//! numbers. The library never does arithmetic on them: it stores them, orders
//! them and copies them to and from the wire. All of that is defined on the
//! bit pattern, so a number is kept as the `u32` that encodes it.

use vstd::prelude::*;

verus! {

/// Bit pattern of the sign bit; every pattern at or above it has the sign set.
pub const SIGN_BIT: u32 = 0x8000_0000;

/// Magnitude of positive infinity; larger magnitudes are not numbers.
pub const INFINITY_MAGNITUDE: u32 = 0x7f80_0000;

/// Bit pattern of positive zero.
pub const ZERO_BITS: u32 = 0;

/// Bit pattern of the number 1.
pub const ONE_BITS: u32 = 0x3f80_0000;

/// Bit pattern of the number 2.
pub const TWO_BITS: u32 = 0x4000_0000;

/// An IEEE-754 binary32 number, held by its bit pattern.
#[derive(Clone, Copy, Debug)]
pub struct Float32 {
    /// Sign (1 bit), exponent (8 bits) and fraction (23 bits), most significant first.
    pub bits: u32,
}

impl Float32 {
    /// The pattern without its sign bit.
    pub open spec fn magnitude(self) -> int {
        self.bits as int % 0x8000_0000
    }

    /// The sign bit is set.
    pub open spec fn sign_negative(self) -> bool {
        self.bits >= 0x8000_0000
    }

    /// The pattern encodes no number.
    pub open spec fn is_nan_spec(self) -> bool {
        self.magnitude() > 0x7f80_0000
    }

    /// Position of a number on the line: numerically smaller numbers have a
    /// smaller rank, and the two zeros share rank 0. Meaningless for a NaN.
    pub open spec fn rank(self) -> int {
        if self.sign_negative() {
            -self.magnitude()
        } else {
            self.magnitude()
        }
    }

    /// Numeric `<`: false as soon as either side is a NaN.
    pub open spec fn lt_spec(self, other: Float32) -> bool {
        !self.is_nan_spec() && !other.is_nan_spec() && self.rank() < other.rank()
    }

    /// Numeric `<=`: false as soon as either side is a NaN.
    pub open spec fn le_spec(self, other: Float32) -> bool {
        !self.is_nan_spec() && !other.is_nan_spec() && self.rank() <= other.rank()
    }

    /// `self` restricted to `[min, max]`: a number below `min` becomes `min`,
    /// one above `max` becomes `max`, anything else (a NaN too) stays.
    pub open spec fn clamp_spec(self, min: Float32, max: Float32) -> Float32 {
        if self.lt_spec(min) {
            min
        } else if max.lt_spec(self) {
            max
        } else {
            self
        }
    }

    /// The number with the given bit pattern.
    pub fn from_bits(bits: u32) -> (number: Float32)
        ensures
            number.bits == bits,
    {
        Float32 { bits }
    }

    /// The bit pattern of the number.
    pub fn to_bits(self) -> (bits: u32)
        ensures
            bits == self.bits,
    {
        self.bits
    }

    /// Positive zero.
    pub fn zero() -> (number: Float32)
        ensures
            number == (Float32 { bits: ZERO_BITS }),
    {
        Float32 { bits: ZERO_BITS }
    }

    /// The number 1.
    pub fn one() -> (number: Float32)
        ensures
            number == (Float32 { bits: ONE_BITS }),
    {
        Float32 { bits: ONE_BITS }
    }

    /// The number 2.
    pub fn two() -> (number: Float32)
        ensures
            number == (Float32 { bits: TWO_BITS }),
    {
        Float32 { bits: TWO_BITS }
    }

    /// Whether the pattern encodes no number.
    pub fn is_nan(self) -> (nan: bool)
        ensures
            nan == self.is_nan_spec(),
    {
        self.bits % SIGN_BIT > INFINITY_MAGNITUDE
    }

    /// Numeric `<`.
    pub fn lt(self, other: Float32) -> (less: bool)
        ensures
            less == self.lt_spec(other),
    {
        if self.is_nan() || other.is_nan() {
            return false;
        }
        let a: u32 = self.bits % SIGN_BIT;
        let b: u32 = other.bits % SIGN_BIT;
        if self.bits >= SIGN_BIT {
            if other.bits >= SIGN_BIT {
                b < a
            } else {
                a > 0 || b > 0
            }
        } else {
            if other.bits >= SIGN_BIT {
                false
            } else {
                a < b
            }
        }
    }

    /// Restricts the number to `[min, max]`. A NaN is returned unchanged.
    pub fn clamp(self, min: Float32, max: Float32) -> (clamped: Float32)
        requires
            min.le_spec(max),
        ensures
            clamped == self.clamp_spec(min, max),
    {
        if self.lt(min) {
            min
        } else if max.lt(self) {
            max
        } else {
            self
        }
    }
}

/// A clamped number lies in the interval, unless it is a NaN.
pub proof fn lemma_clamp_in_range(x: Float32, min: Float32, max: Float32)
    requires
        min.le_spec(max),
        !x.is_nan_spec(),
    ensures
        min.le_spec(x.clamp_spec(min, max)),
        x.clamp_spec(min, max).le_spec(max),
{
}

/// Clamping twice is clamping once.
pub proof fn lemma_clamp_idempotent(x: Float32, min: Float32, max: Float32)
    requires
        min.le_spec(max),
    ensures
        x.clamp_spec(min, max).clamp_spec(min, max) == x.clamp_spec(min, max),
{
}

/// The `i32` with the same 32 bits as the given `u32`.
pub open spec fn reinterpret_u32_as_i32(value: u32) -> i32 {
    if value <= i32::MAX {
        value as i32
    } else {
        (value - 0x1_0000_0000) as i32
    }
}

/// The `u32` with the same 32 bits as the given `i32`.
pub open spec fn reinterpret_i32_as_u32(value: i32) -> u32 {
    if value >= 0 {
        value as u32
    } else {
        (value + 0x1_0000_0000) as u32
    }
}

/// The `usize` that a position sent as an `i32` stands for: the value
/// itself, or for a negative value the `usize` that it wraps around to.
pub open spec fn reinterpret_i32_as_usize(value: i32) -> usize {
    if value >= 0 {
        value as usize
    } else {
        (usize::MAX + 1 + value) as usize
    }
}

/// Converts to `i32`, keeping the bits.
pub fn u32_as_i32(value: u32) -> (result: i32)
    ensures
        result == reinterpret_u32_as_i32(value),
{
    if value <= 0x7fff_ffff {
        value as i32
    } else {
        ((value as i64) - 0x1_0000_0000) as i32
    }
}

/// Converts to `u32`, keeping the bits.
pub fn i32_as_u32(value: i32) -> (result: u32)
    ensures
        result == reinterpret_i32_as_u32(value),
{
    if value >= 0 {
        value as u32
    } else {
        ((value as i64) + 0x1_0000_0000) as u32
    }
}

/// Converts to `usize`, wrapping a negative value around.
pub fn i32_as_usize(value: i32) -> (result: usize)
    ensures
        result == reinterpret_i32_as_usize(value),
{
    if value >= 0 {
        value as usize
    } else {
        let below: usize = (-((value as i64) + 1)) as usize;
        usize::MAX - below
    }
}

} // verus!
