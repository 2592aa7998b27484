//! 32-bit IEEE-754 numbers, held by their bit patterns.

use vstd::prelude::*;

verus! {

/// Bit pattern of positive zero.
pub const ZERO_BITS: u32 = 0x0000_0000;

/// Bit pattern of one.
pub const ONE_BITS: u32 = 0x3f80_0000;

/// Bit pattern of positive infinity; every larger magnitude is a NaN.
pub const INFINITY_BITS: u32 = 0x7f80_0000;

/// The sign bit.
pub const SIGN_BIT: u32 = 0x8000_0000;

/// A binary32 number. Two scalars are equal when their bit patterns are.
#[derive(Clone, Copy, Debug, PartialEq, Eq, Structural)]
pub struct Scalar {
    pub bits: u32,
}

impl Scalar {
    /// The bit pattern without the sign.
    pub open spec fn magnitude(self) -> int {
        if self.bits < SIGN_BIT {
            self.bits as int
        } else {
            self.bits - SIGN_BIT
        }
    }

    /// Whether the sign bit is set.
    pub open spec fn is_negative(self) -> bool {
        self.bits >= SIGN_BIT
    }

    /// Whether the pattern encodes no number.
    pub open spec fn is_nan(self) -> bool {
        self.magnitude() > INFINITY_BITS
    }

    /// Position of the number on the line of integers: for two patterns that
    /// encode numbers, the one with the smaller rank encodes the smaller
    /// number, and both zeros have rank 0.
    pub open spec fn rank(self) -> int {
        if self.is_negative() {
            -self.magnitude()
        } else {
            self.magnitude()
        }
    }

    /// Numeric `self <= other`; false as soon as one side is a NaN.
    pub open spec fn le(self, other: Scalar) -> bool {
        !self.is_nan() && !other.is_nan() && self.rank() <= other.rank()
    }

    /// The larger of `self` and `floor`, where a NaN loses against a number
    /// and `self` wins a tie.
    pub open spec fn raised_to(self, floor: Scalar) -> Scalar {
        if self.is_nan() {
            floor
        } else if floor.is_nan() {
            self
        } else if self.rank() < floor.rank() {
            floor
        } else {
            self
        }
    }

    pub fn from_bits(bits: u32) -> (s: Scalar)
        ensures
            s.bits == bits,
    {
        Scalar { bits }
    }

    pub fn to_bits(self) -> (bits: u32)
        ensures
            bits == self.bits,
    {
        self.bits
    }

    pub fn check_nan(self) -> (nan: bool)
        ensures
            nan == self.is_nan(),
    {
        let magnitude: u32 = if self.bits < SIGN_BIT {
            self.bits
        } else {
            self.bits - SIGN_BIT
        };
        magnitude > INFINITY_BITS
    }

    fn signed_rank(self) -> (r: i64)
        ensures
            r == self.rank(),
    {
        if self.bits < SIGN_BIT {
            self.bits as i64
        } else {
            -((self.bits - SIGN_BIT) as i64)
        }
    }

    /// Clamps from below: `floor` where `self` is a NaN or smaller than
    /// `floor`, else `self`.
    pub fn at_least(self, floor: Scalar) -> (r: Scalar)
        ensures
            r == self.raised_to(floor),
    {
        if self.check_nan() {
            floor
        } else if floor.check_nan() {
            self
        } else if self.signed_rank() < floor.signed_rank() {
            floor
        } else {
            self
        }
    }
}

/// Clamping from below gives a number that is not below the floor, and
/// changes nothing that was already there.
pub proof fn lemma_raised_to_bounds(x: Scalar, floor: Scalar)
    requires
        !floor.is_nan(),
    ensures
        floor.le(x.raised_to(floor)),
        floor.le(x) ==> x.raised_to(floor) == x,
        !floor.le(x) ==> x.raised_to(floor) == floor,
{
}

} // verus!
