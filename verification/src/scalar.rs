//! Floating-point numbers by their IEEE 754 bit patterns.
//!
//! Coordinates and scales pass through the library without any arithmetic on
//! them; they are only compared.  Held as bits, a comparison is a statement
//! about integers.

use vstd::prelude::*;

verus! {

/// A 32-bit floating-point number, as `f32::to_bits` gives it.
#[derive(Clone, Copy, Debug)]
pub struct Real32 {
    pub bits: u32,
}

/// A 64-bit floating-point number, as `f64::to_bits` gives it.
#[derive(Clone, Copy, Debug, PartialEq, Eq, Structural)]
pub struct Real64 {
    pub bits: u64,
}

/// The bit pattern of positive infinity; a larger magnitude is not a number.
pub const INFINITY_BITS: u32 = 0x7f80_0000;

/// The weight of the sign bit.
pub const SIGN_BIT: u32 = 0x8000_0000;

impl Real32 {
    /// The bit pattern without its sign.
    pub open spec fn magnitude(self) -> int {
        if self.bits < SIGN_BIT {
            self.bits as int
        } else {
            self.bits - SIGN_BIT
        }
    }

    /// Whether this is not a number.
    pub open spec fn is_nan(self) -> bool {
        self.magnitude() > INFINITY_BITS
    }

    /// An integer that is ordered as the numbers are; both zeros have rank 0.
    pub open spec fn rank(self) -> int {
        if self.bits < SIGN_BIT {
            self.magnitude()
        } else {
            -self.magnitude()
        }
    }

    /// Whether two numbers are equal; nothing that is not a number is equal to
    /// anything, and the two zeros are equal.
    pub open spec fn equals(self, other: Real32) -> bool {
        !self.is_nan() && !other.is_nan() && self.rank() == other.rank()
    }

    /// The number from its bits.
    pub fn from_bits(bits: u32) -> (result: Real32)
        ensures
            result.bits == bits,
    {
        Real32 { bits }
    }

    fn exec_rank(self) -> (result: i64)
        ensures
            result == self.rank(),
    {
        if self.bits < SIGN_BIT {
            self.bits as i64
        } else {
            -((self.bits - SIGN_BIT) as i64)
        }
    }

    /// Whether this is not a number.
    pub fn not_a_number(self) -> (result: bool)
        ensures
            result == self.is_nan(),
    {
        if self.bits < SIGN_BIT {
            self.bits > INFINITY_BITS
        } else {
            self.bits - SIGN_BIT > INFINITY_BITS
        }
    }

    /// Whether this is neither infinite nor not a number.
    pub fn is_finite(self) -> (result: bool)
        ensures
            result == (self.magnitude() < INFINITY_BITS),
    {
        if self.bits < SIGN_BIT {
            self.bits < INFINITY_BITS
        } else {
            self.bits - SIGN_BIT < INFINITY_BITS
        }
    }

    /// Whether this is at most `other`; nothing that is not a number compares.
    pub open spec fn not_above(self, other: Real32) -> bool {
        !self.is_nan() && !other.is_nan() && self.rank() <= other.rank()
    }

    /// Whether this is at most `other`; nothing that is not a number compares.
    pub fn at_most(self, other: Real32) -> (result: bool)
        ensures
            result == self.not_above(other),
    {
        !self.not_a_number() && !other.not_a_number() && self.exec_rank() <= other.exec_rank()
    }
}

impl PartialEq for Real32 {
    fn eq(&self, other: &Real32) -> (result: bool) {
        !self.not_a_number() && !other.not_a_number() && self.exec_rank() == other.exec_rank()
    }
}

impl vstd::std_specs::cmp::PartialEqSpecImpl for Real32 {
    open spec fn obeys_eq_spec() -> bool {
        true
    }

    open spec fn eq_spec(&self, other: &Real32) -> bool {
        self.equals(*other)
    }
}

/// Numbers compare as their bit patterns tell: two that are not negative as
/// their patterns do, two negative ones the other way round, and a negative one
/// is below any other.  The two zeros are equal, and what is not a number
/// compares with nothing.
pub proof fn bits_tell_the_order(a: Real32, b: Real32)
    ensures
        a.is_nan() <==> 0x7f80_0000 < a.bits < 0x8000_0000 || a.bits > 0xff80_0000,
        a.magnitude() < INFINITY_BITS <==> a.bits < 0x7f80_0000 || 0x8000_0000 <= a.bits
            < 0xff80_0000,
        a.is_nan() || b.is_nan() ==> !a.not_above(b) && !a.equals(b),
        !a.is_nan() && !b.is_nan() ==> {
            &&& a.bits < 0x8000_0000 && b.bits < 0x8000_0000 ==> (a.not_above(b) <==> a.bits
                <= b.bits)
            &&& a.bits >= 0x8000_0000 && b.bits >= 0x8000_0000 ==> (a.not_above(b) <==> a.bits
                >= b.bits)
            &&& a.bits >= 0x8000_0000 && b.bits < 0x8000_0000 ==> a.not_above(b)
            &&& a.bits < 0x8000_0000 && b.bits >= 0x8000_0000 ==> (a.not_above(b) <==> a.bits == 0
                && b.bits == 0x8000_0000)
            &&& a.equals(b) <==> a.not_above(b) && b.not_above(a)
            &&& a.not_above(b) <==> a.rank() <= b.rank()
        },
{
}

} // verus!
