//! Binary64 values carried as their IEEE 754 bit patterns, with the two
//! comparisons that the orchestration logic needs: equality and `> 0`.
use vstd::prelude::*;

verus! {

/// Bit pattern of the largest magnitude that is not a NaN (positive infinity).
pub const INFINITY_BITS: u64 = 0x7FF0_0000_0000_0000;

/// Weight of the sign bit.
pub const SIGN_BIT: u64 = 0x8000_0000_0000_0000;

/// A binary64 number, held as its bit pattern.
#[derive(Clone, Copy, Debug, PartialEq, Eq, Structural)]
pub struct Double {
    pub bits: u64,
}

/// The bit pattern without its sign.
pub open spec fn magnitude(bits: u64) -> int {
    bits as int % SIGN_BIT as int
}

/// The sign bit is set.
pub open spec fn is_negative_bits(bits: u64) -> bool {
    bits >= SIGN_BIT
}

/// The pattern encodes a NaN.
pub open spec fn is_nan_bits(bits: u64) -> bool {
    magnitude(bits) > INFINITY_BITS as int
}

/// IEEE 754 equality: NaN equals nothing, and the two zeros are equal.
pub open spec fn ieee_eq(a: u64, b: u64) -> bool {
    &&& !is_nan_bits(a)
    &&& !is_nan_bits(b)
    &&& (a == b || (magnitude(a) == 0 && magnitude(b) == 0))
}

/// IEEE 754 comparison `x > 0`.
pub open spec fn ieee_positive(bits: u64) -> bool {
    !is_nan_bits(bits) && !is_negative_bits(bits) && magnitude(bits) > 0
}

impl Double {
    pub open spec fn is_nan(self) -> bool {
        is_nan_bits(self.bits)
    }

    pub open spec fn same_as(self, other: Double) -> bool {
        ieee_eq(self.bits, other.bits)
    }

    pub open spec fn positive(self) -> bool {
        ieee_positive(self.bits)
    }

    pub fn from_bits(bits: u64) -> (r: Double)
        ensures
            r.bits == bits,
    {
        Double { bits }
    }

    /// Whether the value is a NaN.
    pub fn nan(&self) -> (r: bool)
        ensures
            r == self.is_nan(),
    {
        self.bits % SIGN_BIT > INFINITY_BITS
    }

    /// `self == other` as binary64 numbers compare.
    pub fn equals(&self, other: &Double) -> (r: bool)
        ensures
            r == self.same_as(*other),
    {
        let ma = self.bits % SIGN_BIT;
        let mb = other.bits % SIGN_BIT;
        if ma > INFINITY_BITS || mb > INFINITY_BITS {
            false
        } else {
            self.bits == other.bits || (ma == 0 && mb == 0)
        }
    }

    /// `self > 0` as binary64 numbers compare.
    pub fn is_positive(&self) -> (r: bool)
        ensures
            r == self.positive(),
    {
        let m = self.bits % SIGN_BIT;
        self.bits < SIGN_BIT && m > 0 && m <= INFINITY_BITS
    }
}

} // verus!
