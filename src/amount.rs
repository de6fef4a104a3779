use vstd::prelude::*;

verus! {

/// A transfer amount, held as the IEEE-754 binary64 bit pattern of the value.
#[derive(Debug, Clone, Copy)]
pub struct Amount {
    pub bits: u64,
}

/// The bits that hold the exponent of a binary64 value.
pub const EXPONENT_MASK: u64 = 0x7ff0_0000_0000_0000;

/// The bits that hold the significand of a binary64 value.
pub const FRACTION_MASK: u64 = 0x000f_ffff_ffff_ffff;

/// Every bit but the sign.
pub const MAGNITUDE_MASK: u64 = 0x7fff_ffff_ffff_ffff;

/// The bit pattern is a NaN: all exponent bits set and a non-zero significand.
pub open spec fn is_nan_bits(bits: u64) -> bool {
    bits & EXPONENT_MASK == EXPONENT_MASK && bits & FRACTION_MASK != 0
}

/// The bit pattern is `+0.0` or `-0.0`.
pub open spec fn is_zero_bits(bits: u64) -> bool {
    bits & MAGNITUDE_MASK == 0
}

/// Floating-point equality of two amounts: a NaN equals nothing, the two zeros
/// are equal, and otherwise equal values have equal bit patterns.
pub open spec fn same_amount(a: Amount, b: Amount) -> bool {
    &&& !is_nan_bits(a.bits)
    &&& !is_nan_bits(b.bits)
    &&& (a.bits == b.bits || (is_zero_bits(a.bits) && is_zero_bits(b.bits)))
}

impl Amount {
    pub fn from_bits(bits: u64) -> (r: Amount)
        ensures
            r.bits == bits,
    {
        Amount { bits }
    }

    pub fn to_bits(&self) -> (r: u64)
        ensures
            r == self.bits,
    {
        self.bits
    }

    /// Exact floating-point equality, with no tolerance.
    pub fn equals(&self, other: &Amount) -> (r: bool)
        ensures
            r == same_amount(*self, *other),
    {
        let a = self.bits;
        let b = other.bits;
        let a_nan = a & EXPONENT_MASK == EXPONENT_MASK && a & FRACTION_MASK != 0;
        let b_nan = b & EXPONENT_MASK == EXPONENT_MASK && b & FRACTION_MASK != 0;
        !a_nan && !b_nan && (a == b || (a & MAGNITUDE_MASK == 0 && b & MAGNITUDE_MASK == 0))
    }
}

} // verus!
