use vstd::prelude::*;

verus! {

/// A 32-bit IEEE 754 binary floating-point datum, held as its bit pattern.
#[derive(Debug, Clone, Copy, PartialEq, Eq, Structural)]
pub struct Binary32 {
    pub bits: u32,
}

/// A 64-bit IEEE 754 binary floating-point datum, held as its bit pattern.
#[derive(Debug, Clone, Copy, PartialEq, Eq, Structural)]
pub struct Binary64 {
    pub bits: u64,
}

impl Binary32 {
    /// Not-a-number: the exponent is all ones and the fraction is not zero.
    /// With the sign bit cleared, that is every pattern above infinity's.
    pub open spec fn spec_is_nan(self) -> bool {
        self.bits % 0x8000_0000 > 0x7f80_0000
    }

    /// The datum with the given bit pattern.
    pub fn from_bits(bits: u32) -> (r: Binary32)
        ensures
            r.bits == bits,
    {
        Binary32 { bits }
    }

    /// The bit pattern of the datum.
    pub fn to_bits(self) -> (bits: u32)
        ensures
            bits == self.bits,
    {
        self.bits
    }

    /// Whether the datum is not a number.
    #[verifier::when_used_as_spec(spec_is_nan)]
    pub fn is_nan(self) -> (r: bool)
        ensures
            r == self.spec_is_nan(),
    {
        self.bits % 0x8000_0000 > 0x7f80_0000
    }
}

impl Binary64 {
    /// Not-a-number: the exponent is all ones and the fraction is not zero.
    /// With the sign bit cleared, that is every pattern above infinity's.
    pub open spec fn spec_is_nan(self) -> bool {
        self.bits % 0x8000_0000_0000_0000 > 0x7ff0_0000_0000_0000
    }

    /// The datum with the given bit pattern.
    pub fn from_bits(bits: u64) -> (r: Binary64)
        ensures
            r.bits == bits,
    {
        Binary64 { bits }
    }

    /// The bit pattern of the datum.
    pub fn to_bits(self) -> (bits: u64)
        ensures
            bits == self.bits,
    {
        self.bits
    }

    /// Whether the datum is not a number.
    #[verifier::when_used_as_spec(spec_is_nan)]
    pub fn is_nan(self) -> (r: bool)
        ensures
            r == self.spec_is_nan(),
    {
        self.bits % 0x8000_0000_0000_0000 > 0x7ff0_0000_0000_0000
    }
}

} // verus!
