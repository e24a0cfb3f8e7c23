//! Shared helpers: named data sizes used by the cartridge and mapper code.

use vstd::prelude::*;

verus! {

/// Standard power-of-two buffer sizes that cartridge hardware comes in.
#[derive(Debug, Clone, Copy, PartialEq, Eq, Structural)]
pub enum DataSizes {
    Size2K,
    Size4K,
    Size8K,
    Size16K,
    Size32K,
}

impl DataSizes {
    /// The size in bytes that this label stands for.
    pub open spec fn spec_to_bytes(&self) -> usize {
        match self {
            DataSizes::Size2K => 0x0800,
            DataSizes::Size4K => 0x1000,
            DataSizes::Size8K => 0x2000,
            DataSizes::Size16K => 0x4000,
            DataSizes::Size32K => 0x8000,
        }
    }

    #[verifier::when_used_as_spec(spec_to_bytes)]
    pub fn to_bytes(&self) -> (r: usize)
        ensures
            r == self.spec_to_bytes(),
    {
        match self {
            DataSizes::Size2K => 1024 * 2,
            DataSizes::Size4K => 1024 * 4,
            DataSizes::Size8K => 1024 * 8,
            DataSizes::Size16K => 1024 * 16,
            DataSizes::Size32K => 1024 * 32,
        }
    }
}

/// Whether every bit of the mask is set in the byte.
pub open spec fn spec_is_bit_set(input_byte: u8, mask: u8) -> bool {
    input_byte & mask == mask
}

#[verifier::when_used_as_spec(spec_is_bit_set)]
pub fn is_bit_set(input_byte: u8, mask: u8) -> (r: bool)
    ensures
        r == spec_is_bit_set(input_byte, mask),
{
    input_byte & mask == mask
}

} // verus!
