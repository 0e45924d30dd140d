//! I2S prescaler register bitfields of the SPI controller.

use vstd::prelude::*;

verus! {

/// Linear prescaler, bits 0..=7.
pub const I2S_DIV_MASK: u32 = 0xFF;

/// Master clock output enable, bit 9.
#[derive(Clone, Copy, PartialEq, Eq, Structural, Debug)]
pub enum Mckoe {
    Disable,
    Enable,
}

impl Mckoe {
    pub open spec fn spec_bits(self) -> u32 {
        match self {
            Mckoe::Disable => 0b0u32 << 9,
            Mckoe::Enable => 0b1u32 << 9,
        }
    }

    /// The value's position-shifted register encoding.
    pub fn bits(self) -> (r: u32)
        ensures
            r == self.spec_bits(),
    {
        match self {
            Mckoe::Disable => 0b0u32 << 9,
            Mckoe::Enable => 0b1u32 << 9,
        }
    }
}

/// Odd factor for the prescaler, bit 8.
#[derive(Clone, Copy, PartialEq, Eq, Structural, Debug)]
pub enum Odd {
    I2sDivX2,
    I2sDivX2P1,
}

impl Odd {
    pub open spec fn spec_bits(self) -> u32 {
        match self {
            Odd::I2sDivX2 => 0b0u32 << 8,
            Odd::I2sDivX2P1 => 0b1u32 << 8,
        }
    }

    /// The value's position-shifted register encoding.
    pub fn bits(self) -> (r: u32)
        ensures
            r == self.spec_bits(),
    {
        match self {
            Odd::I2sDivX2 => 0b0u32 << 8,
            Odd::I2sDivX2P1 => 0b1u32 << 8,
        }
    }
}

} // verus!
