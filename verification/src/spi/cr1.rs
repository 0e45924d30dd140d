//! Control register 1 bitfields of the SPI controller.

use vstd::prelude::*;

verus! {

/// Bidirectional data mode enable, bit 15.
#[derive(Clone, Copy, PartialEq, Eq, Structural, Debug)]
pub enum Bidimode {
    Undir2Line,
    Bidir1Line,
}

impl Bidimode {
    pub open spec fn spec_bits(self) -> u32 {
        match self {
            Bidimode::Undir2Line => 0b0u32 << 15,
            Bidimode::Bidir1Line => 0b1u32 << 15,
        }
    }

    /// The value's position-shifted register encoding.
    pub fn bits(self) -> (r: u32)
        ensures
            r == self.spec_bits(),
    {
        match self {
            Bidimode::Undir2Line => 0b0u32 << 15,
            Bidimode::Bidir1Line => 0b1u32 << 15,
        }
    }
}

/// Output enable in bidirectional mode, bit 14.
#[derive(Clone, Copy, PartialEq, Eq, Structural, Debug)]
pub enum Bidioe {
    Disable,
    Enable,
}

impl Bidioe {
    pub open spec fn spec_bits(self) -> u32 {
        match self {
            Bidioe::Disable => 0b0u32 << 14,
            Bidioe::Enable => 0b1u32 << 14,
        }
    }

    /// The value's position-shifted register encoding.
    pub fn bits(self) -> (r: u32)
        ensures
            r == self.spec_bits(),
    {
        match self {
            Bidioe::Disable => 0b0u32 << 14,
            Bidioe::Enable => 0b1u32 << 14,
        }
    }
}

/// Hardware CRC calculation enable, bit 13.
#[derive(Clone, Copy, PartialEq, Eq, Structural, Debug)]
pub enum Crcen {
    Disable,
    Enable,
}

impl Crcen {
    pub open spec fn spec_bits(self) -> u32 {
        match self {
            Crcen::Disable => 0b0u32 << 13,
            Crcen::Enable => 0b1u32 << 13,
        }
    }

    /// The value's position-shifted register encoding.
    pub fn bits(self) -> (r: u32)
        ensures
            r == self.spec_bits(),
    {
        match self {
            Crcen::Disable => 0b0u32 << 13,
            Crcen::Enable => 0b1u32 << 13,
        }
    }
}

/// CRC transfer next, bit 12.
#[derive(Clone, Copy, PartialEq, Eq, Structural, Debug)]
pub enum Crcnext {
    NoCrcPhase,
    CrcPhase,
}

impl Crcnext {
    pub open spec fn spec_bits(self) -> u32 {
        match self {
            Crcnext::NoCrcPhase => 0b0u32 << 12,
            Crcnext::CrcPhase => 0b1u32 << 12,
        }
    }

    /// The value's position-shifted register encoding.
    pub fn bits(self) -> (r: u32)
        ensures
            r == self.spec_bits(),
    {
        match self {
            Crcnext::NoCrcPhase => 0b0u32 << 12,
            Crcnext::CrcPhase => 0b1u32 << 12,
        }
    }
}

/// Data frame format, bit 11.
#[derive(Clone, Copy, PartialEq, Eq, Structural, Debug)]
pub enum Dff {
    Df8bit,
    Df16bit,
}

impl Dff {
    pub open spec fn spec_bits(self) -> u32 {
        match self {
            Dff::Df8bit => 0b0u32 << 11,
            Dff::Df16bit => 0b1u32 << 11,
        }
    }

    /// The value's position-shifted register encoding.
    pub fn bits(self) -> (r: u32)
        ensures
            r == self.spec_bits(),
    {
        match self {
            Dff::Df8bit => 0b0u32 << 11,
            Dff::Df16bit => 0b1u32 << 11,
        }
    }
}

/// Receive only, bit 10.
#[derive(Clone, Copy, PartialEq, Eq, Structural, Debug)]
pub enum Rxonly {
    FullDuplex,
    OutputDisable,
}

impl Rxonly {
    pub open spec fn spec_bits(self) -> u32 {
        match self {
            Rxonly::FullDuplex => 0b0u32 << 10,
            Rxonly::OutputDisable => 0b1u32 << 10,
        }
    }

    /// The value's position-shifted register encoding.
    pub fn bits(self) -> (r: u32)
        ensures
            r == self.spec_bits(),
    {
        match self {
            Rxonly::FullDuplex => 0b0u32 << 10,
            Rxonly::OutputDisable => 0b1u32 << 10,
        }
    }
}

/// Software slave management, bit 9.
#[derive(Clone, Copy, PartialEq, Eq, Structural, Debug)]
pub enum Ssm {
    Disable,
    Enable,
}

impl Ssm {
    pub open spec fn spec_bits(self) -> u32 {
        match self {
            Ssm::Disable => 0b0u32 << 9,
            Ssm::Enable => 0b1u32 << 9,
        }
    }

    /// The value's position-shifted register encoding.
    pub fn bits(self) -> (r: u32)
        ensures
            r == self.spec_bits(),
    {
        match self {
            Ssm::Disable => 0b0u32 << 9,
            Ssm::Enable => 0b1u32 << 9,
        }
    }
}

/// Internal slave select, bit 8.
#[derive(Clone, Copy, PartialEq, Eq, Structural, Debug)]
pub enum Ssi {
    Disable,
    Enable,
}

impl Ssi {
    pub open spec fn spec_bits(self) -> u32 {
        match self {
            Ssi::Disable => 0b0u32 << 8,
            Ssi::Enable => 0b1u32 << 8,
        }
    }

    /// The value's position-shifted register encoding.
    pub fn bits(self) -> (r: u32)
        ensures
            r == self.spec_bits(),
    {
        match self {
            Ssi::Disable => 0b0u32 << 8,
            Ssi::Enable => 0b1u32 << 8,
        }
    }
}

/// Frame format, bit 7.
#[derive(Clone, Copy, PartialEq, Eq, Structural, Debug)]
pub enum Lsbfirst {
    MsbFirst,
    LsbFirst,
}

impl Lsbfirst {
    pub open spec fn spec_bits(self) -> u32 {
        match self {
            Lsbfirst::MsbFirst => 0b0u32 << 7,
            Lsbfirst::LsbFirst => 0b1u32 << 7,
        }
    }

    /// The value's position-shifted register encoding.
    pub fn bits(self) -> (r: u32)
        ensures
            r == self.spec_bits(),
    {
        match self {
            Lsbfirst::MsbFirst => 0b0u32 << 7,
            Lsbfirst::LsbFirst => 0b1u32 << 7,
        }
    }
}

/// SPI enable, bit 6.
#[derive(Clone, Copy, PartialEq, Eq, Structural, Debug)]
pub enum Spe {
    Disable,
    Enable,
}

impl Spe {
    pub open spec fn spec_bits(self) -> u32 {
        match self {
            Spe::Disable => 0b0u32 << 6,
            Spe::Enable => 0b1u32 << 6,
        }
    }

    /// The value's position-shifted register encoding.
    pub fn bits(self) -> (r: u32)
        ensures
            r == self.spec_bits(),
    {
        match self {
            Spe::Disable => 0b0u32 << 6,
            Spe::Enable => 0b1u32 << 6,
        }
    }
}

/// Baud rate control, bits 3..=5.
#[derive(Clone, Copy, PartialEq, Eq, Structural, Debug)]
pub enum Br {
    DIV2,
    DIV4,
    DIV8,
    DIV16,
    DIV32,
    DIV64,
    DIV128,
    DIV256,
}

impl Br {
    pub open spec fn spec_bits(self) -> u32 {
        match self {
            Br::DIV2 => 0b000u32 << 3,
            Br::DIV4 => 0b001u32 << 3,
            Br::DIV8 => 0b010u32 << 3,
            Br::DIV16 => 0b011u32 << 3,
            Br::DIV32 => 0b100u32 << 3,
            Br::DIV64 => 0b101u32 << 3,
            Br::DIV128 => 0b110u32 << 3,
            Br::DIV256 => 0b111u32 << 3,
        }
    }

    /// The value's position-shifted register encoding.
    pub fn bits(self) -> (r: u32)
        ensures
            r == self.spec_bits(),
    {
        match self {
            Br::DIV2 => 0b000u32 << 3,
            Br::DIV4 => 0b001u32 << 3,
            Br::DIV8 => 0b010u32 << 3,
            Br::DIV16 => 0b011u32 << 3,
            Br::DIV32 => 0b100u32 << 3,
            Br::DIV64 => 0b101u32 << 3,
            Br::DIV128 => 0b110u32 << 3,
            Br::DIV256 => 0b111u32 << 3,
        }
    }
}

/// Master selection, bit 2.
#[derive(Clone, Copy, PartialEq, Eq, Structural, Debug)]
pub enum Mstr {
    Slave,
    Master,
}

impl Mstr {
    pub open spec fn spec_bits(self) -> u32 {
        match self {
            Mstr::Slave => 0b0u32 << 2,
            Mstr::Master => 0b1u32 << 2,
        }
    }

    /// The value's position-shifted register encoding.
    pub fn bits(self) -> (r: u32)
        ensures
            r == self.spec_bits(),
    {
        match self {
            Mstr::Slave => 0b0u32 << 2,
            Mstr::Master => 0b1u32 << 2,
        }
    }
}

/// Clock polarity, bit 1.
#[derive(Clone, Copy, PartialEq, Eq, Structural, Debug)]
pub enum Cpol {
    Positive,
    Negative,
}

impl Cpol {
    pub open spec fn spec_bits(self) -> u32 {
        match self {
            Cpol::Positive => 0b0u32 << 1,
            Cpol::Negative => 0b1u32 << 1,
        }
    }

    /// The value's position-shifted register encoding.
    pub fn bits(self) -> (r: u32)
        ensures
            r == self.spec_bits(),
    {
        match self {
            Cpol::Positive => 0b0u32 << 1,
            Cpol::Negative => 0b1u32 << 1,
        }
    }
}

/// Clock phase, bit 0.
#[derive(Clone, Copy, PartialEq, Eq, Structural, Debug)]
pub enum Cpha {
    Raising,
    Falling,
}

impl Cpha {
    pub open spec fn spec_bits(self) -> u32 {
        match self {
            Cpha::Raising => 0b0u32,
            Cpha::Falling => 0b1u32,
        }
    }

    /// The value's position-shifted register encoding.
    pub fn bits(self) -> (r: u32)
        ensures
            r == self.spec_bits(),
    {
        match self {
            Cpha::Raising => 0b0u32,
            Cpha::Falling => 0b1u32,
        }
    }
}

} // verus!
