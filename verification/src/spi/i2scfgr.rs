//! I2S configuration register bitfields of the SPI controller.

use vstd::prelude::*;

verus! {

/// I2S mode selection, bit 11.
#[derive(Clone, Copy, PartialEq, Eq, Structural, Debug)]
pub enum I2smod {
    SpiMode,
    I2sMode,
}

impl I2smod {
    pub open spec fn spec_bits(self) -> u32 {
        match self {
            I2smod::SpiMode => 0b0u32 << 11,
            I2smod::I2sMode => 0b1u32 << 11,
        }
    }

    /// The value's position-shifted register encoding.
    pub fn bits(self) -> (r: u32)
        ensures
            r == self.spec_bits(),
    {
        match self {
            I2smod::SpiMode => 0b0u32 << 11,
            I2smod::I2sMode => 0b1u32 << 11,
        }
    }
}

/// I2S peripheral enable, bit 10.
#[derive(Clone, Copy, PartialEq, Eq, Structural, Debug)]
pub enum I2se {
    Disable,
    Enable,
}

impl I2se {
    pub open spec fn spec_bits(self) -> u32 {
        match self {
            I2se::Disable => 0b0u32 << 10,
            I2se::Enable => 0b1u32 << 10,
        }
    }

    /// The value's position-shifted register encoding.
    pub fn bits(self) -> (r: u32)
        ensures
            r == self.spec_bits(),
    {
        match self {
            I2se::Disable => 0b0u32 << 10,
            I2se::Enable => 0b1u32 << 10,
        }
    }
}

/// I2S configuration mode, bits 8..=9.
#[derive(Clone, Copy, PartialEq, Eq, Structural, Debug)]
pub enum I2scfg {
    SlaveTransmit,
    SlaveReceive,
    MasterTransmit,
    MasterReceive,
}

impl I2scfg {
    pub open spec fn spec_bits(self) -> u32 {
        match self {
            I2scfg::SlaveTransmit => 0b00u32 << 8,
            I2scfg::SlaveReceive => 0b01u32 << 8,
            I2scfg::MasterTransmit => 0b10u32 << 8,
            I2scfg::MasterReceive => 0b11u32 << 8,
        }
    }

    /// The value's position-shifted register encoding.
    pub fn bits(self) -> (r: u32)
        ensures
            r == self.spec_bits(),
    {
        match self {
            I2scfg::SlaveTransmit => 0b00u32 << 8,
            I2scfg::SlaveReceive => 0b01u32 << 8,
            I2scfg::MasterTransmit => 0b10u32 << 8,
            I2scfg::MasterReceive => 0b11u32 << 8,
        }
    }
}

/// PCM frame synchronization, bit 7.
#[derive(Clone, Copy, PartialEq, Eq, Structural, Debug)]
pub enum Pcmsync {
    Short,
    Long,
}

impl Pcmsync {
    pub open spec fn spec_bits(self) -> u32 {
        match self {
            Pcmsync::Short => 0b0u32 << 7,
            Pcmsync::Long => 0b1u32 << 7,
        }
    }

    /// The value's position-shifted register encoding.
    pub fn bits(self) -> (r: u32)
        ensures
            r == self.spec_bits(),
    {
        match self {
            Pcmsync::Short => 0b0u32 << 7,
            Pcmsync::Long => 0b1u32 << 7,
        }
    }
}

/// I2S standard selection, bits 4..=5.
#[derive(Clone, Copy, PartialEq, Eq, Structural, Debug)]
pub enum I2sstd {
    I2sPhilips,
    MsbJustified,
    LsbJustified,
    Pcm,
}

impl I2sstd {
    pub open spec fn spec_bits(self) -> u32 {
        match self {
            I2sstd::I2sPhilips => 0b00u32 << 4,
            I2sstd::MsbJustified => 0b01u32 << 4,
            I2sstd::LsbJustified => 0b10u32 << 4,
            I2sstd::Pcm => 0b11u32 << 4,
        }
    }

    /// The value's position-shifted register encoding.
    pub fn bits(self) -> (r: u32)
        ensures
            r == self.spec_bits(),
    {
        match self {
            I2sstd::I2sPhilips => 0b00u32 << 4,
            I2sstd::MsbJustified => 0b01u32 << 4,
            I2sstd::LsbJustified => 0b10u32 << 4,
            I2sstd::Pcm => 0b11u32 << 4,
        }
    }
}

/// Steady state clock polarity, bit 3.
#[derive(Clone, Copy, PartialEq, Eq, Structural, Debug)]
pub enum Ckpol {
    Low,
    High,
}

impl Ckpol {
    pub open spec fn spec_bits(self) -> u32 {
        match self {
            Ckpol::Low => 0b0u32 << 3,
            Ckpol::High => 0b1u32 << 3,
        }
    }

    /// The value's position-shifted register encoding.
    pub fn bits(self) -> (r: u32)
        ensures
            r == self.spec_bits(),
    {
        match self {
            Ckpol::Low => 0b0u32 << 3,
            Ckpol::High => 0b1u32 << 3,
        }
    }
}

/// Data length to be transferred, bits 1..=2.
#[derive(Clone, Copy, PartialEq, Eq, Structural, Debug)]
pub enum Datalen {
    _16bit,
    _24bit,
    _32bit,
    NotAllow,
}

impl Datalen {
    pub open spec fn spec_bits(self) -> u32 {
        match self {
            Datalen::_16bit => 0b00u32 << 1,
            Datalen::_24bit => 0b01u32 << 1,
            Datalen::_32bit => 0b10u32 << 1,
            Datalen::NotAllow => 0b11u32 << 1,
        }
    }

    /// The value's position-shifted register encoding.
    pub fn bits(self) -> (r: u32)
        ensures
            r == self.spec_bits(),
    {
        match self {
            Datalen::_16bit => 0b00u32 << 1,
            Datalen::_24bit => 0b01u32 << 1,
            Datalen::_32bit => 0b10u32 << 1,
            Datalen::NotAllow => 0b11u32 << 1,
        }
    }
}

/// Channel length, bit 0.
#[derive(Clone, Copy, PartialEq, Eq, Structural, Debug)]
pub enum Chlen {
    _16bitWide,
    _32bitWide,
}

impl Chlen {
    pub open spec fn spec_bits(self) -> u32 {
        match self {
            Chlen::_16bitWide => 0b0u32,
            Chlen::_32bitWide => 0b1u32,
        }
    }

    /// The value's position-shifted register encoding.
    pub fn bits(self) -> (r: u32)
        ensures
            r == self.spec_bits(),
    {
        match self {
            Chlen::_16bitWide => 0b0u32,
            Chlen::_32bitWide => 0b1u32,
        }
    }
}

} // verus!
