//! Control register 2 bitfields of the SPI controller.

use vstd::prelude::*;

verus! {

/// Transmit buffer empty interrupt enable, bit 7.
#[derive(Clone, Copy, PartialEq, Eq, Structural, Debug)]
pub enum Txeie {
    Disable,
    Enable,
}

impl Txeie {
    pub open spec fn spec_bits(self) -> u32 {
        match self {
            Txeie::Disable => 0b0u32 << 7,
            Txeie::Enable => 0b1u32 << 7,
        }
    }

    /// The value's position-shifted register encoding.
    pub fn bits(self) -> (r: u32)
        ensures
            r == self.spec_bits(),
    {
        match self {
            Txeie::Disable => 0b0u32 << 7,
            Txeie::Enable => 0b1u32 << 7,
        }
    }
}

/// Receive buffer not empty interrupt enable, bit 6.
#[derive(Clone, Copy, PartialEq, Eq, Structural, Debug)]
pub enum Rxneie {
    Disable,
    Enable,
}

impl Rxneie {
    pub open spec fn spec_bits(self) -> u32 {
        match self {
            Rxneie::Disable => 0b0u32 << 6,
            Rxneie::Enable => 0b1u32 << 6,
        }
    }

    /// The value's position-shifted register encoding.
    pub fn bits(self) -> (r: u32)
        ensures
            r == self.spec_bits(),
    {
        match self {
            Rxneie::Disable => 0b0u32 << 6,
            Rxneie::Enable => 0b1u32 << 6,
        }
    }
}

/// Error interrupt enable, bit 5.
#[derive(Clone, Copy, PartialEq, Eq, Structural, Debug)]
pub enum Errie {
    Disable,
    Enable,
}

impl Errie {
    pub open spec fn spec_bits(self) -> u32 {
        match self {
            Errie::Disable => 0b0u32 << 5,
            Errie::Enable => 0b1u32 << 5,
        }
    }

    /// The value's position-shifted register encoding.
    pub fn bits(self) -> (r: u32)
        ensures
            r == self.spec_bits(),
    {
        match self {
            Errie::Disable => 0b0u32 << 5,
            Errie::Enable => 0b1u32 << 5,
        }
    }
}

/// Frame format, bit 4.
#[derive(Clone, Copy, PartialEq, Eq, Structural, Debug)]
pub enum Frf {
    SpiMotorolaMode,
    SpiTiMode,
}

impl Frf {
    pub open spec fn spec_bits(self) -> u32 {
        match self {
            Frf::SpiMotorolaMode => 0b0u32 << 4,
            Frf::SpiTiMode => 0b1u32 << 4,
        }
    }

    /// The value's position-shifted register encoding.
    pub fn bits(self) -> (r: u32)
        ensures
            r == self.spec_bits(),
    {
        match self {
            Frf::SpiMotorolaMode => 0b0u32 << 4,
            Frf::SpiTiMode => 0b1u32 << 4,
        }
    }
}

/// Slave select output enable, bit 2.
#[derive(Clone, Copy, PartialEq, Eq, Structural, Debug)]
pub enum Ssoe {
    Disable,
    Enable,
}

impl Ssoe {
    pub open spec fn spec_bits(self) -> u32 {
        match self {
            Ssoe::Disable => 0b0u32 << 2,
            Ssoe::Enable => 0b1u32 << 2,
        }
    }

    /// The value's position-shifted register encoding.
    pub fn bits(self) -> (r: u32)
        ensures
            r == self.spec_bits(),
    {
        match self {
            Ssoe::Disable => 0b0u32 << 2,
            Ssoe::Enable => 0b1u32 << 2,
        }
    }
}

/// Transmit buffer DMA enable, bit 1.
#[derive(Clone, Copy, PartialEq, Eq, Structural, Debug)]
pub enum Txdmaen {
    Disable,
    Enable,
}

impl Txdmaen {
    pub open spec fn spec_bits(self) -> u32 {
        match self {
            Txdmaen::Disable => 0b0u32 << 1,
            Txdmaen::Enable => 0b1u32 << 1,
        }
    }

    /// The value's position-shifted register encoding.
    pub fn bits(self) -> (r: u32)
        ensures
            r == self.spec_bits(),
    {
        match self {
            Txdmaen::Disable => 0b0u32 << 1,
            Txdmaen::Enable => 0b1u32 << 1,
        }
    }
}

/// Receive buffer DMA enable, bit 0.
#[derive(Clone, Copy, PartialEq, Eq, Structural, Debug)]
pub enum Rxdmaen {
    Disable,
    Enable,
}

impl Rxdmaen {
    pub open spec fn spec_bits(self) -> u32 {
        match self {
            Rxdmaen::Disable => 0b0u32 << 0,
            Rxdmaen::Enable => 0b1u32 << 0,
        }
    }

    /// The value's position-shifted register encoding.
    pub fn bits(self) -> (r: u32)
        ensures
            r == self.spec_bits(),
    {
        match self {
            Rxdmaen::Disable => 0b0u32 << 0,
            Rxdmaen::Enable => 0b1u32 << 0,
        }
    }
}

} // verus!
