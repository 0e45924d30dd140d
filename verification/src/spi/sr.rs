//! Status register bitfields of the SPI controller.

use vstd::prelude::*;

verus! {

/// Frame format error, bit 8.
#[derive(Clone, Copy, PartialEq, Eq, Structural, Debug)]
pub enum Fre {
    NoError,
    Error,
}

impl Fre {
    pub open spec fn spec_bits(self) -> u32 {
        match self {
            Fre::NoError => 0b0u32 << 8,
            Fre::Error => 0b1u32 << 8,
        }
    }

    /// The value's position-shifted register encoding.
    pub fn bits(self) -> (r: u32)
        ensures
            r == self.spec_bits(),
    {
        match self {
            Fre::NoError => 0b0u32 << 8,
            Fre::Error => 0b1u32 << 8,
        }
    }
}

/// Busy flag, bit 7.
#[derive(Clone, Copy, PartialEq, Eq, Structural, Debug)]
pub enum Bsy {
    NotBusy,
    Busy,
}

impl Bsy {
    pub open spec fn spec_bits(self) -> u32 {
        match self {
            Bsy::NotBusy => 0b0u32 << 7,
            Bsy::Busy => 0b1u32 << 7,
        }
    }

    /// The value's position-shifted register encoding.
    pub fn bits(self) -> (r: u32)
        ensures
            r == self.spec_bits(),
    {
        match self {
            Bsy::NotBusy => 0b0u32 << 7,
            Bsy::Busy => 0b1u32 << 7,
        }
    }
}

/// Overrun flag, bit 6.
#[derive(Clone, Copy, PartialEq, Eq, Structural, Debug)]
pub enum Ovr {
    NoOverrun,
    Overrun,
}

impl Ovr {
    pub open spec fn spec_bits(self) -> u32 {
        match self {
            Ovr::NoOverrun => 0b0u32 << 6,
            Ovr::Overrun => 0b1u32 << 6,
        }
    }

    /// The value's position-shifted register encoding.
    pub fn bits(self) -> (r: u32)
        ensures
            r == self.spec_bits(),
    {
        match self {
            Ovr::NoOverrun => 0b0u32 << 6,
            Ovr::Overrun => 0b1u32 << 6,
        }
    }
}

/// Mode fault, bit 5.
#[derive(Clone, Copy, PartialEq, Eq, Structural, Debug)]
pub enum Modf {
    NoModeFault,
    ModeFault,
}

impl Modf {
    pub open spec fn spec_bits(self) -> u32 {
        match self {
            Modf::NoModeFault => 0b0u32 << 5,
            Modf::ModeFault => 0b1u32 << 5,
        }
    }

    /// The value's position-shifted register encoding.
    pub fn bits(self) -> (r: u32)
        ensures
            r == self.spec_bits(),
    {
        match self {
            Modf::NoModeFault => 0b0u32 << 5,
            Modf::ModeFault => 0b1u32 << 5,
        }
    }
}

/// CRC error flag, bit 4.
#[derive(Clone, Copy, PartialEq, Eq, Structural, Debug)]
pub enum Crcerr {
    NoError,
    Error,
}

impl Crcerr {
    pub open spec fn spec_bits(self) -> u32 {
        match self {
            Crcerr::NoError => 0b0u32 << 4,
            Crcerr::Error => 0b1u32 << 4,
        }
    }

    /// The value's position-shifted register encoding.
    pub fn bits(self) -> (r: u32)
        ensures
            r == self.spec_bits(),
    {
        match self {
            Crcerr::NoError => 0b0u32 << 4,
            Crcerr::Error => 0b1u32 << 4,
        }
    }
}

/// Underrun flag, bit 3.
#[derive(Clone, Copy, PartialEq, Eq, Structural, Debug)]
pub enum Udr {
    NoUnderrun,
    Underrun,
}

impl Udr {
    pub open spec fn spec_bits(self) -> u32 {
        match self {
            Udr::NoUnderrun => 0b0u32 << 3,
            Udr::Underrun => 0b1u32 << 3,
        }
    }

    /// The value's position-shifted register encoding.
    pub fn bits(self) -> (r: u32)
        ensures
            r == self.spec_bits(),
    {
        match self {
            Udr::NoUnderrun => 0b0u32 << 3,
            Udr::Underrun => 0b1u32 << 3,
        }
    }
}

/// Channel side, bit 2.
#[derive(Clone, Copy, PartialEq, Eq, Structural, Debug)]
pub enum Chside {
    Left,
    Right,
}

impl Chside {
    pub open spec fn spec_bits(self) -> u32 {
        match self {
            Chside::Left => 0b0u32 << 2,
            Chside::Right => 0b1u32 << 2,
        }
    }

    /// The value's position-shifted register encoding.
    pub fn bits(self) -> (r: u32)
        ensures
            r == self.spec_bits(),
    {
        match self {
            Chside::Left => 0b0u32 << 2,
            Chside::Right => 0b1u32 << 2,
        }
    }
}

/// Transmit buffer empty, bit 1.
#[derive(Clone, Copy, PartialEq, Eq, Structural, Debug)]
pub enum Txe {
    NotEmpty,
    Empty,
}

impl Txe {
    pub open spec fn spec_bits(self) -> u32 {
        match self {
            Txe::NotEmpty => 0b0u32 << 1,
            Txe::Empty => 0b1u32 << 1,
        }
    }

    /// The value's position-shifted register encoding.
    pub fn bits(self) -> (r: u32)
        ensures
            r == self.spec_bits(),
    {
        match self {
            Txe::NotEmpty => 0b0u32 << 1,
            Txe::Empty => 0b1u32 << 1,
        }
    }
}

/// Receive buffer not empty, bit 0.
#[derive(Clone, Copy, PartialEq, Eq, Structural, Debug)]
pub enum Rxne {
    Empty,
    NotEmpty,
}

impl Rxne {
    pub open spec fn spec_bits(self) -> u32 {
        match self {
            Rxne::Empty => 0b0u32 << 0,
            Rxne::NotEmpty => 0b1u32 << 0,
        }
    }

    /// The value's position-shifted register encoding.
    pub fn bits(self) -> (r: u32)
        ensures
            r == self.spec_bits(),
    {
        match self {
            Rxne::Empty => 0b0u32 << 0,
            Rxne::NotEmpty => 0b1u32 << 0,
        }
    }
}

} // verus!
