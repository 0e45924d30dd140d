//! Access control register bitfields of the flash controller.

use vstd::prelude::*;

verus! {

/// Latency: flash wait states, bits 0..=3.
pub const LATENCY_MASK: u32 = 0xF;

/// Data cache reset, bit 12.
#[derive(Clone, Copy, PartialEq, Eq, Structural, Debug)]
pub enum Dcrst {
    NotReset,
    Reset,
}

impl Dcrst {
    pub open spec fn spec_bits(self) -> u32 {
        match self {
            Dcrst::NotReset => 0b0u32 << 12,
            Dcrst::Reset => 0b1u32 << 12,
        }
    }

    /// The value's position-shifted register encoding.
    pub fn bits(self) -> (r: u32)
        ensures
            r == self.spec_bits(),
    {
        match self {
            Dcrst::NotReset => 0b0u32 << 12,
            Dcrst::Reset => 0b1u32 << 12,
        }
    }
}

/// Instruction cache reset, bit 11.
#[derive(Clone, Copy, PartialEq, Eq, Structural, Debug)]
pub enum Icrst {
    NotReset,
    Reset,
}

impl Icrst {
    pub open spec fn spec_bits(self) -> u32 {
        match self {
            Icrst::NotReset => 0b0u32 << 11,
            Icrst::Reset => 0b1u32 << 11,
        }
    }

    /// The value's position-shifted register encoding.
    pub fn bits(self) -> (r: u32)
        ensures
            r == self.spec_bits(),
    {
        match self {
            Icrst::NotReset => 0b0u32 << 11,
            Icrst::Reset => 0b1u32 << 11,
        }
    }
}

/// Data cache enable, bit 10.
#[derive(Clone, Copy, PartialEq, Eq, Structural, Debug)]
pub enum Dcen {
    Disable,
    Enable,
}

impl Dcen {
    pub open spec fn spec_bits(self) -> u32 {
        match self {
            Dcen::Disable => 0b0u32 << 10,
            Dcen::Enable => 0b1u32 << 10,
        }
    }

    /// The value's position-shifted register encoding.
    pub fn bits(self) -> (r: u32)
        ensures
            r == self.spec_bits(),
    {
        match self {
            Dcen::Disable => 0b0u32 << 10,
            Dcen::Enable => 0b1u32 << 10,
        }
    }
}

/// Instruction cache enable, bit 9.
#[derive(Clone, Copy, PartialEq, Eq, Structural, Debug)]
pub enum Icen {
    Disable,
    Enable,
}

impl Icen {
    pub open spec fn spec_bits(self) -> u32 {
        match self {
            Icen::Disable => 0b0u32 << 9,
            Icen::Enable => 0b1u32 << 9,
        }
    }

    /// The value's position-shifted register encoding.
    pub fn bits(self) -> (r: u32)
        ensures
            r == self.spec_bits(),
    {
        match self {
            Icen::Disable => 0b0u32 << 9,
            Icen::Enable => 0b1u32 << 9,
        }
    }
}

/// Prefetch enable, bit 8.
#[derive(Clone, Copy, PartialEq, Eq, Structural, Debug)]
pub enum Prften {
    Disable,
    Enable,
}

impl Prften {
    pub open spec fn spec_bits(self) -> u32 {
        match self {
            Prften::Disable => 0b0u32 << 8,
            Prften::Enable => 0b1u32 << 8,
        }
    }

    /// The value's position-shifted register encoding.
    pub fn bits(self) -> (r: u32)
        ensures
            r == self.spec_bits(),
    {
        match self {
            Prften::Disable => 0b0u32 << 8,
            Prften::Enable => 0b1u32 << 8,
        }
    }
}

} // verus!
