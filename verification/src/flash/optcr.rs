//! Option control register bitfields of the flash controller.

use vstd::prelude::*;

verus! {

/// Not write protect, bits 16..=23.
pub const N_WRP_MASK: u32 = 0xFFu32 << 16;

/// User option byte: no reset on standby.
pub const USER_N_RST_STDBY: u32 = 0b1u32 << 7;

/// User option byte: no reset on stop.
pub const USER_N_RST_STOP: u32 = 0b1u32 << 6;

/// User option byte: software watchdog.
pub const USER_WDG_SW: u32 = 0b1u32 << 5;

/// Option start.
pub const OPTSTART: u32 = 0b1u32 << 1;

/// Option lock.
pub const OPTLOCK: u32 = 0b1u32 << 0;

/// Selection of protection mode of the nWPRi bits, bit 31.
#[derive(Clone, Copy, PartialEq, Eq, Structural, Debug)]
pub enum SPRMOD {
    Disable,
    Enable,
}

impl SPRMOD {
    pub open spec fn spec_bits(self) -> u32 {
        match self {
            SPRMOD::Disable => 0b0u32 << 31,
            SPRMOD::Enable => 0b1u32 << 31,
        }
    }

    /// The value's position-shifted register encoding.
    pub fn bits(self) -> (r: u32)
        ensures
            r == self.spec_bits(),
    {
        match self {
            SPRMOD::Disable => 0b0u32 << 31,
            SPRMOD::Enable => 0b1u32 << 31,
        }
    }
}

/// Read protection level, bits 8..=15.
#[derive(Clone, Copy, PartialEq, Eq, Structural, Debug)]
pub enum Rdp {
    Level0,
    Level2,
    Level1,
}

impl Rdp {
    pub open spec fn spec_bits(self) -> u32 {
        match self {
            Rdp::Level0 => 0xAAu32 << 8,
            Rdp::Level2 => 0xCCu32 << 8,
            Rdp::Level1 => 0xBBu32 << 8,
        }
    }

    /// The value's position-shifted register encoding.
    pub fn bits(self) -> (r: u32)
        ensures
            r == self.spec_bits(),
    {
        match self {
            Rdp::Level0 => 0xAAu32 << 8,
            Rdp::Level2 => 0xCCu32 << 8,
            Rdp::Level1 => 0xBBu32 << 8,
        }
    }
}

/// Brown-out reset level, bits 2..=3.
#[derive(Clone, Copy, PartialEq, Eq, Structural, Debug)]
pub enum Bor {
    Level3,
    Level2,
    Level1,
    Off,
}

impl Bor {
    pub open spec fn spec_bits(self) -> u32 {
        match self {
            Bor::Level3 => 0b00u32 << 2,
            Bor::Level2 => 0b01u32 << 2,
            Bor::Level1 => 0b10u32 << 2,
            Bor::Off => 0b11u32 << 2,
        }
    }

    /// The value's position-shifted register encoding.
    pub fn bits(self) -> (r: u32)
        ensures
            r == self.spec_bits(),
    {
        match self {
            Bor::Level3 => 0b00u32 << 2,
            Bor::Level2 => 0b01u32 << 2,
            Bor::Level1 => 0b10u32 << 2,
            Bor::Off => 0b11u32 << 2,
        }
    }
}

} // verus!
