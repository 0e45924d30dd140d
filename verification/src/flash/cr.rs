//! Control register bitfields of the flash controller.

use vstd::prelude::*;

verus! {

/// Lock.
pub const LOCK: u32 = 0b1u32 << 31;

/// Start.
pub const START: u32 = 0b1u32 << 16;

/// Sector number, bits 3..=6.
pub const SNB_MASK: u32 = 0xFu32 << 3;

/// Mass erase.
pub const MER: u32 = 0b1u32 << 2;

/// Sector erase.
pub const SER: u32 = 0b1u32 << 1;

/// Programming.
pub const PG: u32 = 0b1u32 << 0;

/// Error interrupt enable, bit 25.
#[derive(Clone, Copy, PartialEq, Eq, Structural, Debug)]
pub enum Errie {
    Disable,
    Enable,
}

impl Errie {
    pub open spec fn spec_bits(self) -> u32 {
        match self {
            Errie::Disable => 0b0u32 << 25,
            Errie::Enable => 0b1u32 << 25,
        }
    }

    /// The value's position-shifted register encoding.
    pub fn bits(self) -> (r: u32)
        ensures
            r == self.spec_bits(),
    {
        match self {
            Errie::Disable => 0b0u32 << 25,
            Errie::Enable => 0b1u32 << 25,
        }
    }
}

/// End of operation interrupt enable, bit 24.
#[derive(Clone, Copy, PartialEq, Eq, Structural, Debug)]
pub enum Eopie {
    Disable,
    Enable,
}

impl Eopie {
    pub open spec fn spec_bits(self) -> u32 {
        match self {
            Eopie::Disable => 0b0u32 << 24,
            Eopie::Enable => 0b1u32 << 24,
        }
    }

    /// The value's position-shifted register encoding.
    pub fn bits(self) -> (r: u32)
        ensures
            r == self.spec_bits(),
    {
        match self {
            Eopie::Disable => 0b0u32 << 24,
            Eopie::Enable => 0b1u32 << 24,
        }
    }
}

/// Program size, bits 8..=9.
#[derive(Clone, Copy, PartialEq, Eq, Structural, Debug)]
pub enum Psize {
    X8,
    X16,
    X32,
    X64,
}

impl Psize {
    pub open spec fn spec_bits(self) -> u32 {
        match self {
            Psize::X8 => 0b00u32 << 8,
            Psize::X16 => 0b01u32 << 8,
            Psize::X32 => 0b10u32 << 8,
            Psize::X64 => 0b11u32 << 8,
        }
    }

    /// The value's position-shifted register encoding.
    pub fn bits(self) -> (r: u32)
        ensures
            r == self.spec_bits(),
    {
        match self {
            Psize::X8 => 0b00u32 << 8,
            Psize::X16 => 0b01u32 << 8,
            Psize::X32 => 0b10u32 << 8,
            Psize::X64 => 0b11u32 << 8,
        }
    }
}

} // verus!
