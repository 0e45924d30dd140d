//! Control and status register bitfields of the power controller.

use vstd::prelude::*;

verus! {

/// Backup regulator ready.
pub const BRR: u32 = 0b1u32 << 3;

/// Power voltage detector output.
pub const PVD: u32 = 0b1u32 << 2;

/// Standby flag.
pub const SBF: u32 = 0b1u32 << 1;

/// Wakeup flag.
pub const WUF: u32 = 0b1u32 << 0;

/// Regulator voltage scaling output selection ready, bit 14.
#[derive(Clone, Copy, PartialEq, Eq, Structural, Debug)]
pub enum Vosrdy {
    NotReady,
    Ready,
}

impl Vosrdy {
    pub open spec fn spec_bits(self) -> u32 {
        match self {
            Vosrdy::NotReady => 0b0u32 << 14,
            Vosrdy::Ready => 0b1u32 << 14,
        }
    }

    /// The value's position-shifted register encoding.
    pub fn bits(self) -> (r: u32)
        ensures
            r == self.spec_bits(),
    {
        match self {
            Vosrdy::NotReady => 0b0u32 << 14,
            Vosrdy::Ready => 0b1u32 << 14,
        }
    }
}

/// Backup regulator enable, bit 9.
#[derive(Clone, Copy, PartialEq, Eq, Structural, Debug)]
pub enum Bre {
    Disable,
    Enable,
}

impl Bre {
    pub open spec fn spec_bits(self) -> u32 {
        match self {
            Bre::Disable => 0b0u32 << 9,
            Bre::Enable => 0b1u32 << 9,
        }
    }

    /// The value's position-shifted register encoding.
    pub fn bits(self) -> (r: u32)
        ensures
            r == self.spec_bits(),
    {
        match self {
            Bre::Disable => 0b0u32 << 9,
            Bre::Enable => 0b1u32 << 9,
        }
    }
}

/// Wakeup pin enable, bit 8.
#[derive(Clone, Copy, PartialEq, Eq, Structural, Debug)]
pub enum Ewup {
    Disable,
    Enable,
}

impl Ewup {
    pub open spec fn spec_bits(self) -> u32 {
        match self {
            Ewup::Disable => 0b0u32 << 8,
            Ewup::Enable => 0b1u32 << 8,
        }
    }

    /// The value's position-shifted register encoding.
    pub fn bits(self) -> (r: u32)
        ensures
            r == self.spec_bits(),
    {
        match self {
            Ewup::Disable => 0b0u32 << 8,
            Ewup::Enable => 0b1u32 << 8,
        }
    }
}

} // verus!
