//! Compensation cell control register values of the system configuration controller.

use vstd::prelude::*;

verus! {

/// Compensation cell ready flag, bit 8.
#[derive(Clone, Copy, PartialEq, Eq, Structural, Debug)]
pub enum Ready {
    NotReady,
    Ready,
}

impl Ready {
    pub open spec fn spec_bits(self) -> u32 {
        match self {
            Ready::NotReady => 0b0u32 << 8,
            Ready::Ready => 0b1u32 << 8,
        }
    }

    /// The value's position-shifted register encoding.
    pub fn bits(self) -> (r: u32)
        ensures
            r == self.spec_bits(),
    {
        match self {
            Ready::NotReady => 0b0u32 << 8,
            Ready::Ready => 0b1u32 << 8,
        }
    }
}

/// Compensation cell power-down, bit 0.
#[derive(Clone, Copy, PartialEq, Eq, Structural, Debug)]
pub enum CmpPd {
    PowerDownMode,
    Enabled,
}

impl CmpPd {
    pub open spec fn spec_bits(self) -> u32 {
        match self {
            CmpPd::PowerDownMode => 0b0u32 << 0,
            CmpPd::Enabled => 0b1u32 << 0,
        }
    }

    /// The value's position-shifted register encoding.
    pub fn bits(self) -> (r: u32)
        ensures
            r == self.spec_bits(),
    {
        match self {
            CmpPd::PowerDownMode => 0b0u32 << 0,
            CmpPd::Enabled => 0b1u32 << 0,
        }
    }
}

} // verus!
