//! Interrupt mask register values of the external interrupt controller.

use vstd::prelude::*;

verus! {

/// Interrupt mask on one line.
#[derive(Clone, Copy, PartialEq, Eq, Structural, Debug)]
pub enum Mrx {
    Mask,
    NotMask,
}

impl Mrx {
    pub open spec fn spec_bits(self) -> u32 {
        match self {
            Mrx::Mask => 0b0u32,
            Mrx::NotMask => 0b1u32,
        }
    }

    /// The value's position-shifted register encoding.
    pub fn bits(self) -> (r: u32)
        ensures
            r == self.spec_bits(),
    {
        match self {
            Mrx::Mask => 0b0u32,
            Mrx::NotMask => 0b1u32,
        }
    }
}

} // verus!
