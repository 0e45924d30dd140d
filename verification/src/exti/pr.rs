//! Pending register values of the external interrupt controller.

use vstd::prelude::*;

verus! {

/// Pending bit of one line.
#[derive(Clone, Copy, PartialEq, Eq, Structural, Debug)]
pub enum Prx {
    NotRequested,
    Requested,
}

impl Prx {
    pub open spec fn spec_bits(self) -> u32 {
        match self {
            Prx::NotRequested => 0b0u32,
            Prx::Requested => 0b1u32,
        }
    }

    /// The value's position-shifted register encoding.
    pub fn bits(self) -> (r: u32)
        ensures
            r == self.spec_bits(),
    {
        match self {
            Prx::NotRequested => 0b0u32,
            Prx::Requested => 0b1u32,
        }
    }
}

} // verus!
