//! Rising trigger selection register values of the external interrupt controller.

use vstd::prelude::*;

verus! {

/// Rising trigger event configuration of one line.
#[derive(Clone, Copy, PartialEq, Eq, Structural, Debug)]
pub enum Trx {
    Disable,
    Enable,
}

impl Trx {
    pub open spec fn spec_bits(self) -> u32 {
        match self {
            Trx::Disable => 0b0u32,
            Trx::Enable => 0b1u32,
        }
    }

    /// The value's position-shifted register encoding.
    pub fn bits(self) -> (r: u32)
        ensures
            r == self.spec_bits(),
    {
        match self {
            Trx::Disable => 0b0u32,
            Trx::Enable => 0b1u32,
        }
    }
}

} // verus!
