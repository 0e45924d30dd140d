//! Software interrupt event register values of the external interrupt controller.

use vstd::prelude::*;

verus! {

/// Software interrupt on one line.
#[derive(Clone, Copy, PartialEq, Eq, Structural, Debug)]
pub enum Swierx {
    NotAllow,
    Allow,
}

impl Swierx {
    pub open spec fn spec_bits(self) -> u32 {
        match self {
            Swierx::NotAllow => 0b0u32,
            Swierx::Allow => 0b1u32,
        }
    }

    /// The value's position-shifted register encoding.
    pub fn bits(self) -> (r: u32)
        ensures
            r == self.spec_bits(),
    {
        match self {
            Swierx::NotAllow => 0b0u32,
            Swierx::Allow => 0b1u32,
        }
    }
}

} // verus!
