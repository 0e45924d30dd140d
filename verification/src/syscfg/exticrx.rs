//! External interrupt source selection register values of the system configuration controller.

use vstd::prelude::*;

verus! {

/// Source bank for one external interrupt line.
#[derive(Clone, Copy, PartialEq, Eq, Structural, Debug)]
pub enum Extix {
    PAxPin,
    PBxPin,
    PCxPin,
    PDxPin,
    PExPin,
    PHxPin,
}

impl Extix {
    pub open spec fn spec_bits(self) -> u32 {
        match self {
            Extix::PAxPin => 0b0000u32,
            Extix::PBxPin => 0b0001u32,
            Extix::PCxPin => 0b0010u32,
            Extix::PDxPin => 0b0011u32,
            Extix::PExPin => 0b0100u32,
            Extix::PHxPin => 0b0111u32,
        }
    }

    /// The value's position-shifted register encoding.
    pub fn bits(self) -> (r: u32)
        ensures
            r == self.spec_bits(),
    {
        match self {
            Extix::PAxPin => 0b0000u32,
            Extix::PBxPin => 0b0001u32,
            Extix::PCxPin => 0b0010u32,
            Extix::PDxPin => 0b0011u32,
            Extix::PExPin => 0b0100u32,
            Extix::PHxPin => 0b0111u32,
        }
    }
}

} // verus!
