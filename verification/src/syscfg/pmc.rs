//! Peripheral mode configuration register values of the system configuration controller.

use vstd::prelude::*;

verus! {

/// Analog-to-digital converter DC tweak, bit 16.
#[derive(Clone, Copy, PartialEq, Eq, Structural, Debug)]
pub enum Adc1Dc2 {
    NoEffect,
    Effect,
}

impl Adc1Dc2 {
    pub open spec fn spec_bits(self) -> u32 {
        match self {
            Adc1Dc2::NoEffect => 0b0u32 << 16,
            Adc1Dc2::Effect => 0b1u32 << 16,
        }
    }

    /// The value's position-shifted register encoding.
    pub fn bits(self) -> (r: u32)
        ensures
            r == self.spec_bits(),
    {
        match self {
            Adc1Dc2::NoEffect => 0b0u32 << 16,
            Adc1Dc2::Effect => 0b1u32 << 16,
        }
    }
}

} // verus!
