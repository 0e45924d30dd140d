//! Memory remap register values of the system configuration controller.

use vstd::prelude::*;

verus! {

/// Memory mapping selection, bits 0..=1.
#[derive(Clone, Copy, PartialEq, Eq, Structural, Debug)]
pub enum MemMode {
    MainFlashMemory,
    SystemFlashMemory,
    EmbeddedSram,
}

impl MemMode {
    pub open spec fn spec_bits(self) -> u32 {
        match self {
            MemMode::MainFlashMemory => 0b00u32 << 0,
            MemMode::SystemFlashMemory => 0b01u32 << 0,
            MemMode::EmbeddedSram => 0b11u32 << 0,
        }
    }

    /// The value's position-shifted register encoding.
    pub fn bits(self) -> (r: u32)
        ensures
            r == self.spec_bits(),
    {
        match self {
            MemMode::MainFlashMemory => 0b00u32 << 0,
            MemMode::SystemFlashMemory => 0b01u32 << 0,
            MemMode::EmbeddedSram => 0b11u32 << 0,
        }
    }
}

} // verus!
