//! Flash memory controller: base address, register map, and bitfield
//! catalog.

pub mod acr;
pub mod cr;
pub mod optcr;
pub mod sr;

use vstd::prelude::*;

verus! {

/// Base address of the peripheral.
pub const FLASH_BASE: u32 = 0x4002_3C00;

/// The register values of the peripheral, in layout order from its
/// base address; reserved words between them are not modelled.
#[derive(Clone, Copy, PartialEq, Eq, Structural, Debug)]
pub struct RegisterMap {
    pub acr: u32,
    pub keyr: u32,
    pub optkeyr: u32,
    pub sr: u32,
    pub cr: u32,
    pub optcr: u32,
}

impl RegisterMap {
    /// The all-zero register state.
    pub open spec fn spec_zeroed() -> RegisterMap {
        RegisterMap {
            acr: 0u32,
            keyr: 0u32,
            optkeyr: 0u32,
            sr: 0u32,
            cr: 0u32,
            optcr: 0u32,
        }
    }

    /// A map whose registers all read zero, as a known starting
    /// state for the simulated device.
    pub fn zeroed() -> (m: RegisterMap)
        ensures
            m == RegisterMap::spec_zeroed(),
    {
        RegisterMap {
            acr: 0,
            keyr: 0,
            optkeyr: 0,
            sr: 0,
            cr: 0,
            optcr: 0,
        }
    }
}

} // verus!
