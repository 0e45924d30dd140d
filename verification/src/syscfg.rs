//! System configuration controller: base address, register map, and
//! bitfield catalog.

pub mod cmpcr;
pub mod exticrx;
pub mod memrmp;
pub mod pmc;

use vstd::prelude::*;

verus! {

/// Base address of the peripheral.
pub const SYSCFG_BASE: u32 = 0x4001_3800;

/// The register values of the peripheral, in layout order from its
/// base address; reserved words between them are not modelled.
#[derive(Clone, Copy, PartialEq, Eq, Structural, Debug)]
pub struct RegisterMap {
    pub memrmp: u32,
    pub pmc: u32,
    pub exticr1: u32,
    pub exticr2: u32,
    pub exticr3: u32,
    pub exticr4: u32,
    pub cmpcr: u32,
}

impl RegisterMap {
    /// The all-zero register state.
    pub open spec fn spec_zeroed() -> RegisterMap {
        RegisterMap {
            memrmp: 0u32,
            pmc: 0u32,
            exticr1: 0u32,
            exticr2: 0u32,
            exticr3: 0u32,
            exticr4: 0u32,
            cmpcr: 0u32,
        }
    }

    /// A map whose registers all read zero, as a known starting
    /// state for the simulated device.
    pub fn zeroed() -> (m: RegisterMap)
        ensures
            m == RegisterMap::spec_zeroed(),
    {
        RegisterMap {
            memrmp: 0,
            pmc: 0,
            exticr1: 0,
            exticr2: 0,
            exticr3: 0,
            exticr4: 0,
            cmpcr: 0,
        }
    }
}

} // verus!
