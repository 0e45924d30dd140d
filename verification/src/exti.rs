//! External interrupt controller: base address, register map, and
//! bitfield catalog.

pub mod emr;
pub mod ftsr;
pub mod imr;
pub mod pr;
pub mod rtsr;
pub mod swier;

use vstd::prelude::*;

verus! {

/// Base address of the peripheral.
pub const EXTI_BASE: u32 = 0x4001_3C00;

/// The register values of the peripheral, in layout order from its
/// base address; reserved words between them are not modelled.
#[derive(Clone, Copy, PartialEq, Eq, Structural, Debug)]
pub struct RegisterMap {
    pub imr: u32,
    pub emr: u32,
    pub rtsr: u32,
    pub ftsr: u32,
    pub swier: u32,
    pub pr: u32,
}

impl RegisterMap {
    /// The all-zero register state.
    pub open spec fn spec_zeroed() -> RegisterMap {
        RegisterMap {
            imr: 0u32,
            emr: 0u32,
            rtsr: 0u32,
            ftsr: 0u32,
            swier: 0u32,
            pr: 0u32,
        }
    }

    /// A map whose registers all read zero, as a known starting
    /// state for the simulated device.
    pub fn zeroed() -> (m: RegisterMap)
        ensures
            m == RegisterMap::spec_zeroed(),
    {
        RegisterMap {
            imr: 0,
            emr: 0,
            rtsr: 0,
            ftsr: 0,
            swier: 0,
            pr: 0,
        }
    }
}

} // verus!
