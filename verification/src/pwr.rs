//! Power controller: base address, register map, and bitfield catalog.

pub mod cr;
pub mod csr;

use vstd::prelude::*;

verus! {

/// Base address of the peripheral.
pub const PWR_BASE: u32 = 0x4000_7000;

/// The register values of the peripheral, in layout order from its
/// base address; reserved words between them are not modelled.
#[derive(Clone, Copy, PartialEq, Eq, Structural, Debug)]
pub struct RegisterMap {
    pub cr: u32,
    pub csr: u32,
}

impl RegisterMap {
    /// The all-zero register state.
    pub open spec fn spec_zeroed() -> RegisterMap {
        RegisterMap {
            cr: 0u32,
            csr: 0u32,
        }
    }

    /// A map whose registers all read zero, as a known starting
    /// state for the simulated device.
    pub fn zeroed() -> (m: RegisterMap)
        ensures
            m == RegisterMap::spec_zeroed(),
    {
        RegisterMap {
            cr: 0,
            csr: 0,
        }
    }
}

} // verus!
