//! Reset and clock controller: base address, register map, and the
//! bitfield catalog of the registers the bring-up sequence touches.

pub mod ahb1enr;
pub mod apb1enr;
pub mod cfgr;
pub mod cr;
pub mod dckcfgr;
pub mod pllcfgr;

use vstd::prelude::*;

verus! {

/// Base address of the peripheral.
pub const RCC_BASE: u32 = 0x4002_3800;

/// GPIO bank A clock enable in the AHB1 enable register.
pub const RCC_AHB1ENR_GPIOAEN: u32 = 0x0000_0001;

/// The register values of the peripheral, in layout order from its
/// base address; reserved words between them are not modelled.
#[derive(Clone, Copy, PartialEq, Eq, Structural, Debug)]
pub struct RegisterMap {
    pub cr: u32,
    pub pllcfgr: u32,
    pub cfgr: u32,
    pub cir: u32,
    pub ahb1rstr: u32,
    pub ahb2rstr: u32,
    pub apb1rstr: u32,
    pub apb2rstr: u32,
    pub ahb1enr: u32,
    pub ahb2enr: u32,
    pub apb1enr: u32,
    pub apb2enr: u32,
    pub ahb1lpenr: u32,
    pub ahb2lpenr: u32,
    pub apb1lpenr: u32,
    pub apb2lpenr: u32,
    pub bdcr: u32,
    pub csr: u32,
    pub sscgr: u32,
    pub plli2scfgr: u32,
    pub dckcfgr: u32,
}

impl RegisterMap {
    /// The all-zero register state.
    pub open spec fn spec_zeroed() -> RegisterMap {
        RegisterMap {
            cr: 0u32,
            pllcfgr: 0u32,
            cfgr: 0u32,
            cir: 0u32,
            ahb1rstr: 0u32,
            ahb2rstr: 0u32,
            apb1rstr: 0u32,
            apb2rstr: 0u32,
            ahb1enr: 0u32,
            ahb2enr: 0u32,
            apb1enr: 0u32,
            apb2enr: 0u32,
            ahb1lpenr: 0u32,
            ahb2lpenr: 0u32,
            apb1lpenr: 0u32,
            apb2lpenr: 0u32,
            bdcr: 0u32,
            csr: 0u32,
            sscgr: 0u32,
            plli2scfgr: 0u32,
            dckcfgr: 0u32,
        }
    }

    /// A map whose registers all read zero, as a known starting
    /// state for the simulated device.
    pub fn zeroed() -> (m: RegisterMap)
        ensures
            m == RegisterMap::spec_zeroed(),
    {
        RegisterMap {
            cr: 0,
            pllcfgr: 0,
            cfgr: 0,
            cir: 0,
            ahb1rstr: 0,
            ahb2rstr: 0,
            apb1rstr: 0,
            apb2rstr: 0,
            ahb1enr: 0,
            ahb2enr: 0,
            apb1enr: 0,
            apb2enr: 0,
            ahb1lpenr: 0,
            ahb2lpenr: 0,
            apb1lpenr: 0,
            apb2lpenr: 0,
            bdcr: 0,
            csr: 0,
            sscgr: 0,
            plli2scfgr: 0,
            dckcfgr: 0,
        }
    }
}

} // verus!
