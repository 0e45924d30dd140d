//! Serial peripheral interface controllers: base addresses, register
//! map, bitfield catalog, and the polled master transfer engine.

pub mod cr1;
pub mod cr2;
pub mod i2scfgr;
pub mod i2spr;
pub mod master;
pub mod sr;

use vstd::prelude::*;

verus! {

pub const SPI2_BASE: u32 = 0x4000_3800;

pub const SPI3_BASE: u32 = 0x4000_3C00;

pub const SPI1_BASE: u32 = 0x4001_3000;

pub const SPI4_BASE: u32 = 0x4001_3400;

/// The register values of one SPI controller, in layout order from its
/// base address.
#[derive(Clone, Copy, PartialEq, Eq, Structural, Debug)]
pub struct RegisterMap {
    pub cr1: u32,
    pub cr2: u32,
    pub sr: u32,
    pub dr: u32,
    pub crcpr: u32,
    pub rxcrcr: u32,
    pub txcrcr: u32,
    pub i2scfgr: u32,
    pub i2spr: u32,
}

impl RegisterMap {
    /// The all-zero register state.
    pub open spec fn spec_zeroed() -> RegisterMap {
        RegisterMap {
            cr1: 0u32,
            cr2: 0u32,
            sr: 0u32,
            dr: 0u32,
            crcpr: 0u32,
            rxcrcr: 0u32,
            txcrcr: 0u32,
            i2scfgr: 0u32,
            i2spr: 0u32,
        }
    }

    /// A map whose registers all read zero, as a known starting state
    /// for the simulated device.
    pub fn zeroed() -> (m: RegisterMap)
        ensures
            m == RegisterMap::spec_zeroed(),
    {
        RegisterMap { cr1: 0, cr2: 0, sr: 0, dr: 0, crcpr: 0, rxcrcr: 0, txcrcr: 0, i2scfgr: 0, i2spr: 0 }
    }
}

} // verus!
