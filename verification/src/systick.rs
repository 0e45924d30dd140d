//! The core tick timer: control/status, reload, and current-value
//! registers, with the programming steps the bring-up sequence uses.

use vstd::prelude::*;

verus! {

/// Counter enable, bit 0 of the control and status register.
pub const CSR_ENABLE: u32 = 0b1u32 << 0;

/// Clock source selection, bit 2 of the control and status register:
/// set selects the core clock.
pub const CSR_CLKSOURCE: u32 = 0b1u32 << 2;

/// The register values of the tick timer.
#[derive(Clone, Copy, PartialEq, Eq, Structural, Debug)]
pub struct SysTick {
    pub csr: u32,
    pub rvr: u32,
    pub cvr: u32,
}

impl SysTick {
    /// A timer whose registers all read zero, as a known starting state
    /// for the simulated device.
    pub fn zeroed() -> (t: SysTick)
        ensures
            t == (SysTick { csr: 0u32, rvr: 0u32, cvr: 0u32 }),
    {
        SysTick { csr: 0, rvr: 0, cvr: 0 }
    }

    /// Program the reload value the counter restarts from.
    pub fn set_reload(&mut self, value: u32)
        ensures
            *final(self) == (SysTick { rvr: value, ..*old(self) }),
    {
        self.rvr = value;
    }

    /// Clear the current counter value.
    pub fn clear_current(&mut self)
        ensures
            *final(self) == (SysTick { cvr: 0u32, ..*old(self) }),
    {
        self.cvr = 0;
    }

    /// Select the core clock as the counter's source.
    pub fn set_clock_source_core(&mut self)
        ensures
            *final(self) == (SysTick { csr: old(self).csr | CSR_CLKSOURCE, ..*old(self) }),
    {
        self.csr = self.csr | CSR_CLKSOURCE;
    }

    /// Start the counter.
    pub fn enable_counter(&mut self)
        ensures
            *final(self) == (SysTick { csr: old(self).csr | CSR_ENABLE, ..*old(self) }),
    {
        self.csr = self.csr | CSR_ENABLE;
    }
}

} // verus!
