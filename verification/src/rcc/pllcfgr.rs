//! PLL configuration register fields of the reset and clock controller.

use vstd::prelude::*;

verus! {

/// Division factor for the PLL input, bits 0..=5.
pub const PLLM_MASK: u32 = 0x3Fu32;

/// Multiplication factor for the PLL, bits 6..=14.
pub const PLLN_MASK: u32 = 0x1FFu32 << 6;

/// Bit offset of the multiplication factor.
pub const PLLN_SHIFT: u32 = 6;

/// Division factor for the system clock, bits 16..=17.
pub const PLLP_MASK: u32 = 0b11u32 << 16;

/// System clock division by four.
pub const PLLP_DIV4: u32 = 0b01u32 << 16;

/// PLL source selection, bit 22.
pub const PLLSRC_MASK: u32 = 0b1u32 << 22;

/// PLL fed from the internal oscillator.
pub const PLLSRC_HSI: u32 = 0b0u32 << 22;

} // verus!
