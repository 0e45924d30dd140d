//! Clock control register bits of the reset and clock controller.

use vstd::prelude::*;

verus! {

/// Internal oscillator enable, bit 0.
pub const HSION: u32 = 0b1u32 << 0;

/// Internal oscillator ready flag, bit 1.
pub const HSIRDY: u32 = 0b1u32 << 1;

/// Internal oscillator trimming, bits 3..=7.
pub const HSITRIM_MASK: u32 = 0x1Fu32 << 3;

/// Bit offset of the trimming field.
pub const HSITRIM_SHIFT: u32 = 3;

/// Main PLL enable, bit 24.
pub const PLLON: u32 = 0b1u32 << 24;

/// Main PLL lock flag, bit 25.
pub const PLLRDY: u32 = 0b1u32 << 25;

} // verus!
