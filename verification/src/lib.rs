//! Register-access and bring-up layer for an STM32F401RE (Cortex-M4)
//! microcontroller, modelled over plain register values.
//!
//! Every peripheral is described by a `RegisterMap` of 32-bit register
//! values together with a catalog of bitfield positions and enumerated
//! legal values.  The bring-up procedures (clock tree configuration,
//! GPIO pin configuration, SPI master transfers) are verified functions
//! over these values; the thin unverified shell that performs the
//! volatile loads and stores at the documented base addresses applies
//! the register transformations computed here.

pub mod board;
pub mod clock;
pub mod exti;
pub mod flash;
pub mod gpio;
pub mod nvic;
pub mod poll;
pub mod pwr;
pub mod rcc;
pub mod register;
pub mod spi;
pub mod syscfg;
pub mod systick;
