//! General-purpose I/O banks: register layout, bitfield catalog, and the
//! pin configurator.
//!
//! A bank has four per-pin configuration fields (mode, output type,
//! speed, pull) packed across four registers, plus two 4-bit-per-pin
//! alternate-function sub-registers: pins 0..=7 select in `afrl`, pins
//! 8..=15 in `afrh`.

use vstd::prelude::*;

use crate::register::lemma_set_field_idempotent;
use crate::register::spec_get_field;
use crate::register::spec_set_field;
use crate::register::set_field;

verus! {

pub const GPIOA_BASE: u32 = 0x4002_0000;

pub const GPIOB_BASE: u32 = 0x4002_0400;

pub const GPIOC_BASE: u32 = 0x4002_0800;

pub const GPIOD_BASE: u32 = 0x4002_0C00;

pub const GPIOE_BASE: u32 = 0x4002_1000;

pub const GPIOH_BASE: u32 = 0x4002_1C00;

/// Pin mode: the 2-bit per-pin field of `moder`.
#[derive(Clone, Copy, PartialEq, Eq, Structural, Debug)]
pub enum Moder {
    Input,
    Output,
    Alternate,
    Analog,
}

impl Moder {
    pub open spec fn spec_bits(self) -> u32 {
        match self {
            Moder::Input => 0b00,
            Moder::Output => 0b01,
            Moder::Alternate => 0b10,
            Moder::Analog => 0b11,
        }
    }

    pub fn bits(self) -> (r: u32)
        ensures
            r == self.spec_bits(),
    {
        match self {
            Moder::Input => 0b00,
            Moder::Output => 0b01,
            Moder::Alternate => 0b10,
            Moder::Analog => 0b11,
        }
    }
}

/// Output type: the 1-bit per-pin field of `otyper`.
#[derive(Clone, Copy, PartialEq, Eq, Structural, Debug)]
pub enum Typer {
    PushPull,
    OpenDrain,
}

impl Typer {
    pub open spec fn spec_bits(self) -> u32 {
        match self {
            Typer::PushPull => 0b0,
            Typer::OpenDrain => 0b1,
        }
    }

    pub fn bits(self) -> (r: u32)
        ensures
            r == self.spec_bits(),
    {
        match self {
            Typer::PushPull => 0b0,
            Typer::OpenDrain => 0b1,
        }
    }
}

/// Output speed: the 2-bit per-pin field of `ospeedr`.
#[derive(Clone, Copy, PartialEq, Eq, Structural, Debug)]
pub enum Ospeedr {
    Low,
    Medium,
    Fast,
    High,
}

impl Ospeedr {
    pub open spec fn spec_bits(self) -> u32 {
        match self {
            Ospeedr::Low => 0b00,
            Ospeedr::Medium => 0b01,
            Ospeedr::Fast => 0b10,
            Ospeedr::High => 0b11,
        }
    }

    pub fn bits(self) -> (r: u32)
        ensures
            r == self.spec_bits(),
    {
        match self {
            Ospeedr::Low => 0b00,
            Ospeedr::Medium => 0b01,
            Ospeedr::Fast => 0b10,
            Ospeedr::High => 0b11,
        }
    }
}

/// Pull configuration: the 2-bit per-pin field of `pupdr`.
#[derive(Clone, Copy, PartialEq, Eq, Structural, Debug)]
pub enum Pupdr {
    NoPuPd,
    PullUp,
    PuuDown,
}

impl Pupdr {
    pub open spec fn spec_bits(self) -> u32 {
        match self {
            Pupdr::NoPuPd => 0b00,
            Pupdr::PullUp => 0b01,
            Pupdr::PuuDown => 0b10,
        }
    }

    pub fn bits(self) -> (r: u32)
        ensures
            r == self.spec_bits(),
    {
        match self {
            Pupdr::NoPuPd => 0b00,
            Pupdr::PullUp => 0b01,
            Pupdr::PuuDown => 0b10,
        }
    }
}

/// The register values of one GPIO bank, in layout order from the bank's
/// base address: moder, otyper, ospeedr, pupdr, idr, odr, bsrr, lckr,
/// afrl, afrh, each one 32-bit word.
#[derive(Clone, Copy, PartialEq, Eq, Structural, Debug)]
pub struct RegisterMap {
    pub moder: u32,
    pub otyper: u32,
    pub ospeedr: u32,
    pub pupdr: u32,
    pub idr: u32,
    pub odr: u32,
    pub bsrr: u32,
    pub lckr: u32,
    pub afrl: u32,
    pub afrh: u32,
}

impl RegisterMap {
    /// The all-zero register state.
    pub open spec fn spec_zeroed() -> RegisterMap {
        RegisterMap {
            moder: 0u32,
            otyper: 0u32,
            ospeedr: 0u32,
            pupdr: 0u32,
            idr: 0u32,
            odr: 0u32,
            bsrr: 0u32,
            lckr: 0u32,
            afrl: 0u32,
            afrh: 0u32,
        }
    }

    /// A bank whose registers all read zero, as a known starting state
    /// for the simulated device.
    pub fn zeroed() -> (g: RegisterMap)
        ensures
            g == RegisterMap::spec_zeroed(),
    {
        RegisterMap {
            moder: 0,
            otyper: 0,
            ospeedr: 0,
            pupdr: 0,
            idr: 0,
            odr: 0,
            bsrr: 0,
            lckr: 0,
            afrl: 0,
            afrh: 0,
        }
    }
}

/// One pin's electrical configuration: mode, output type, speed, pull,
/// and the 4-bit alternate-function selector.
#[derive(Clone, Copy, PartialEq, Eq, Structural, Debug)]
pub struct PinConfig {
    pub mode: Moder,
    pub otype: Typer,
    pub speed: Ospeedr,
    pub pull: Pupdr,
    pub af: u32,
}

impl PinConfig {
    /// The alternate-function selector fits its 4-bit field.
    pub open spec fn wf(self) -> bool {
        self.af < 16
    }
}

/// The bank state after configuring one pin: each per-pin field is
/// rewritten in its register, all other pins' fields and all other
/// registers are untouched.  The alternate-function selector lands in
/// `afrl` at bit `pin * 4` for pins below 8 and in `afrh` at bit
/// `(pin - 8) * 4` for the rest.
pub open spec fn spec_configure(g: RegisterMap, pin: u32, c: PinConfig) -> RegisterMap
    recommends
        pin < 16,
        c.wf(),
{
    RegisterMap {
        moder: spec_set_field(g.moder, (pin * 2) as u32, 2, c.mode.spec_bits()),
        otyper: spec_set_field(g.otyper, pin, 1, c.otype.spec_bits()),
        ospeedr: spec_set_field(g.ospeedr, (pin * 2) as u32, 2, c.speed.spec_bits()),
        pupdr: spec_set_field(g.pupdr, (pin * 2) as u32, 2, c.pull.spec_bits()),
        idr: g.idr,
        odr: g.odr,
        bsrr: g.bsrr,
        lckr: g.lckr,
        afrl: if pin < 8 {
            spec_set_field(g.afrl, (pin * 4) as u32, 4, c.af)
        } else {
            g.afrl
        },
        afrh: if pin < 8 {
            g.afrh
        } else {
            spec_set_field(g.afrh, ((pin - 8) * 4) as u32, 4, c.af)
        },
    }
}

/// Apply one pin's configuration to a bank by read-modify-write of each
/// per-pin field.
pub fn configure(g: &mut RegisterMap, pin: u32, c: &PinConfig)
    requires
        pin < 16,
        c.wf(),
    ensures
        *final(g) == spec_configure(*old(g), pin, *c),
{
    g.moder = set_field(g.moder, pin * 2, 2, c.mode.bits());
    g.ospeedr = set_field(g.ospeedr, pin * 2, 2, c.speed.bits());
    g.pupdr = set_field(g.pupdr, pin * 2, 2, c.pull.bits());
    g.otyper = set_field(g.otyper, pin, 1, c.otype.bits());
    if pin < 8 {
        g.afrl = set_field(g.afrl, pin * 4, 4, c.af);
    } else {
        g.afrh = set_field(g.afrh, (pin - 8) * 4, 4, c.af);
    }
}

/// Configuring a pin twice with the same settings leaves the bank
/// exactly as the first configuration did.
pub proof fn lemma_configure_idempotent(g: RegisterMap, pin: u32, c: PinConfig)
    requires
        pin < 16,
        c.wf(),
    ensures
        spec_configure(spec_configure(g, pin, c), pin, c) == spec_configure(g, pin, c),
{
    lemma_set_field_idempotent(g.moder, (pin * 2) as u32, 2, c.mode.spec_bits());
    lemma_set_field_idempotent(g.otyper, pin, 1, c.otype.spec_bits());
    lemma_set_field_idempotent(g.ospeedr, (pin * 2) as u32, 2, c.speed.spec_bits());
    lemma_set_field_idempotent(g.pupdr, (pin * 2) as u32, 2, c.pull.spec_bits());
    if pin < 8 {
        lemma_set_field_idempotent(g.afrl, (pin * 4) as u32, 4, c.af);
    } else {
        lemma_set_field_idempotent(g.afrh, ((pin - 8) * 4) as u32, 4, c.af);
    }
}

/// Alternate-function selection straddles the sub-register boundary:
/// pin 7 writes the top field of `afrl` (bit offset 28) and leaves
/// `afrh` alone; pin 8 writes the bottom field of `afrh` (bit offset 0)
/// and leaves `afrl` alone.
pub proof fn lemma_af_subregister(g: RegisterMap, c: PinConfig)
    requires
        c.wf(),
    ensures
        spec_configure(g, 7, c).afrl == spec_set_field(g.afrl, 28, 4, c.af),
        spec_configure(g, 7, c).afrh == g.afrh,
        spec_configure(g, 8, c).afrh == spec_set_field(g.afrh, 0, 4, c.af),
        spec_configure(g, 8, c).afrl == g.afrl,
{
}

/// Drive one output pin high in the output data register.
pub fn set_pin(g: &mut RegisterMap, pin: u32)
    requires
        pin < 16,
    ensures
        final(g).odr == old(g).odr | (1u32 << pin),
        *final(g) == (RegisterMap { odr: final(g).odr, ..*old(g) }),
{
    g.odr = g.odr | (1u32 << pin);
}

/// Drive one output pin low in the output data register.
pub fn clear_pin(g: &mut RegisterMap, pin: u32)
    requires
        pin < 16,
    ensures
        final(g).odr == old(g).odr & !(1u32 << pin),
        *final(g) == (RegisterMap { odr: final(g).odr, ..*old(g) }),
{
    g.odr = g.odr & !(1u32 << pin);
}

/// Invert one output pin in the output data register.
pub fn toggle_pin(g: &mut RegisterMap, pin: u32)
    requires
        pin < 16,
    ensures
        final(g).odr == old(g).odr ^ (1u32 << pin),
        *final(g) == (RegisterMap { odr: final(g).odr, ..*old(g) }),
{
    g.odr = g.odr ^ (1u32 << pin);
}

/// The level a pin's field of a data register reads as.
pub fn pin_level(reg: u32, pin: u32) -> (r: bool)
    requires
        pin < 16,
    ensures
        r == (spec_get_field(reg, pin, 1) == 1),
{
    crate::register::get_field(reg, pin, 1) == 1
}

} // verus!
