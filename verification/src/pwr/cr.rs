//! Control register bitfields of the power controller.

use vstd::prelude::*;

verus! {

/// Regulator voltage scaling output selection, bits 14..=15.
pub const VOS_MASK: u32 = 0b11u32 << 14;

/// Main regulator low voltage in deep sleep.
pub const MRLVDS: u32 = 0b1u32 << 11;

/// Low-power regulator low voltage in deep sleep.
pub const LPLVDS: u32 = 0b1u32 << 10;

/// Flash power-down in stop mode.
pub const FPDS: u32 = 0b1u32 << 9;

/// Disable backup domain write protection.
pub const DBP: u32 = 0b1u32 << 8;

/// Low-power deepsleep.
pub const LPDS: u32 = 0b1u32 << 0;

/// Regulator voltage scaling output selection, bits 14..=15.
#[derive(Clone, Copy, PartialEq, Eq, Structural, Debug)]
pub enum Vos {
    Scale3Mode,
    Scale2Mode,
}

impl Vos {
    pub open spec fn spec_bits(self) -> u32 {
        match self {
            Vos::Scale3Mode => 0b01u32 << 14,
            Vos::Scale2Mode => 0b10u32 << 14,
        }
    }

    /// The value's position-shifted register encoding.
    pub fn bits(self) -> (r: u32)
        ensures
            r == self.spec_bits(),
    {
        match self {
            Vos::Scale3Mode => 0b01u32 << 14,
            Vos::Scale2Mode => 0b10u32 << 14,
        }
    }
}

/// Analog-to-digital converter supply tweak, bit 13.
#[derive(Clone, Copy, PartialEq, Eq, Structural, Debug)]
pub enum Adcdc1 {
    NoEffect,
    Effect,
}

impl Adcdc1 {
    pub open spec fn spec_bits(self) -> u32 {
        match self {
            Adcdc1::NoEffect => 0b0u32 << 13,
            Adcdc1::Effect => 0b1u32 << 13,
        }
    }

    /// The value's position-shifted register encoding.
    pub fn bits(self) -> (r: u32)
        ensures
            r == self.spec_bits(),
    {
        match self {
            Adcdc1::NoEffect => 0b0u32 << 13,
            Adcdc1::Effect => 0b1u32 << 13,
        }
    }
}

/// Power voltage detector level selection, bits 5..=7.
#[derive(Clone, Copy, PartialEq, Eq, Structural, Debug)]
pub enum Pls {
    _2_2V,
    _2_3V,
    _2_4V,
    _2_5V,
    _2_6V,
    _2_7V,
    _2_8V,
    _2_9V,
}

impl Pls {
    pub open spec fn spec_bits(self) -> u32 {
        match self {
            Pls::_2_2V => 0b000u32 << 5,
            Pls::_2_3V => 0b001u32 << 5,
            Pls::_2_4V => 0b010u32 << 5,
            Pls::_2_5V => 0b011u32 << 5,
            Pls::_2_6V => 0b100u32 << 5,
            Pls::_2_7V => 0b101u32 << 5,
            Pls::_2_8V => 0b110u32 << 5,
            Pls::_2_9V => 0b111u32 << 5,
        }
    }

    /// The value's position-shifted register encoding.
    pub fn bits(self) -> (r: u32)
        ensures
            r == self.spec_bits(),
    {
        match self {
            Pls::_2_2V => 0b000u32 << 5,
            Pls::_2_3V => 0b001u32 << 5,
            Pls::_2_4V => 0b010u32 << 5,
            Pls::_2_5V => 0b011u32 << 5,
            Pls::_2_6V => 0b100u32 << 5,
            Pls::_2_7V => 0b101u32 << 5,
            Pls::_2_8V => 0b110u32 << 5,
            Pls::_2_9V => 0b111u32 << 5,
        }
    }
}

/// Power voltage detector enable, bit 4.
#[derive(Clone, Copy, PartialEq, Eq, Structural, Debug)]
pub enum Pvde {
    Disable,
    Enable,
}

impl Pvde {
    pub open spec fn spec_bits(self) -> u32 {
        match self {
            Pvde::Disable => 0b0u32 << 4,
            Pvde::Enable => 0b1u32 << 4,
        }
    }

    /// The value's position-shifted register encoding.
    pub fn bits(self) -> (r: u32)
        ensures
            r == self.spec_bits(),
    {
        match self {
            Pvde::Disable => 0b0u32 << 4,
            Pvde::Enable => 0b1u32 << 4,
        }
    }
}

/// Clear standby flag, bit 3.
#[derive(Clone, Copy, PartialEq, Eq, Structural, Debug)]
pub enum Csbf {
    NoEffect,
    Effect,
}

impl Csbf {
    pub open spec fn spec_bits(self) -> u32 {
        match self {
            Csbf::NoEffect => 0b0u32 << 3,
            Csbf::Effect => 0b1u32 << 3,
        }
    }

    /// The value's position-shifted register encoding.
    pub fn bits(self) -> (r: u32)
        ensures
            r == self.spec_bits(),
    {
        match self {
            Csbf::NoEffect => 0b0u32 << 3,
            Csbf::Effect => 0b1u32 << 3,
        }
    }
}

/// Clear wakeup flag, bit 2.
#[derive(Clone, Copy, PartialEq, Eq, Structural, Debug)]
pub enum Cwuf {
    NoEffect,
    Effect,
}

impl Cwuf {
    pub open spec fn spec_bits(self) -> u32 {
        match self {
            Cwuf::NoEffect => 0b0u32 << 2,
            Cwuf::Effect => 0b1u32 << 2,
        }
    }

    /// The value's position-shifted register encoding.
    pub fn bits(self) -> (r: u32)
        ensures
            r == self.spec_bits(),
    {
        match self {
            Cwuf::NoEffect => 0b0u32 << 2,
            Cwuf::Effect => 0b1u32 << 2,
        }
    }
}

/// Power-down deepsleep, bit 1.
#[derive(Clone, Copy, PartialEq, Eq, Structural, Debug)]
pub enum Pdds {
    StopMode,
    StandbyMode,
}

impl Pdds {
    pub open spec fn spec_bits(self) -> u32 {
        match self {
            Pdds::StopMode => 0b0u32 << 1,
            Pdds::StandbyMode => 0b1u32 << 1,
        }
    }

    /// The value's position-shifted register encoding.
    pub fn bits(self) -> (r: u32)
        ensures
            r == self.spec_bits(),
    {
        match self {
            Pdds::StopMode => 0b0u32 << 1,
            Pdds::StandbyMode => 0b1u32 << 1,
        }
    }
}

} // verus!
