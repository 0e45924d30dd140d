//! Bitfield primitive and GPIO configurator behaviour on concrete
//! register values.

use stm32f401re::gpio;
use stm32f401re::gpio::Moder;
use stm32f401re::gpio::Ospeedr;
use stm32f401re::gpio::PinConfig;
use stm32f401re::gpio::Pupdr;
use stm32f401re::gpio::Typer;
use stm32f401re::register::get_field;
use stm32f401re::register::set_field;

fn led_config() -> PinConfig {
    PinConfig {
        mode: Moder::Output,
        otype: Typer::PushPull,
        speed: Ospeedr::High,
        pull: Pupdr::NoPuPd,
        af: 0,
    }
}

#[test]
fn set_field_replaces_only_the_field() {
    // Field of width 4 at bit 8, everything else already set.
    let reg: u32 = 0xFFFF_FFFF;
    let r = set_field(reg, 8, 4, 0x5);
    assert_eq!(r, 0xFFFF_F5FF);
    // Bits outside the field kept their old value.
    assert_eq!(r & !(0xF << 8), reg & !(0xF << 8));
    // Bits inside the field read back as the written value.
    assert_eq!(get_field(r, 8, 4), 0x5);
}

#[test]
fn set_field_masks_an_oversized_value() {
    let r = set_field(0, 4, 2, 0xFF);
    assert_eq!(r, 0b11 << 4);
    assert_eq!(get_field(r, 4, 2), 0b11);
}

#[test]
fn configure_writes_every_per_pin_field() {
    let mut bank = gpio::RegisterMap::zeroed();
    gpio::configure(&mut bank, 5, &led_config());
    assert_eq!(bank.moder, 0b01 << 10);
    assert_eq!(bank.otyper, 0);
    assert_eq!(bank.ospeedr, 0b11 << 10);
    assert_eq!(bank.pupdr, 0);
    assert_eq!(bank.afrl, 0);
    assert_eq!(bank.afrh, 0);
}

#[test]
fn configure_leaves_other_pins_alone() {
    let mut bank = gpio::RegisterMap::zeroed();
    bank.moder = 0xFFFF_FFFF;
    gpio::configure(&mut bank, 0, &led_config());
    // Pin 0's mode field rewritten, pins 1..=15 untouched.
    assert_eq!(bank.moder, 0xFFFF_FFFD);
}

#[test]
fn configure_twice_is_idempotent() {
    let cfg = PinConfig {
        mode: Moder::Alternate,
        otype: Typer::OpenDrain,
        speed: Ospeedr::Medium,
        pull: Pupdr::PullUp,
        af: 11,
    };
    let mut once = gpio::RegisterMap::zeroed();
    once.moder = 0xDEAD_BEEF;
    once.afrh = 0x1234_5678;
    let mut twice = once;
    gpio::configure(&mut once, 9, &cfg);
    gpio::configure(&mut twice, 9, &cfg);
    gpio::configure(&mut twice, 9, &cfg);
    assert_eq!(once, twice);
}

#[test]
fn alternate_function_pin7_lands_high_in_afrl() {
    let mut bank = gpio::RegisterMap::zeroed();
    let mut cfg = led_config();
    cfg.af = 0xF;
    gpio::configure(&mut bank, 7, &cfg);
    assert_eq!(bank.afrl, 0xF << 28);
    assert_eq!(bank.afrh, 0);
}

#[test]
fn alternate_function_pin8_lands_low_in_afrh() {
    let mut bank = gpio::RegisterMap::zeroed();
    let mut cfg = led_config();
    cfg.af = 0xF;
    gpio::configure(&mut bank, 8, &cfg);
    assert_eq!(bank.afrh, 0xF);
    assert_eq!(bank.afrl, 0);
}

#[test]
fn alternate_function_boundary_pins() {
    // Pin 0 uses the bottom field of the low sub-register, pin 15 the
    // top field of the high one.
    let mut cfg = led_config();
    cfg.af = 0x9;
    let mut bank = gpio::RegisterMap::zeroed();
    gpio::configure(&mut bank, 0, &cfg);
    assert_eq!(bank.afrl, 0x9);
    assert_eq!(bank.afrh, 0);
    let mut bank = gpio::RegisterMap::zeroed();
    gpio::configure(&mut bank, 15, &cfg);
    assert_eq!(bank.afrh, 0x9 << 28);
    assert_eq!(bank.afrl, 0);
    assert_eq!(bank.moder, 0b01 << 30);
}

#[test]
fn output_pin_set_clear_toggle() {
    let mut bank = gpio::RegisterMap::zeroed();
    gpio::set_pin(&mut bank, 5);
    assert_eq!(bank.odr, 1 << 5);
    assert!(gpio::pin_level(bank.odr, 5));
    gpio::toggle_pin(&mut bank, 5);
    assert_eq!(bank.odr, 0);
    assert!(!gpio::pin_level(bank.odr, 5));
    gpio::toggle_pin(&mut bank, 5);
    gpio::clear_pin(&mut bank, 5);
    assert_eq!(bank.odr, 0);
}
