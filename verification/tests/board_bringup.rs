//! Whole-board bring-up and the loopback application loop's decisions.

use stm32f401re::board;
use stm32f401re::board::Board;
use stm32f401re::clock::ClockError;
use stm32f401re::spi::master;
use stm32f401re::spi::master::Wire;

fn ready_board(wire: Wire) -> Board {
    Board::new(wire, 1, 1, 1, 1, 1, 1)
}

#[test]
fn init_brings_the_whole_board_up() {
    let mut b = ready_board(Wire::Loopback);
    let r = board::init(&mut b, 8);
    assert_eq!(r, Ok(()));

    // Priority grouping programmed with the write key.
    assert_eq!(b.scb.aircr, (0x5FA << 16) | (7 << 8));
    // Clock tree locked on the PLL.
    assert_eq!(b.clock.rcc.cfgr & (0b11 << 2), 0b10 << 2);
    // GPIO bank clocks on for banks A, B, C and H.
    assert_eq!(b.clock.rcc.ahb1enr, 0b1000_0111);
    // SPI controller 3 bus clock on.
    assert_eq!(b.clock.rcc.apb1enr, 1 << 15);
    // The LED pin is an output, the slave-select pin runs alternate
    // function 6.
    assert_eq!(b.gpioa.moder, (0b01 << 10) | (0b10 << 8));
    assert_eq!(b.gpioa.ospeedr, (0b11 << 10) | (0b11 << 8));
    assert_eq!(b.gpioa.afrl, 6 << 16);
    // Clock, master-in and master-out pins of bank C on alternate
    // function 6: pins 10, 11, 12 select in the high sub-register.
    assert_eq!(b.gpioc.moder, (0b10 << 20) | (0b10 << 22) | (0b10 << 24));
    assert_eq!(b.gpioc.afrh, (6 << 8) | (6 << 12) | (6 << 16));
    assert_eq!(b.gpioc.afrl, 0);
    // The SPI controller is a disabled full-duplex master.
    assert_eq!(b.spi3.regs.cr1, (1 << 2) | (1 << 8) | (0b100 << 3));
    assert_eq!(b.spi3.regs.cr2, 1 << 2);
}

#[test]
fn init_stops_at_a_clock_fault() {
    let mut b = Board::new(Wire::Loopback, 30, 0, 0, 0, 0, 0);
    let r = board::init(&mut b, 4);
    assert_eq!(r, Err(ClockError::OscillatorStartTimeout));
    // Pin and SPI configuration never ran.
    assert_eq!(b.gpioa.moder, 0);
    assert_eq!(b.gpioc.afrh, 0);
    assert_eq!(b.spi3.regs.cr1, 0);
    assert_eq!(b.clock.rcc.ahb1enr, 0);
}

#[test]
fn loopback_round_trip_lights_the_led() {
    let mut b = ready_board(Wire::Loopback);
    board::init(&mut b, 8).unwrap();
    let tx: u8 = 0x3C;
    let rx = master::transfer(&mut b.spi3, tx, 8).unwrap();
    board::loopback_led_update(&mut b.gpioa, tx, rx);
    assert_eq!(b.gpioa.odr & (1 << 5), 1 << 5);
}

#[test]
fn broken_echo_turns_the_led_off() {
    let mut b = ready_board(Wire::Open(0x00));
    board::init(&mut b, 8).unwrap();
    b.gpioa.odr = 1 << 5;
    let tx: u8 = 0x3C;
    let rx = master::transfer(&mut b.spi3, tx, 8).unwrap();
    assert_ne!(rx, tx);
    board::loopback_led_update(&mut b.gpioa, tx, rx);
    assert_eq!(b.gpioa.odr & (1 << 5), 0);
}

#[test]
fn next_tx_steps_through_every_byte_and_wraps() {
    assert_eq!(board::next_tx(0), 1);
    assert_eq!(board::next_tx(0x7F), 0x80);
    assert_eq!(board::next_tx(254), 255);
    assert_eq!(board::next_tx(255), 0);
}
