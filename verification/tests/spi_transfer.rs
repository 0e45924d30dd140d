//! SPI transfer scenarios: loopback echo, open-wire noise, stale-data
//! drain, and bounded waits that time out.

use stm32f401re::spi;
use stm32f401re::spi::master;
use stm32f401re::spi::master::SpiError;
use stm32f401re::spi::master::Transceiver;
use stm32f401re::spi::master::Wire;

fn transceiver(wire: Wire, busy: u32, txe: u32, rxne: u32) -> Transceiver {
    Transceiver {
        regs: spi::RegisterMap::zeroed(),
        wire,
        busy_delay: busy,
        txe_delay: txe,
        rxne_delay: rxne,
    }
}

#[test]
fn loopback_echoes_the_transmitted_byte() {
    let mut t = transceiver(Wire::Loopback, 2, 1, 3);
    let r = master::transfer(&mut t, 0x3C, 10);
    assert_eq!(r, Ok(0x3C));
}

#[test]
fn loopback_echoes_every_byte_value() {
    let mut t = transceiver(Wire::Loopback, 1, 1, 1);
    for b in 0..=255u8 {
        assert_eq!(master::transfer(&mut t, b, 4), Ok(b));
    }
}

#[test]
fn open_wire_completes_with_the_line_noise() {
    // With nothing wired to the input pin the received byte is
    // whatever the line carries; the engine still completes once the
    // flags answer.
    let mut t = transceiver(Wire::Open(0xA7), 2, 2, 2);
    let r = master::transfer(&mut t, 0x3C, 10);
    assert_eq!(r, Ok(0xA7));
}

#[test]
fn transfer_drains_a_stale_byte_first() {
    let mut t = transceiver(Wire::Loopback, 0, 0, 0);
    // A byte from an aborted earlier exchange still sits in the data
    // register with the receive flag up.
    t.regs.sr = 1;
    t.regs.dr = 0x55;
    let r = master::transfer(&mut t, 0x11, 3);
    assert_eq!(r, Ok(0x11));
}

#[test]
fn transfer_times_out_instead_of_hanging() {
    let mut t = transceiver(Wire::Loopback, 50, 0, 0);
    assert_eq!(
        master::transfer(&mut t, 0x01, 10),
        Err(SpiError::TransferTimeout)
    );
    let mut t = transceiver(Wire::Loopback, 0, 50, 0);
    assert_eq!(
        master::transfer(&mut t, 0x01, 10),
        Err(SpiError::TransferTimeout)
    );
    let mut t = transceiver(Wire::Loopback, 0, 0, 50);
    assert_eq!(
        master::transfer(&mut t, 0x01, 10),
        Err(SpiError::TransferTimeout)
    );
}

#[test]
fn transfer_succeeds_exactly_up_to_the_poll_bound() {
    // A flag latency one below the bound still answers in time; at the
    // bound the wait times out.
    let mut t = transceiver(Wire::Loopback, 4, 4, 4);
    assert_eq!(master::transfer(&mut t, 0x10, 5), Ok(0x10));
    let mut t = transceiver(Wire::Loopback, 5, 0, 0);
    assert_eq!(
        master::transfer(&mut t, 0x10, 5),
        Err(SpiError::TransferTimeout)
    );
}

#[test]
fn transfer_disables_the_controller_afterwards() {
    let mut t = transceiver(Wire::Loopback, 1, 1, 1);
    t.regs.cr1 = 0xFFFF;
    let r = master::transfer(&mut t, 0x42, 5);
    assert_eq!(r, Ok(0x42));
    // The enable bit is clear again, every other control bit kept.
    assert_eq!(t.regs.cr1, 0xFFFF & !(1 << 6));
    // On a timeout the controller is disabled too.
    let mut t = transceiver(Wire::Loopback, 9, 0, 0);
    t.regs.cr1 = 1 << 6;
    assert_eq!(
        master::transfer(&mut t, 0, 2),
        Err(SpiError::TransferTimeout)
    );
    assert_eq!(t.regs.cr1, 0);
}

#[test]
fn configure_master_sets_the_frame_parameters() {
    let mut regs = spi::RegisterMap::zeroed();
    master::configure_master(&mut regs);
    // Master, internal slave select, clock divided by 32; everything
    // else (8-bit frames, polarity, phase, full duplex) encodes to
    // zero bits.
    assert_eq!(regs.cr1, (1 << 2) | (1 << 8) | (0b100 << 3));
    // Slave-select output on, Motorola frame format.
    assert_eq!(regs.cr2, 1 << 2);
    assert_eq!(regs.i2scfgr, 0);

    // I2S mode and TI mode are switched off if they were on.
    let mut regs = spi::RegisterMap::zeroed();
    regs.i2scfgr = 1 << 11;
    regs.cr2 = 1 << 4;
    master::configure_master(&mut regs);
    assert_eq!(regs.i2scfgr, 0);
    assert_eq!(regs.cr2, 1 << 2);
}
