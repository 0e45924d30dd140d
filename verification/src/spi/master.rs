//! The polled SPI master transfer engine: one full-duplex byte exchange.
//!
//! The engine enables the controller, drains a stale received byte,
//! writes the transmit byte, and then waits in turn for the busy flag
//! to clear, the transmit buffer to empty, and a received byte to
//! arrive, before reading it and disabling the controller.  The
//! hardware's side is modelled by a wire (loopback returns the
//! transmitted byte, an open wire returns line noise) and by a poll
//! latency per status flag; every wait is bounded and times out rather
//! than hang.

use vstd::prelude::*;

use crate::poll::wait_field;
use crate::spi::RegisterMap;

verus! {

/// Busy flag, bit 7 of the status register.
pub const SR_BSY: u32 = 0b1u32 << 7;

/// Transmit buffer empty, bit 1 of the status register.
pub const SR_TXE: u32 = 0b1u32 << 1;

/// Receive buffer not empty, bit 0 of the status register.
pub const SR_RXNE: u32 = 0b1u32 << 0;

/// Peripheral enable, bit 6 of control register 1.
pub const CR1_SPE: u32 = 0b1u32 << 6;

/// What the receive shift register sees: a loopback wire echoes the
/// transmitted byte, an open wire yields an arbitrary noise byte.
#[derive(Clone, Copy, PartialEq, Eq, Structural, Debug)]
pub enum Wire {
    Loopback,
    Open(u8),
}

/// The transfer engine's fault: a status flag did not reach its
/// expected state within the poll bound.
#[derive(Clone, Copy, PartialEq, Eq, Structural, Debug)]
pub enum SpiError {
    TransferTimeout,
}

/// One SPI controller together with the modelled hardware behind it:
/// the wire its data pins see and the poll latency of each status flag
/// during an exchange.
pub struct Transceiver {
    pub regs: RegisterMap,
    pub wire: Wire,
    pub busy_delay: u32,
    pub txe_delay: u32,
    pub rxne_delay: u32,
}

/// The byte clocked in during an exchange that shifts `tx` out.
pub open spec fn spec_wire_byte(w: Wire, tx: u8) -> u8 {
    match w {
        Wire::Loopback => tx,
        Wire::Open(noise) => noise,
    }
}

/// The status register once a stale received byte has been drained.
pub open spec fn spec_drained_sr(sr: u32) -> u32 {
    if sr & SR_RXNE == SR_RXNE {
        sr & !SR_RXNE
    } else {
        sr
    }
}

/// The status register right after the transmit byte is written: the
/// controller is busy, and neither buffer flag is up yet.
pub open spec fn spec_started_sr(sr: u32) -> u32 {
    (spec_drained_sr(sr) | SR_BSY) & !(SR_TXE | SR_RXNE)
}

/// The status register once the wire transfer has completed.
pub open spec fn spec_busy_cleared_sr(sr: u32) -> u32 {
    spec_started_sr(sr) & !SR_BSY
}

/// The status register once the transmit buffer has emptied.
pub open spec fn spec_tx_empty_sr(sr: u32) -> u32 {
    (spec_busy_cleared_sr(sr) & !SR_TXE) | SR_TXE
}

/// The status register once the received byte has arrived.
pub open spec fn spec_rx_full_sr(sr: u32) -> u32 {
    (spec_tx_empty_sr(sr) & !SR_RXNE) | SR_RXNE
}

/// The status register after the received byte has been read back out.
pub open spec fn spec_done_sr(sr: u32) -> u32 {
    spec_rx_full_sr(sr) & !SR_RXNE
}

/// Flag states along a successful exchange: the busy flag is up right
/// after the write, and each wait finds its flag still in the blocking
/// state left by the previous step.
proof fn lemma_transfer_flags(sr: u32)
    by (bit_vector)
    ensures
        spec_started_sr(sr) & SR_BSY != 0,
        spec_busy_cleared_sr(sr) & SR_TXE != SR_TXE,
        spec_tx_empty_sr(sr) & SR_RXNE != SR_RXNE,
        (spec_started_sr(sr) & !SR_BSY) | 0u32 == spec_busy_cleared_sr(sr),
{
}

/// One blocking full-duplex byte exchange.  Succeeds exactly when every
/// status flag answers within `max_polls` polls; on a loopback wire the
/// received byte equals the transmitted one.
pub fn transfer(t: &mut Transceiver, tx: u8, max_polls: u32) -> (r: Result<u8, SpiError>)
    ensures
        r is Ok <==> old(t).busy_delay < max_polls && old(t).txe_delay < max_polls && old(t).rxne_delay < max_polls,
        r is Ok ==> r->Ok_0 == spec_wire_byte(old(t).wire, tx),
        r is Err ==> r->Err_0 == SpiError::TransferTimeout,
        final(t).wire == old(t).wire,
        final(t).regs.cr1 == (old(t).regs.cr1 | CR1_SPE) & !CR1_SPE,
        final(t).regs.dr == spec_wire_byte(old(t).wire, tx) as u32,
        final(t).regs == (RegisterMap {
            cr1: final(t).regs.cr1,
            sr: final(t).regs.sr,
            dr: final(t).regs.dr,
            ..old(t).regs
        }),
        r is Ok ==> final(t).regs.sr == spec_done_sr(old(t).regs.sr) && final(t).busy_delay == 0
            && final(t).txe_delay == 0 && final(t).rxne_delay == 0,
        !(old(t).busy_delay < max_polls) ==> final(t).regs.sr == spec_started_sr(old(t).regs.sr)
            && final(t).busy_delay == old(t).busy_delay - max_polls && final(t).txe_delay == old(t).txe_delay && final(t).rxne_delay == old(t).rxne_delay,
        old(t).busy_delay < max_polls && !(old(t).txe_delay < max_polls) ==> final(t).regs.sr
            == spec_busy_cleared_sr(old(t).regs.sr) && final(t).busy_delay == 0 && final(t).txe_delay == old(t).txe_delay - max_polls && final(t).rxne_delay == old(t).rxne_delay,
        old(t).busy_delay < max_polls && old(t).txe_delay < max_polls && !(old(t).rxne_delay
            < max_polls) ==> final(t).regs.sr == spec_tx_empty_sr(old(t).regs.sr) && final(t).busy_delay == 0 && final(t).txe_delay == 0 && final(t).rxne_delay == old(t).rxne_delay
            - max_polls,
{
    // Enable the controller.
    t.regs.cr1 = t.regs.cr1 | CR1_SPE;

    // Drain a stale received byte left by an earlier aborted exchange.
    while t.regs.sr & SR_RXNE == SR_RXNE
        invariant
            t.regs.sr == old(t).regs.sr || t.regs.sr == spec_drained_sr(old(t).regs.sr),
            t.regs == (RegisterMap {
                cr1: old(t).regs.cr1 | CR1_SPE,
                sr: t.regs.sr,
                ..old(t).regs
            }),
            t.wire == old(t).wire,
            t.busy_delay == old(t).busy_delay,
            t.txe_delay == old(t).txe_delay,
            t.rxne_delay == old(t).rxne_delay,
        decreases t.regs.sr & SR_RXNE,
    {
        let _stale = t.regs.dr;
        proof {
            crate::register::lemma_mask_ops(t.regs.sr, SR_RXNE);
            crate::register::lemma_mask_ops(old(t).regs.sr, SR_RXNE);
            crate::register::lemma_one_shl_pos(0);
        }
        t.regs.sr = t.regs.sr & !SR_RXNE;
    }

    // Write the transmit byte: the hardware starts shifting, and the
    // wire determines what the receive buffer will hold.
    let pending: u8 = match t.wire {
        Wire::Loopback => tx,
        Wire::Open(noise) => noise,
    };
    t.regs.dr = pending as u32;
    t.regs.sr = (t.regs.sr | SR_BSY) & !(SR_TXE | SR_RXNE);
    proof {
        lemma_transfer_flags(old(t).regs.sr);
        crate::register::lemma_mask_ops(0u32, SR_BSY);
        crate::register::lemma_mask_ops(0u32, SR_TXE);
        crate::register::lemma_mask_ops(0u32, SR_RXNE);
    }

    // Wait for the busy flag to clear: transfer complete on the wire.
    let w = wait_field(t.regs.sr, SR_BSY, 0, t.busy_delay, max_polls);
    t.regs.sr = w.reg;
    t.busy_delay = w.delay;
    if !w.ready {
        t.regs.cr1 = t.regs.cr1 & !CR1_SPE;
        return Err(SpiError::TransferTimeout);
    }

    // Wait for the transmit buffer to empty.
    let w = wait_field(t.regs.sr, SR_TXE, SR_TXE, t.txe_delay, max_polls);
    t.regs.sr = w.reg;
    t.txe_delay = w.delay;
    if !w.ready {
        t.regs.cr1 = t.regs.cr1 & !CR1_SPE;
        return Err(SpiError::TransferTimeout);
    }

    // Wait for the received byte.
    let w = wait_field(t.regs.sr, SR_RXNE, SR_RXNE, t.rxne_delay, max_polls);
    t.regs.sr = w.reg;
    t.rxne_delay = w.delay;
    if !w.ready {
        t.regs.cr1 = t.regs.cr1 & !CR1_SPE;
        return Err(SpiError::TransferTimeout);
    }

    // Read the received byte, which empties the receive buffer.
    proof {
        crate::register::lemma_mask_ops(t.regs.sr, SR_RXNE);
        lemma_byte_roundtrip(pending);
    }
    let rx: u8 = (t.regs.dr & 0xFF) as u8;
    t.regs.sr = t.regs.sr & !SR_RXNE;

    // Disable the controller.
    t.regs.cr1 = t.regs.cr1 & !CR1_SPE;
    Ok(rx)
}

/// A byte carried through a 32-bit data register reads back unchanged.
proof fn lemma_byte_roundtrip(b: u8)
    by (bit_vector)
    ensures
        ((b as u32) & 0xFF) as u8 == b,
        (b as u32) & 0xFF < 256,
{
}

/// The control-register settings of the full-duplex master exchange:
/// controller disabled, master mode with internal slave select, 8-bit
/// frames shifted out most-significant first on an idle-low clock's
/// first edge, bus clock divided by 32, CRC off.
pub open spec fn spec_master_cr1(v: u32) -> u32 {
    (v & !crate::spi::cr1::Spe::Enable.spec_bits()) | (
    crate::spi::cr1::Rxonly::FullDuplex.spec_bits() | crate::spi::cr1::Mstr::Master.spec_bits()
        | crate::spi::cr1::Ssi::Enable.spec_bits() | crate::spi::cr1::Dff::Df8bit.spec_bits()
        | crate::spi::cr1::Cpol::Positive.spec_bits() | crate::spi::cr1::Cpha::Raising.spec_bits()
        | crate::spi::cr1::Br::DIV32.spec_bits() | crate::spi::cr1::Lsbfirst::MsbFirst.spec_bits()
        | crate::spi::cr1::Crcen::Disable.spec_bits())
}

/// Control register 2 after master configuration: slave-select output
/// on, Motorola frame format.
pub open spec fn spec_master_cr2(v: u32) -> u32 {
    (v | crate::spi::cr2::Ssoe::Enable.spec_bits()) & !crate::spi::cr2::Frf::SpiTiMode.spec_bits()
}

/// Program a controller as a full-duplex SPI master: frame parameters
/// into control register 1, slave-select output into control register
/// 2, and I2S mode off so the controller speaks SPI.
pub fn configure_master(spi: &mut RegisterMap)
    ensures
        final(spi).cr1 == spec_master_cr1(old(spi).cr1),
        final(spi).cr2 == spec_master_cr2(old(spi).cr2),
        final(spi).i2scfgr == old(spi).i2scfgr & !crate::spi::i2scfgr::I2smod::I2sMode.spec_bits(),
        *final(spi) == (RegisterMap {
            cr1: final(spi).cr1,
            cr2: final(spi).cr2,
            i2scfgr: final(spi).i2scfgr,
            ..*old(spi)
        }),
{
    spi.cr1 = (spi.cr1 & !crate::spi::cr1::Spe::Enable.bits()) | (
    crate::spi::cr1::Rxonly::FullDuplex.bits() | crate::spi::cr1::Mstr::Master.bits()
        | crate::spi::cr1::Ssi::Enable.bits() | crate::spi::cr1::Dff::Df8bit.bits()
        | crate::spi::cr1::Cpol::Positive.bits() | crate::spi::cr1::Cpha::Raising.bits()
        | crate::spi::cr1::Br::DIV32.bits() | crate::spi::cr1::Lsbfirst::MsbFirst.bits()
        | crate::spi::cr1::Crcen::Disable.bits());
    spi.cr2 = spi.cr2 | crate::spi::cr2::Ssoe::Enable.bits();
    // Leave I2S mode so the controller runs the SPI protocol.
    spi.i2scfgr = spi.i2scfgr & !crate::spi::i2scfgr::I2smod::I2sMode.bits();
    // Motorola frame format.
    spi.cr2 = spi.cr2 & !crate::spi::cr2::Frf::SpiTiMode.bits();
}

} // verus!
