//! Driver for the DMA-driven SPI peripheral variant.
//!
//! Every transaction programs the transfer byte counts, gates the bus with an
//! explicit chip-select line, triggers the start task, busy-waits for the
//! completion event, clears it, and validates the hardware-reported amounts
//! against the requested buffer lengths.

use vstd::prelude::*;

use crate::gpio::{InputPin, OutputPin};
use crate::hw::{dma_fence, exchanged_byte, reported_amount, Periph};

verus! {

/// Largest buffer a single DMA transaction accepts: the hardware byte-count
/// field is 8 bits wide.
pub const MAX_DMA_LEN: usize = 255;

/// Register value selecting a 500 kHz bus clock.
pub const FREQ_K500: u32 = 0x0800_0000;

/// Register value for the fixed protocol mode: most-significant bit first,
/// leading clock phase, active-high polarity.
pub const CONFIG_MODE0_MSB: u32 = 0;

/// Register value enabling the peripheral.
pub const ENABLE_ON: u32 = 1;

/// The pins used by the DMA-driven SPI peripheral.
pub struct Pins {
    /// SPI clock.
    pub sck: OutputPin,
    /// Master out, slave in.
    pub mosi: OutputPin,
    /// Master in, slave out.
    pub miso: InputPin,
}

/// Errors of the DMA-driven variant.
#[derive(Clone, Copy, Debug, PartialEq, Eq, Structural)]
pub enum SPIError {
    /// The transmit buffer is longer than one transaction can move.
    TxBufferTooLong,
    /// The receive buffer is longer than one transaction can move.
    RxBufferTooLong,
    /// The hardware reported a transmitted amount different from the
    /// requested one.
    Transmit,
    /// The hardware reported a received amount different from the requested
    /// one.
    Receive,
}

/// The register state `p` configured for this driver: pins routed, peripheral
/// enabled, fixed mode and frequency set, over-read character `0`.
pub open spec fn spim_configured(p: Periph, pins: Pins) -> Periph {
    Periph {
        psel_sck: pins.sck.pin as u32,
        psel_mosi: pins.mosi.pin as u32,
        psel_miso: pins.miso.pin as u32,
        enable: ENABLE_ON,
        config: CONFIG_MODE0_MSB,
        frequency: FREQ_K500,
        orc: 0u8,
        ..p
    }
}

/// The register state after a transaction that requested `lt` transmitted and
/// `lr` received bytes, with the completion event observed and cleared.
pub open spec fn spim_regs_after(p: Periph, lt: u32, lr: u32) -> Periph {
    Periph {
        txd_maxcnt: lt,
        rxd_maxcnt: lr,
        txd_amount: reported_amount(p.fault_tx_amount, lt),
        rxd_amount: reported_amount(p.fault_rx_amount, lr),
        events_end: 0u32,
        ever_started: true,
        ..p
    }
}

/// The outcome of validating a transaction that requested `lt` transmitted
/// and `lr` received bytes: the transmit mismatch is reported first, then the
/// receive mismatch, else success.
pub open spec fn transfer_outcome(p: Periph, lt: u32, lr: u32) -> Result<(), SPIError> {
    if reported_amount(p.fault_tx_amount, lt) != lt {
        Err(SPIError::Transmit)
    } else if reported_amount(p.fault_rx_amount, lr) != lr {
        Err(SPIError::Receive)
    } else {
        Ok(())
    }
}

/// The outcome of validating a transmit-only transaction of `lt` bytes.
pub open spec fn write_outcome(p: Periph, lt: u32) -> Result<(), SPIError> {
    if reported_amount(p.fault_tx_amount, lt) != lt {
        Err(SPIError::Transmit)
    } else {
        Ok(())
    }
}

/// Interface to a DMA-driven SPI instance.
///
/// The peripheral is exclusively owned: construction consumes the register
/// block and [`Spim::free`] is the only way to get it back.
pub struct Spim {
    pub(crate) p: Periph,
}

impl View for Spim {
    type V = Periph;

    closed spec fn view(&self) -> Periph {
        self.p
    }
}

/// Constructor extension for register blocks that can host this driver.
pub trait SpimExt: Sized {
    /// The register state the implementor hands to the driver.
    spec fn periph_view(self) -> Periph;

    /// Consumes the peripheral and the pins and returns a configured driver.
    fn constrain(self, pins: Pins) -> (s: Spim)
        requires
            self.periph_view().events_end == 0,
        ensures
            s@ == spim_configured(self.periph_view(), pins),
    ;
}

impl SpimExt for Periph {
    open spec fn periph_view(self) -> Periph {
        self
    }

    fn constrain(self, pins: Pins) -> (s: Spim) {
        Spim::new(self, pins)
    }
}

impl Spim {
    /// Rebuilds a handle around a register block already in the driver's
    /// hands, without touching any register.
    pub(crate) fn from_parts(p: Periph) -> (s: Spim)
        ensures
            s@ == p,
    {
        Spim { p }
    }

    /// The driver's register invariant: peripheral enabled, no completion
    /// event pending between transactions.
    pub open spec fn wf(self) -> bool {
        &&& self@.enable == ENABLE_ON
        &&& self@.events_end == 0
    }

    /// One-time configuration: routes the pins, enables the peripheral, fixes
    /// the protocol mode and the bus frequency, and programs the over-read
    /// character to `0`. Consumes the peripheral and the pins.
    pub fn new(spim: Periph, pins: Pins) -> (s: Spim)
        requires
            spim.events_end == 0,
        ensures
            s@ == spim_configured(spim, pins),
            s.wf(),
    {
        let mut p = spim;
        p.psel_sck = pins.sck.pin as u32;
        p.psel_mosi = pins.mosi.pin as u32;
        p.psel_miso = pins.miso.pin as u32;
        p.enable = ENABLE_ON;
        p.config = CONFIG_MODE0_MSB;
        p.frequency = FREQ_K500;
        p.orc = 0;
        Spim { p }
    }

    /// Read from an SPI slave.
    ///
    /// A complete read transaction: the master transmits `tx_buffer` as the
    /// probe, then keeps clocking with the over-read character until
    /// `rx_buffer` is full, capturing every received byte. The chip-select
    /// pin gates the transaction and ends high whatever the outcome. Both
    /// buffers must be at most 255 bytes; a longer one is rejected before any
    /// register is touched.
    pub fn read(
        &mut self,
        chip_select: &mut OutputPin,
        tx_buffer: &Vec<u8>,
        rx_buffer: &mut Vec<u8>,
    ) -> (r: Result<(), SPIError>)
        requires
            old(self).wf(),
        ensures
            final(self).wf(),
            tx_buffer@.len() > MAX_DMA_LEN ==> r == Err::<(), SPIError>(SPIError::TxBufferTooLong)
                && *final(self) == *old(self) && *final(chip_select) == *old(chip_select)
                && final(rx_buffer)@ == old(rx_buffer)@,
            tx_buffer@.len() <= MAX_DMA_LEN && old(rx_buffer)@.len() > MAX_DMA_LEN ==> r == Err::<
                (),
                SPIError,
            >(SPIError::RxBufferTooLong) && *final(self) == *old(self) && *final(chip_select)
                == *old(chip_select) && final(rx_buffer)@ == old(rx_buffer)@,
            tx_buffer@.len() <= MAX_DMA_LEN && old(rx_buffer)@.len() <= MAX_DMA_LEN
                ==> final(self)@ == spim_regs_after(
                old(self)@,
                tx_buffer@.len() as u32,
                old(rx_buffer)@.len() as u32,
            ) && r == transfer_outcome(
                old(self)@,
                tx_buffer@.len() as u32,
                old(rx_buffer)@.len() as u32,
            ) && final(chip_select).high && final(chip_select).pin == old(chip_select).pin
                && final(rx_buffer)@.len() == old(rx_buffer)@.len()
                && (forall|i: int|
                0 <= i < old(rx_buffer)@.len() ==> final(rx_buffer)@[i] == exchanged_byte(
                    old(self)@.wiring,
                    tx_buffer@,
                    old(self)@.orc,
                    i,
                )),
    {
        if tx_buffer.len() > MAX_DMA_LEN {
            return Err(SPIError::TxBufferTooLong);
        }
        if rx_buffer.len() > MAX_DMA_LEN {
            return Err(SPIError::RxBufferTooLong);
        }
        // Pull chip select high, the inactive state, before programming.
        chip_select.set_high();

        // Program the transfer byte counts.
        self.p.txd_maxcnt = tx_buffer.len() as u32;
        self.p.rxd_maxcnt = rx_buffer.len() as u32;

        // Start the SPI transaction.
        chip_select.set_low();
        self.p.task_start(tx_buffer, rx_buffer);

        // Busy-wait for the completion event, which fires once both
        // transmitting and receiving are done.
        while self.p.events_end == 0
            invariant
                self.p.events_end == 1,
            decreases 0int,
        {
        }
        // Clear the event, otherwise it reads as already fired from now on.
        self.p.events_end = 0;

        // End the SPI transaction: chip select back to inactive.
        chip_select.set_high();

        proof {
            assert(tx_buffer@.subrange(0, tx_buffer@.len() as int) =~= tx_buffer@);
        }
        if self.p.txd_amount != tx_buffer.len() as u32 {
            return Err(SPIError::Transmit);
        }
        if self.p.rxd_amount != rx_buffer.len() as u32 {
            return Err(SPIError::Receive);
        }

        // Conservative fence so buffer accesses are not reordered around the
        // completion check.
        dma_fence();

        Ok(())
    }

    /// Write to an SPI slave.
    ///
    /// Transmits all of `tx_buffer`, receiving nothing. The chip-select pin
    /// gates the transaction and ends high whatever the outcome. The buffer
    /// must be at most 255 bytes; a longer one is rejected before any
    /// register is touched.
    pub fn write(&mut self, chip_select: &mut OutputPin, tx_buffer: &Vec<u8>) -> (r: Result<
        (),
        SPIError,
    >)
        requires
            old(self).wf(),
        ensures
            final(self).wf(),
            tx_buffer@.len() > MAX_DMA_LEN ==> r == Err::<(), SPIError>(SPIError::TxBufferTooLong)
                && *final(self) == *old(self) && *final(chip_select) == *old(chip_select),
            tx_buffer@.len() <= MAX_DMA_LEN ==> final(self)@ == spim_regs_after(
                old(self)@,
                tx_buffer@.len() as u32,
                0u32,
            ) && r == write_outcome(old(self)@, tx_buffer@.len() as u32)
                && final(chip_select).high && final(chip_select).pin == old(chip_select).pin,
    {
        if tx_buffer.len() > MAX_DMA_LEN {
            return Err(SPIError::TxBufferTooLong);
        }
        // Pull chip select high, the inactive state, before programming.
        chip_select.set_high();

        // Program the transmit count; the receive channel moves nothing.
        self.p.txd_maxcnt = tx_buffer.len() as u32;
        self.p.rxd_maxcnt = 0;

        // Start the SPI transaction.
        chip_select.set_low();
        let mut no_rx: Vec<u8> = Vec::new();
        self.p.task_start(tx_buffer, &mut no_rx);

        // Busy-wait for the completion event.
        while self.p.events_end == 0
            invariant
                self.p.events_end == 1,
            decreases 0int,
        {
        }
        // Clear the event, otherwise it reads as already fired from now on.
        self.p.events_end = 0;

        // End the SPI transaction: chip select back to inactive.
        chip_select.set_high();

        if self.p.txd_amount != tx_buffer.len() as u32 {
            return Err(SPIError::Transmit);
        }

        // Conservative fence so buffer accesses are not reordered around the
        // completion check.
        dma_fence();

        Ok(())
    }

    /// Returns the raw register block, ending the driver's lifetime.
    pub fn free(self) -> (p: Periph)
        ensures
            p == self@,
    {
        self.p
    }
}

} // verus!
