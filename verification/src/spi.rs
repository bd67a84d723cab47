//! Driver for the byte-count driven SPI peripheral variant.
//!
//! This variant has separate transmit and receive start tasks, an explicit
//! stop task, and hardware task chaining that can run a write immediately
//! followed by a read on a single trigger, without host intervention.

use vstd::prelude::*;

use crate::gpio::{InputPin, OutputPin};
use crate::hw::{dma_fence, line_resp, reported_amount, Periph};
use crate::spim::{CONFIG_MODE0_MSB, ENABLE_ON, MAX_DMA_LEN};

verus! {

/// Bus clock frequencies this variant can be configured with.
#[derive(Clone, Copy, Debug, PartialEq, Eq, Structural)]
pub enum Frequency {
    /// 125 kHz.
    K125,
    /// 250 kHz.
    K250,
    /// 500 kHz.
    K500,
    /// 1 MHz.
    M1,
    /// 2 MHz.
    M2,
    /// 4 MHz.
    M4,
    /// 8 MHz.
    M8,
}

/// The register value selecting the frequency `f`.
pub open spec fn frequency_bits(f: Frequency) -> u32 {
    match f {
        Frequency::K125 => 0x0200_0000u32,
        Frequency::K250 => 0x0400_0000u32,
        Frequency::K500 => 0x0800_0000u32,
        Frequency::M1 => 0x1000_0000u32,
        Frequency::M2 => 0x2000_0000u32,
        Frequency::M4 => 0x4000_0000u32,
        Frequency::M8 => 0x8000_0000u32,
    }
}

impl Frequency {
    /// The register value selecting this frequency.
    pub fn bits(self) -> (r: u32)
        ensures
            r == frequency_bits(self),
    {
        match self {
            Frequency::K125 => 0x0200_0000,
            Frequency::K250 => 0x0400_0000,
            Frequency::K500 => 0x0800_0000,
            Frequency::M1 => 0x1000_0000,
            Frequency::M2 => 0x2000_0000,
            Frequency::M4 => 0x4000_0000,
            Frequency::M8 => 0x8000_0000,
        }
    }
}

/// The pins used by the byte-count driven SPI peripheral.
pub struct Pins {
    /// SPI clock.
    pub sck: OutputPin,
    /// Master out, slave in.
    pub mosi: OutputPin,
    /// Master in, slave out.
    pub miso: InputPin,
}

/// Errors of the byte-count driven variant.
#[derive(Clone, Copy, Debug, PartialEq, Eq, Structural)]
pub enum Error {
    /// The transmit buffer is longer than one transaction can move.
    TxBufferTooLong,
    /// The receive buffer is longer than one transaction can move.
    RxBufferTooLong,
    /// The hardware reported a transmitted amount different from the
    /// requested one.
    Transmit,
    /// The hardware reported a received amount different from the requested
    /// one.
    Receive,
}

/// The register state `p` configured for this driver: pins routed, peripheral
/// enabled, fixed mode set, frequency set to `f`.
pub open spec fn spi_configured(p: Periph, pins: Pins, f: Frequency) -> Periph {
    Periph {
        psel_sck: pins.sck.pin as u32,
        psel_mosi: pins.mosi.pin as u32,
        psel_miso: pins.miso.pin as u32,
        enable: ENABLE_ON,
        config: CONFIG_MODE0_MSB,
        frequency: frequency_bits(f),
        ..p
    }
}

/// The register state after a transmit-only transaction of `lt` bytes to
/// slave `address`, with all events observed and cleared.
pub open spec fn spi_write_regs(p: Periph, address: u8, lt: u32) -> Periph {
    Periph {
        address,
        txd_maxcnt: lt,
        txd_amount: reported_amount(p.fault_tx_amount, lt),
        ever_started: true,
        ..p
    }
}

/// The register state after a receive-only transaction of `lr` bytes from
/// slave `address`, with all events observed and cleared.
pub open spec fn spi_read_regs(p: Periph, address: u8, lr: u32) -> Periph {
    Periph {
        address,
        rxd_maxcnt: lr,
        rxd_amount: reported_amount(p.fault_rx_amount, lr),
        ever_started: true,
        ..p
    }
}

/// The register state after a chained write-then-read transaction of `lt`
/// transmitted and `lr` received bytes to slave `address`, with all events
/// and the chain configuration cleared.
pub open spec fn spi_wtr_regs(p: Periph, address: u8, lt: u32, lr: u32) -> Periph {
    Periph {
        address,
        txd_maxcnt: lt,
        rxd_maxcnt: lr,
        txd_amount: reported_amount(p.fault_tx_amount, lt),
        rxd_amount: reported_amount(p.fault_rx_amount, lr),
        ever_started: true,
        ..p
    }
}

/// The outcome of validating a transmit-only transaction of `lt` bytes.
pub open spec fn spi_write_outcome(p: Periph, lt: u32) -> Result<(), Error> {
    if reported_amount(p.fault_tx_amount, lt) != lt {
        Err(Error::Transmit)
    } else {
        Ok(())
    }
}

/// The outcome of validating a receive-only transaction of `lr` bytes.
pub open spec fn spi_read_outcome(p: Periph, lr: u32) -> Result<(), Error> {
    if reported_amount(p.fault_rx_amount, lr) != lr {
        Err(Error::Receive)
    } else {
        Ok(())
    }
}

/// The outcome of validating a write-then-read transaction: the transmit
/// mismatch is reported first, then the receive mismatch, else success.
pub open spec fn spi_wtr_outcome(p: Periph, lt: u32, lr: u32) -> Result<(), Error> {
    if reported_amount(p.fault_tx_amount, lt) != lt {
        Err(Error::Transmit)
    } else if reported_amount(p.fault_rx_amount, lr) != lr {
        Err(Error::Receive)
    } else {
        Ok(())
    }
}

/// Interface to a byte-count driven SPI instance.
///
/// The peripheral is exclusively owned: construction consumes the register
/// block and [`Spi::free`] is the only way to get it back.
pub struct Spi {
    pub(crate) p: Periph,
}

impl View for Spi {
    type V = Periph;

    closed spec fn view(&self) -> Periph {
        self.p
    }
}

/// Constructor extension for register blocks that can host this driver.
pub trait SpiExt: Sized {
    /// The register state the implementor hands to the driver.
    spec fn periph_view(self) -> Periph;

    /// Consumes the peripheral and the pins and returns a configured driver.
    fn constrain(self, pins: Pins, frequency: Frequency) -> (s: Spi)
        requires
            self.periph_view().events_lasttx == 0,
            self.periph_view().events_lastrx == 0,
            self.periph_view().events_stopped == 0,
            !self.periph_view().shorts_lasttx_startrx,
            !self.periph_view().shorts_lastrx_stop,
        ensures
            s@ == spi_configured(self.periph_view(), pins, frequency),
    ;
}

impl SpiExt for Periph {
    open spec fn periph_view(self) -> Periph {
        self
    }

    fn constrain(self, pins: Pins, frequency: Frequency) -> (s: Spi) {
        Spi::new(self, pins, frequency)
    }
}

impl Spi {
    /// The driver's register invariant: peripheral enabled, no event pending
    /// and no task chain armed between transactions.
    pub open spec fn wf(self) -> bool {
        &&& self@.enable == ENABLE_ON
        &&& self@.events_lasttx == 0
        &&& self@.events_lastrx == 0
        &&& self@.events_stopped == 0
        &&& !self@.shorts_lasttx_startrx
        &&& !self@.shorts_lastrx_stop
    }

    /// One-time configuration: routes the pins, enables the peripheral, and
    /// fixes the protocol mode and the bus frequency. Consumes the peripheral
    /// and the pins.
    pub fn new(spi: Periph, pins: Pins, frequency: Frequency) -> (s: Spi)
        requires
            spi.events_lasttx == 0,
            spi.events_lastrx == 0,
            spi.events_stopped == 0,
            !spi.shorts_lasttx_startrx,
            !spi.shorts_lastrx_stop,
        ensures
            s@ == spi_configured(spi, pins, frequency),
            s.wf(),
    {
        let mut p = spi;
        p.psel_sck = pins.sck.pin as u32;
        p.psel_mosi = pins.mosi.pin as u32;
        p.psel_miso = pins.miso.pin as u32;
        p.enable = ENABLE_ON;
        p.config = CONFIG_MODE0_MSB;
        p.frequency = frequency.bits();
        Spi { p }
    }

    /// Write to an SPI slave.
    ///
    /// Programs the transmit count, triggers the transmit start task, waits
    /// for transmit completion, stops the transaction, and validates the
    /// transmitted amount. The buffer must be at most 255 bytes; a longer one
    /// is rejected before any register is touched.
    pub fn write(&mut self, address: u8, buffer: &Vec<u8>) -> (r: Result<(), Error>)
        requires
            old(self).wf(),
        ensures
            final(self).wf(),
            buffer@.len() > MAX_DMA_LEN ==> r == Err::<(), Error>(Error::TxBufferTooLong)
                && *final(self) == *old(self),
            buffer@.len() <= MAX_DMA_LEN ==> final(self)@ == spi_write_regs(
                old(self)@,
                address,
                buffer@.len() as u32,
            ) && r == spi_write_outcome(old(self)@, buffer@.len() as u32),
    {
        if buffer.len() > MAX_DMA_LEN {
            return Err(Error::TxBufferTooLong);
        }
        self.p.address = address;

        // Program the transmit count.
        self.p.txd_maxcnt = buffer.len() as u32;

        // Start the write operation.
        self.p.task_starttx(buffer);

        // Busy-wait until the write operation is about to end.
        while self.p.events_lasttx == 0
            invariant
                self.p.events_lasttx == 1,
            decreases 0int,
        {
        }
        self.p.events_lasttx = 0;  // reset event

        // Stop the transaction.
        self.p.task_stop();

        // Busy-wait until the write operation has ended.
        while self.p.events_stopped == 0
            invariant
                self.p.events_stopped == 1,
            decreases 0int,
        {
        }
        self.p.events_stopped = 0;  // reset event

        if self.p.txd_amount != buffer.len() as u32 {
            return Err(Error::Transmit);
        }

        // Conservative fence so buffer accesses are not reordered around the
        // completion check.
        dma_fence();

        Ok(())
    }

    /// Read from an SPI slave.
    ///
    /// Programs the receive count, triggers the receive start task, waits for
    /// receive completion, stops the transaction, and validates the received
    /// amount. The buffer must be at most 255 bytes; a longer one is rejected
    /// before any register is touched.
    pub fn read(&mut self, address: u8, buffer: &mut Vec<u8>) -> (r: Result<(), Error>)
        requires
            old(self).wf(),
        ensures
            final(self).wf(),
            old(buffer)@.len() > MAX_DMA_LEN ==> r == Err::<(), Error>(Error::RxBufferTooLong)
                && *final(self) == *old(self) && final(buffer)@ == old(buffer)@,
            old(buffer)@.len() <= MAX_DMA_LEN ==> final(self)@ == spi_read_regs(
                old(self)@,
                address,
                old(buffer)@.len() as u32,
            ) && r == spi_read_outcome(old(self)@, old(buffer)@.len() as u32)
                && final(buffer)@.len() == old(buffer)@.len()
                && (forall|i: int|
                0 <= i < old(buffer)@.len() ==> final(buffer)@[i] == line_resp(
                    old(self)@.wiring,
                    old(self)@.orc,
                )),
    {
        if buffer.len() > MAX_DMA_LEN {
            return Err(Error::RxBufferTooLong);
        }
        self.p.address = address;

        // Program the receive count.
        self.p.rxd_maxcnt = buffer.len() as u32;

        // Start the read operation.
        self.p.task_startrx(buffer);

        // Busy-wait until the read operation is about to end.
        while self.p.events_lastrx == 0
            invariant
                self.p.events_lastrx == 1,
            decreases 0int,
        {
        }
        self.p.events_lastrx = 0;  // reset event

        // Stop the transaction.
        self.p.task_stop();

        // Busy-wait until the read operation has ended.
        while self.p.events_stopped == 0
            invariant
                self.p.events_stopped == 1,
            decreases 0int,
        {
        }
        self.p.events_stopped = 0;  // reset event

        if self.p.rxd_amount != buffer.len() as u32 {
            return Err(Error::Receive);
        }

        // Conservative fence so buffer accesses are not reordered around the
        // completion check.
        dma_fence();

        Ok(())
    }

    /// Write to an SPI slave, then read from it, without releasing the bus in
    /// between.
    ///
    /// Arms the hardware task chains so the receive start task fires on
    /// transmit completion and the stop task on receive completion, triggers
    /// the transmit start task once, waits for the single stop event, clears
    /// every event and the chain configuration, and validates both amounts;
    /// a transmit mismatch is reported over a receive mismatch. Both buffers
    /// must be at most 255 bytes; a longer one is rejected before any
    /// register is touched.
    pub fn write_then_read(
        &mut self,
        address: u8,
        wr_buffer: &Vec<u8>,
        rd_buffer: &mut Vec<u8>,
    ) -> (r: Result<(), Error>)
        requires
            old(self).wf(),
        ensures
            final(self).wf(),
            wr_buffer@.len() > MAX_DMA_LEN ==> r == Err::<(), Error>(Error::TxBufferTooLong)
                && *final(self) == *old(self) && final(rd_buffer)@ == old(rd_buffer)@,
            wr_buffer@.len() <= MAX_DMA_LEN && old(rd_buffer)@.len() > MAX_DMA_LEN ==> r == Err::<
                (),
                Error,
            >(Error::RxBufferTooLong) && *final(self) == *old(self) && final(rd_buffer)@ == old(
                rd_buffer,
            )@,
            wr_buffer@.len() <= MAX_DMA_LEN && old(rd_buffer)@.len() <= MAX_DMA_LEN
                ==> final(self)@ == spi_wtr_regs(
                old(self)@,
                address,
                wr_buffer@.len() as u32,
                old(rd_buffer)@.len() as u32,
            ) && r == spi_wtr_outcome(
                old(self)@,
                wr_buffer@.len() as u32,
                old(rd_buffer)@.len() as u32,
            ) && final(rd_buffer)@.len() == old(rd_buffer)@.len()
                && (forall|i: int|
                0 <= i < old(rd_buffer)@.len() ==> final(rd_buffer)@[i] == line_resp(
                    old(self)@.wiring,
                    old(self)@.orc,
                )),
    {
        if wr_buffer.len() > MAX_DMA_LEN {
            return Err(Error::TxBufferTooLong);
        }
        if rd_buffer.len() > MAX_DMA_LEN {
            return Err(Error::RxBufferTooLong);
        }
        self.p.address = address;

        // Program the transmit and receive counts.
        self.p.txd_maxcnt = wr_buffer.len() as u32;
        self.p.rxd_maxcnt = rd_buffer.len() as u32;

        // Immediately start the read after the write, then stop.
        self.p.shorts_lasttx_startrx = true;
        self.p.shorts_lastrx_stop = true;

        // Start the write operation; the chains run the rest.
        self.p.task_starttx_chained(wr_buffer, rd_buffer);

        // Busy-wait until the whole transaction has ended.
        while self.p.events_stopped == 0
            invariant
                self.p.events_stopped == 1,
            decreases 0int,
        {
        }
        self.p.events_lasttx = 0;  // reset event
        self.p.events_lastrx = 0;  // reset event
        self.p.events_stopped = 0;  // reset event
        self.p.shorts_lasttx_startrx = false;
        self.p.shorts_lastrx_stop = false;

        let bad_write = self.p.txd_amount != wr_buffer.len() as u32;
        let bad_read = self.p.rxd_amount != rd_buffer.len() as u32;

        // Conservative fence so buffer accesses are not reordered around the
        // completion check.
        dma_fence();

        if bad_write {
            return Err(Error::Transmit);
        }
        if bad_read {
            return Err(Error::Receive);
        }
        Ok(())
    }

    /// Returns the raw register block, ending the driver's lifetime.
    pub fn free(self) -> (p: Periph)
        ensures
            p == self@,
    {
        self.p
    }
}

} // verus!
