//! Simulated SPI register block.
//!
//! One physical register range backs both peripheral variants. This module
//! models that range as a struct of plain register fields, together with a
//! small model of the world outside the peripheral: how the slave side of the
//! bus answers each byte (the wiring), and optional fault knobs that make the
//! hardware report a transferred amount different from the one requested.
//!
//! Task registers are triggered by calling the corresponding `task_*` method,
//! which performs the simulated transfer at once: it moves the bytes, sets the
//! amount registers and raises the completion events. Event registers read `0`
//! when not fired and `1` when fired, and are cleared by assigning `0` back.

use vstd::prelude::*;

verus! {

/// What the slave side of the bus does with each byte the master shifts out.
#[derive(Clone, Copy, Debug, PartialEq, Eq, Structural)]
pub enum Wiring {
    /// The data-in line is wired straight to the data-out line: the master
    /// reads back exactly the bytes it transmits.
    Loopback,
    /// Nothing drives the data-in line: the master reads `0` for every byte.
    Disconnected,
}

/// The byte the slave hands back when the master shifts out `b`.
pub open spec fn line_resp(w: Wiring, b: u8) -> u8 {
    match w {
        Wiring::Loopback => b,
        Wiring::Disconnected => 0u8,
    }
}

/// The byte the master shifts out at position `i` of a transaction that
/// transmits `tx`: a byte of `tx` while any remain, the over-read character
/// `orc` afterwards.
pub open spec fn mosi_byte(tx: Seq<u8>, orc: u8, i: int) -> u8 {
    if 0 <= i < tx.len() {
        tx[i]
    } else {
        orc
    }
}

/// The byte the master receives at position `i` of a full-duplex transaction
/// that transmits `tx`.
pub open spec fn exchanged_byte(w: Wiring, tx: Seq<u8>, orc: u8, i: int) -> u8 {
    line_resp(w, mosi_byte(tx, orc, i))
}

/// The amount the hardware reports for a transfer of `requested` bytes: the
/// requested count, unless a fault knob overrides it.
pub open spec fn reported_amount(fault: Option<u32>, requested: u32) -> u32 {
    match fault {
        Some(a) => a,
        None => requested,
    }
}

/// Loopback law: when the data-in line is wired straight to the data-out
/// line, every byte the master receives equals the byte it shifted out, so a
/// full-duplex transaction echoes its transmit data, and every position past
/// the transmit data carries the over-read character.
pub proof fn lemma_loopback_echo(tx: Seq<u8>, orc: u8)
    ensures
        forall|i: int|
            0 <= i < tx.len() ==> exchanged_byte(Wiring::Loopback, tx, orc, i) == tx[i],
        forall|i: int| i >= tx.len() ==> exchanged_byte(Wiring::Loopback, tx, orc, i) == orc,
        forall|b: u8| line_resp(Wiring::Loopback, b) == b,
{
}

/// The simulated register block, together with its mock-hardware knobs.
///
/// The DMA pointer registers of the real part are not represented: in this
/// model the buffers themselves are handed to the task trigger, which moves
/// the data directly.
#[derive(Clone)]
pub struct Periph {
    /// Pin routing register for the clock pin.
    pub psel_sck: u32,
    /// Pin routing register for the data-out pin.
    pub psel_mosi: u32,
    /// Pin routing register for the data-in pin.
    pub psel_miso: u32,
    /// Peripheral enable register: `1` when enabled.
    pub enable: u32,
    /// Protocol mode register (bit order, clock phase, clock polarity).
    pub config: u32,
    /// Bus frequency register.
    pub frequency: u32,
    /// Over-read character: the byte transmitted once the caller's data is
    /// exhausted.
    pub orc: u8,
    /// Slave address register of the byte-count driven variant.
    pub address: u8,
    /// Requested transmit byte count.
    pub txd_maxcnt: u32,
    /// Requested receive byte count.
    pub rxd_maxcnt: u32,
    /// Hardware-reported count of bytes actually transmitted.
    pub txd_amount: u32,
    /// Hardware-reported count of bytes actually received.
    pub rxd_amount: u32,
    /// Task chaining: receive start fires on transmit completion.
    pub shorts_lasttx_startrx: bool,
    /// Task chaining: stop fires on receive completion.
    pub shorts_lastrx_stop: bool,
    /// Completion event of the DMA-driven variant's combined transaction.
    pub events_end: u32,
    /// Transmit completion event of the byte-count driven variant.
    pub events_lasttx: u32,
    /// Receive completion event of the byte-count driven variant.
    pub events_lastrx: u32,
    /// Stop event of the byte-count driven variant.
    pub events_stopped: u32,
    /// Readiness flag of the byte-shift layout: `1` while the shift register
    /// is free to accept a byte, `0` while a received byte waits unread.
    pub events_ready: u32,
    /// Receive shift register of the byte-shift layout.
    pub rxd_byte: u8,
    /// Whether any transfer task was ever triggered on this block.
    pub ever_started: bool,
    /// How the slave side of the bus is wired.
    pub wiring: Wiring,
    /// Fault knob: the transmit amount the hardware reports instead of the
    /// requested one.
    pub fault_tx_amount: Option<u32>,
    /// Fault knob: the receive amount the hardware reports instead of the
    /// requested one.
    pub fault_rx_amount: Option<u32>,
    /// History of the byte-shift channel: every exchange that completed, in
    /// order, as (byte sent, byte received).
    pub exchanges: Ghost<Seq<(u8, u8)>>,
}

/// Register state of a block fresh out of reset, wired as `w`.
pub open spec fn reset_state(w: Wiring) -> Periph {
    Periph {
        psel_sck: 0u32,
        psel_mosi: 0u32,
        psel_miso: 0u32,
        enable: 0u32,
        config: 0u32,
        frequency: 0u32,
        orc: 0u8,
        address: 0u8,
        txd_maxcnt: 0u32,
        rxd_maxcnt: 0u32,
        txd_amount: 0u32,
        rxd_amount: 0u32,
        shorts_lasttx_startrx: false,
        shorts_lastrx_stop: false,
        events_end: 0u32,
        events_lasttx: 0u32,
        events_lastrx: 0u32,
        events_stopped: 0u32,
        events_ready: 1u32,
        rxd_byte: 0u8,
        ever_started: false,
        wiring: w,
        fault_tx_amount: None,
        fault_rx_amount: None,
        exchanges: Ghost(Seq::empty()),
    }
}

/// All register fields of `a` and `b` are equal; the mock knobs and the ghost
/// history are not compared.
pub open spec fn same_regs(a: Periph, b: Periph) -> bool {
    &&& a.psel_sck == b.psel_sck
    &&& a.psel_mosi == b.psel_mosi
    &&& a.psel_miso == b.psel_miso
    &&& a.enable == b.enable
    &&& a.config == b.config
    &&& a.frequency == b.frequency
    &&& a.orc == b.orc
    &&& a.address == b.address
    &&& a.txd_maxcnt == b.txd_maxcnt
    &&& a.rxd_maxcnt == b.rxd_maxcnt
    &&& a.txd_amount == b.txd_amount
    &&& a.rxd_amount == b.rxd_amount
    &&& a.shorts_lasttx_startrx == b.shorts_lasttx_startrx
    &&& a.shorts_lastrx_stop == b.shorts_lastrx_stop
    &&& a.events_end == b.events_end
    &&& a.events_lasttx == b.events_lasttx
    &&& a.events_lastrx == b.events_lastrx
    &&& a.events_stopped == b.events_stopped
    &&& a.events_ready == b.events_ready
    &&& a.rxd_byte == b.rxd_byte
}

/// All fields of `a` and `b` outside the byte-shift layout are equal: only the
/// readiness flag, the receive shift register and the exchange history may
/// differ.
pub open spec fn same_but_shift(a: Periph, b: Periph) -> bool {
    &&& a.psel_sck == b.psel_sck
    &&& a.psel_mosi == b.psel_mosi
    &&& a.psel_miso == b.psel_miso
    &&& a.enable == b.enable
    &&& a.config == b.config
    &&& a.frequency == b.frequency
    &&& a.orc == b.orc
    &&& a.address == b.address
    &&& a.txd_maxcnt == b.txd_maxcnt
    &&& a.rxd_maxcnt == b.rxd_maxcnt
    &&& a.txd_amount == b.txd_amount
    &&& a.rxd_amount == b.rxd_amount
    &&& a.shorts_lasttx_startrx == b.shorts_lasttx_startrx
    &&& a.shorts_lastrx_stop == b.shorts_lastrx_stop
    &&& a.events_end == b.events_end
    &&& a.events_lasttx == b.events_lasttx
    &&& a.events_lastrx == b.events_lastrx
    &&& a.events_stopped == b.events_stopped
    &&& a.ever_started == b.ever_started
    &&& a.wiring == b.wiring
    &&& a.fault_tx_amount == b.fault_tx_amount
    &&& a.fault_rx_amount == b.fault_rx_amount
}

impl Periph {
    /// A register block in reset state, wired as `wiring`.
    pub fn new(wiring: Wiring) -> (p: Periph)
        ensures
            p == reset_state(wiring),
    {
        Periph {
            psel_sck: 0,
            psel_mosi: 0,
            psel_miso: 0,
            enable: 0,
            config: 0,
            frequency: 0,
            orc: 0,
            address: 0,
            txd_maxcnt: 0,
            rxd_maxcnt: 0,
            txd_amount: 0,
            rxd_amount: 0,
            shorts_lasttx_startrx: false,
            shorts_lastrx_stop: false,
            events_end: 0,
            events_lasttx: 0,
            events_lastrx: 0,
            events_stopped: 0,
            events_ready: 1,
            rxd_byte: 0,
            ever_started: false,
            wiring,
            fault_tx_amount: None,
            fault_rx_amount: None,
            exchanges: Ghost(Seq::empty()),
        }
    }

    /// Compares the register fields of two blocks; the mock knobs and the
    /// ghost history are not compared.
    pub fn regs_eq(&self, other: &Periph) -> (r: bool)
        ensures
            r == same_regs(*self, *other),
    {
        self.psel_sck == other.psel_sck && self.psel_mosi == other.psel_mosi
            && self.psel_miso == other.psel_miso && self.enable == other.enable
            && self.config == other.config && self.frequency == other.frequency
            && self.orc == other.orc && self.address == other.address
            && self.txd_maxcnt == other.txd_maxcnt && self.rxd_maxcnt == other.rxd_maxcnt
            && self.txd_amount == other.txd_amount && self.rxd_amount == other.rxd_amount
            && self.shorts_lasttx_startrx == other.shorts_lasttx_startrx
            && self.shorts_lastrx_stop == other.shorts_lastrx_stop
            && self.events_end == other.events_end && self.events_lasttx == other.events_lasttx
            && self.events_lastrx == other.events_lastrx
            && self.events_stopped == other.events_stopped
            && self.events_ready == other.events_ready && self.rxd_byte == other.rxd_byte
    }

    /// Start task of the DMA-driven variant: one full-duplex transaction.
    ///
    /// Transmits `txd_maxcnt` bytes of `tx` (then the over-read character for
    /// the rest of the transaction) and captures the first `rxd_maxcnt`
    /// received bytes into `rx`, then reports the amounts and raises the
    /// completion event.
    pub fn task_start(&mut self, tx: &Vec<u8>, rx: &mut Vec<u8>)
        requires
            old(self).txd_maxcnt as int <= tx@.len(),
            old(self).rxd_maxcnt as int <= old(rx)@.len(),
        ensures
            *final(self) == (Periph {
                txd_amount: reported_amount(old(self).fault_tx_amount, old(self).txd_maxcnt),
                rxd_amount: reported_amount(old(self).fault_rx_amount, old(self).rxd_maxcnt),
                events_end: 1u32,
                ever_started: true,
                ..*old(self)
            }),
            final(rx)@.len() == old(rx)@.len(),
            forall|i: int|
                0 <= i < old(self).rxd_maxcnt as int ==> final(rx)@[i] == exchanged_byte(
                    old(self).wiring,
                    tx@.subrange(0, old(self).txd_maxcnt as int),
                    old(self).orc,
                    i,
                ),
            forall|i: int|
                old(self).rxd_maxcnt as int <= i < old(rx)@.len() ==> final(rx)@[i] == old(
                    rx,
                )@[i],
    {
        let tn: usize = self.txd_maxcnt as usize;
        let n: usize = self.rxd_maxcnt as usize;
        let orc = self.orc;
        let w = self.wiring;
        let mut i: usize = 0;
        while i < n
            invariant
                i <= n,
                rx@.len() == old(rx)@.len(),
                forall|j: int|
                    0 <= j < i ==> rx@[j] == exchanged_byte(
                        w,
                        tx@.subrange(0, tn as int),
                        orc,
                        j,
                    ),
                forall|j: int| i <= j < rx@.len() ==> rx@[j] == old(rx)@[j],
            decreases n - i,
        {
            let out: u8 = if i < tn {
                tx[i]
            } else {
                orc
            };
            let b: u8 = match w {
                Wiring::Loopback => out,
                Wiring::Disconnected => 0,
            };
            rx.set(i, b);
            i = i + 1;
        }
        self.txd_amount = match self.fault_tx_amount {
            Some(a) => a,
            None => self.txd_maxcnt,
        };
        self.rxd_amount = match self.fault_rx_amount {
            Some(a) => a,
            None => self.rxd_maxcnt,
        };
        self.events_end = 1;
        self.ever_started = true;
    }

    /// Transmit start task of the byte-count driven variant, with task
    /// chaining off: transmits `txd_maxcnt` bytes of `tx`, reports the
    /// amount and raises the transmit completion event.
    pub fn task_starttx(&mut self, tx: &Vec<u8>)
        requires
            old(self).txd_maxcnt as int <= tx@.len(),
            !old(self).shorts_lasttx_startrx,
        ensures
            *final(self) == (Periph {
                txd_amount: reported_amount(old(self).fault_tx_amount, old(self).txd_maxcnt),
                events_lasttx: 1u32,
                ever_started: true,
                ..*old(self)
            }),
    {
        // The transmitted bytes themselves go nowhere: nothing captures them
        // during a transmit-only transaction.
        self.txd_amount = match self.fault_tx_amount {
            Some(a) => a,
            None => self.txd_maxcnt,
        };
        self.events_lasttx = 1;
        self.ever_started = true;
    }

    /// Transmit start task of the byte-count driven variant, with both task
    /// chains on: the receive start fires on transmit completion and the stop
    /// on receive completion, so one trigger runs the whole transaction.
    ///
    /// The receive phase follows the transmit phase, during which the master
    /// shifts out the over-read character; `rx` captures what the wiring
    /// answers to it.
    pub fn task_starttx_chained(&mut self, tx: &Vec<u8>, rx: &mut Vec<u8>)
        requires
            old(self).txd_maxcnt as int <= tx@.len(),
            old(self).rxd_maxcnt as int <= old(rx)@.len(),
            old(self).shorts_lasttx_startrx,
            old(self).shorts_lastrx_stop,
        ensures
            *final(self) == (Periph {
                txd_amount: reported_amount(old(self).fault_tx_amount, old(self).txd_maxcnt),
                rxd_amount: reported_amount(old(self).fault_rx_amount, old(self).rxd_maxcnt),
                events_lasttx: 1u32,
                events_lastrx: 1u32,
                events_stopped: 1u32,
                ever_started: true,
                ..*old(self)
            }),
            final(rx)@.len() == old(rx)@.len(),
            forall|i: int|
                0 <= i < old(self).rxd_maxcnt as int ==> final(rx)@[i] == line_resp(
                    old(self).wiring,
                    old(self).orc,
                ),
            forall|i: int|
                old(self).rxd_maxcnt as int <= i < old(rx)@.len() ==> final(rx)@[i] == old(
                    rx,
                )@[i],
    {
        self.fill_rx_with_overread(rx);
        self.txd_amount = match self.fault_tx_amount {
            Some(a) => a,
            None => self.txd_maxcnt,
        };
        self.rxd_amount = match self.fault_rx_amount {
            Some(a) => a,
            None => self.rxd_maxcnt,
        };
        self.events_lasttx = 1;
        self.events_lastrx = 1;
        self.events_stopped = 1;
        self.ever_started = true;
    }

    /// Receive start task of the byte-count driven variant, with task
    /// chaining off: captures `rxd_maxcnt` bytes into `rx` while the master
    /// shifts out the over-read character, reports the amount and raises the
    /// receive completion event.
    pub fn task_startrx(&mut self, rx: &mut Vec<u8>)
        requires
            old(self).rxd_maxcnt as int <= old(rx)@.len(),
            !old(self).shorts_lastrx_stop,
        ensures
            *final(self) == (Periph {
                rxd_amount: reported_amount(old(self).fault_rx_amount, old(self).rxd_maxcnt),
                events_lastrx: 1u32,
                ever_started: true,
                ..*old(self)
            }),
            final(rx)@.len() == old(rx)@.len(),
            forall|i: int|
                0 <= i < old(self).rxd_maxcnt as int ==> final(rx)@[i] == line_resp(
                    old(self).wiring,
                    old(self).orc,
                ),
            forall|i: int|
                old(self).rxd_maxcnt as int <= i < old(rx)@.len() ==> final(rx)@[i] == old(
                    rx,
                )@[i],
    {
        self.fill_rx_with_overread(rx);
        self.rxd_amount = match self.fault_rx_amount {
            Some(a) => a,
            None => self.rxd_maxcnt,
        };
        self.events_lastrx = 1;
        self.ever_started = true;
    }

    /// Stop task of the byte-count driven variant: raises the stop event.
    pub fn task_stop(&mut self)
        ensures
            *final(self) == (Periph { events_stopped: 1u32, ..*old(self) }),
    {
        self.events_stopped = 1;
    }

    /// The receive phase of a transaction whose transmit data is exhausted:
    /// every captured byte is the wiring's answer to the over-read character.
    fn fill_rx_with_overread(&mut self, rx: &mut Vec<u8>)
        requires
            old(self).rxd_maxcnt as int <= old(rx)@.len(),
        ensures
            *final(self) == *old(self),
            final(rx)@.len() == old(rx)@.len(),
            forall|i: int|
                0 <= i < old(self).rxd_maxcnt as int ==> final(rx)@[i] == line_resp(
                    old(self).wiring,
                    old(self).orc,
                ),
            forall|i: int|
                old(self).rxd_maxcnt as int <= i < old(rx)@.len() ==> final(rx)@[i] == old(
                    rx,
                )@[i],
    {
        let n: usize = self.rxd_maxcnt as usize;
        let b: u8 = match self.wiring {
            Wiring::Loopback => self.orc,
            Wiring::Disconnected => 0,
        };
        let mut i: usize = 0;
        while i < n
            invariant
                i <= n,
                rx@.len() == old(rx)@.len(),
                forall|j: int| 0 <= j < i ==> rx@[j] == line_resp(self.wiring, self.orc),
                forall|j: int| i <= j < rx@.len() ==> rx@[j] == old(rx)@[j],
            decreases n - i,
        {
            rx.set(i, b);
            i = i + 1;
        }
    }

    /// Writing the transmit shift register of the byte-shift layout while the
    /// readiness flag is set: the full-duplex exchange of one byte happens,
    /// the received byte lands in the receive shift register, the readiness
    /// flag drops until that byte is read, and the exchange joins the
    /// history.
    pub fn txd_write(&mut self, word: u8)
        requires
            old(self).events_ready != 0,
        ensures
            *final(self) == (Periph {
                events_ready: 0u32,
                rxd_byte: line_resp(old(self).wiring, word),
                exchanges: Ghost(
                    old(self).exchanges@.push((word, line_resp(old(self).wiring, word))),
                ),
                ..*old(self)
            }),
    {
        let b: u8 = match self.wiring {
            Wiring::Loopback => word,
            Wiring::Disconnected => 0,
        };
        self.rxd_byte = b;
        self.events_ready = 0;
        self.exchanges = Ghost(self.exchanges@.push((word, b)));
    }

    /// Reading the receive shift register of the byte-shift layout while a
    /// received byte waits: hands the byte out and raises the readiness flag
    /// again.
    pub fn rxd_read(&mut self) -> (r: u8)
        requires
            old(self).events_ready == 0,
        ensures
            r == old(self).rxd_byte,
            *final(self) == (Periph { events_ready: 1u32, ..*old(self) }),
    {
        self.events_ready = 1;
        self.rxd_byte
    }
}

/// Relies on `core::sync::atomic::compiler_fence`: a compiler-level barrier
/// with no effect on any value. Issued right after a DMA completion check so
/// that buffer accesses are not reordered around it.
#[verifier::external_body]
pub(crate) fn dma_fence() {
    core::sync::atomic::compiler_fence(core::sync::atomic::Ordering::AcqRel);
}

} // verus!
