//! Non-blocking full-duplex byte channel.
//!
//! The same physical register range that hosts the DMA-driven driver also
//! carries a byte-shift layout: a transmit shift register, a receive shift
//! register and a readiness flag. This module reaches that layout by taking
//! ownership of the DMA-oriented handle, so only one interpretation of the
//! shared registers is ever live — the two would otherwise race on the same
//! hardware state.
//!
//! The two primitives each either complete at once or report that the
//! channel is not ready: [`ByteChannel::send`] completes only while the
//! readiness flag is set, [`ByteChannel::read`] only while it is clear (a
//! set flag means the receiver has not yet produced a fresh byte).
//! [`ByteChannel::transfer`] exchanges a whole buffer in place, one byte at
//! a time, spinning on each primitive: the byte at position `i` is received
//! only after the send at position `i` completed, so no two exchanges
//! overlap.

use vstd::prelude::*;

use crate::hw::{line_resp, same_but_shift, Periph, Wiring};
use crate::spim::{SPIError, Spim};

verus! {

/// Result of one non-blocking primitive: completed, or not ready yet.
#[derive(Debug, PartialEq, Eq, Structural)]
pub enum Nb<T> {
    /// The operation completed.
    Ready(T),
    /// The channel is not ready; retry later.
    WouldBlock,
}

/// The exchange history grown by the bytes of `words`, each answered by the
/// wiring `w`.
pub open spec fn log_after(log: Seq<(u8, u8)>, w: Wiring, words: Seq<u8>) -> Seq<(u8, u8)> {
    log + Seq::new(words.len(), |i: int| (words[i], line_resp(w, words[i])))
}

/// The byte-shift interpretation of the shared register range.
///
/// Constructed by consuming the DMA-oriented handle and dissolved by handing
/// it back, so the two interpretations are never live at once.
pub struct ByteChannel {
    p: Periph,
}

impl View for ByteChannel {
    type V = Periph;

    closed spec fn view(&self) -> Periph {
        self.p
    }
}

impl ByteChannel {
    /// The channel's register invariant: the readiness flag is a single bit.
    pub open spec fn wf(self) -> bool {
        self@.events_ready <= 1
    }

    /// The channel is idle: ready to send, with no received byte waiting.
    pub open spec fn idle(self) -> bool {
        self@.events_ready == 1
    }

    /// Takes the byte-shift view of the registers owned by `spim`.
    pub fn new(spim: Spim) -> (c: ByteChannel)
        ensures
            c@ == spim@,
    {
        ByteChannel { p: spim.free() }
    }

    /// Returns the DMA-oriented handle, ending the byte-shift view.
    pub fn free(self) -> (s: Spim)
        ensures
            s@ == self@,
    {
        Spim::from_parts(self.p)
    }

    /// Whether the channel is idle; [`ByteChannel::send`] completes exactly
    /// in this state.
    pub fn is_idle(&self) -> (r: bool)
        ensures
            r == self.idle(),
    {
        self.p.events_ready == 1
    }

    /// Sends one byte, without blocking.
    ///
    /// While the readiness flag is clear the channel reports not-ready and
    /// nothing changes. Otherwise the byte goes into the transmit shift
    /// register: the exchange completes at once, the answer waits in the
    /// receive shift register, and the readiness flag drops until it is
    /// read.
    pub fn send(&mut self, word: u8) -> (r: Nb<()>)
        requires
            old(self).wf(),
        ensures
            final(self).wf(),
            old(self)@.events_ready == 0
                ==> r == Nb::<()>::WouldBlock && *final(self) == *old(self),
            old(self)@.events_ready != 0 ==> r == Nb::<()>::Ready(()) && final(self)@ == (Periph {
                events_ready: 0u32,
                rxd_byte: line_resp(old(self)@.wiring, word),
                exchanges: Ghost(
                    old(self)@.exchanges@.push((word, line_resp(old(self)@.wiring, word))),
                ),
                ..old(self)@
            }),
    {
        if self.p.events_ready == 0 {
            Nb::WouldBlock
        } else {
            self.p.txd_write(word);
            Nb::Ready(())
        }
    }

    /// Receives one byte, without blocking.
    ///
    /// While the readiness flag is set the receiver has not yet produced a
    /// fresh byte and the channel reports not-ready. Otherwise the waiting
    /// byte is read out of the receive shift register, which raises the
    /// readiness flag again.
    pub fn read(&mut self) -> (r: Nb<u8>)
        requires
            old(self).wf(),
        ensures
            final(self).wf(),
            old(self)@.events_ready == 1
                ==> r == Nb::<u8>::WouldBlock && *final(self) == *old(self),
            old(self)@.events_ready != 1 ==> r == Nb::<u8>::Ready(old(self)@.rxd_byte)
                && final(self)@ == (Periph { events_ready: 1u32, ..old(self)@ }),
    {
        if self.p.events_ready == 1 {
            Nb::WouldBlock
        } else {
            let b = self.p.rxd_read();
            Nb::Ready(b)
        }
    }

    /// Spins on [`ByteChannel::send`] until it completes.
    #[verifier::loop_isolation(true)]
    fn send_blocking(&mut self, word: u8)
        requires
            old(self).wf(),
            old(self).idle(),
        ensures
            final(self).wf(),
            final(self)@ == (Periph {
                events_ready: 0u32,
                rxd_byte: line_resp(old(self)@.wiring, word),
                exchanges: Ghost(
                    old(self)@.exchanges@.push((word, line_resp(old(self)@.wiring, word))),
                ),
                ..old(self)@
            }),
    {
        loop
            invariant_except_break
                self.wf(),
                self.idle(),
                *self == *old(self),
            ensures
                final(self)@ == (Periph {
                    events_ready: 0u32,
                    rxd_byte: line_resp(old(self)@.wiring, word),
                    exchanges: Ghost(
                        old(self)@.exchanges@.push((word, line_resp(old(self)@.wiring, word))),
                    ),
                    ..old(self)@
                }),
            decreases 0int,
        {
            match self.send(word) {
                Nb::Ready(_) => {
                    break;
                },
                Nb::WouldBlock => {},
            }
        }
    }

    /// Spins on [`ByteChannel::read`] until it completes.
    #[verifier::loop_isolation(true)]
    fn read_blocking(&mut self) -> (r: u8)
        requires
            old(self).wf(),
            old(self)@.events_ready == 0,
        ensures
            final(self).wf(),
            r == old(self)@.rxd_byte,
            final(self)@ == (Periph { events_ready: 1u32, ..old(self)@ }),
    {
        let mut received: u8 = 0;
        loop
            invariant_except_break
                self.wf(),
                self@.events_ready == 0,
                *self == *old(self),
            ensures
                received == old(self)@.rxd_byte,
                final(self)@ == (Periph { events_ready: 1u32, ..old(self)@ }),
            decreases 0int,
        {
            match self.read() {
                Nb::Ready(b) => {
                    received = b;
                    break;
                },
                Nb::WouldBlock => {},
            }
        }
        received
    }

    /// Exchanges `words` in place: for each byte position in order, spins
    /// until the byte is sent, then spins until its answer is received, and
    /// overwrites the position with that answer. Every position is a genuine
    /// full-duplex exchange, and the exchanges happen strictly in order, one
    /// at a time.
    pub fn transfer(&mut self, words: &mut Vec<u8>) -> (r: Result<(), SPIError>)
        requires
            old(self).wf(),
            old(self).idle(),
        ensures
            final(self).wf(),
            final(self).idle(),
            r == Ok::<(), SPIError>(()),
            final(words)@.len() == old(words)@.len(),
            forall|i: int|
                0 <= i < old(words)@.len() ==> final(words)@[i] == line_resp(
                    old(self)@.wiring,
                    old(words)@[i],
                ),
            final(self)@.exchanges@ == log_after(
                old(self)@.exchanges@,
                old(self)@.wiring,
                old(words)@,
            ),
            same_but_shift(old(self)@, final(self)@),
    {
        let n = words.len();
        let mut i: usize = 0;
        while i < n
            invariant
                self.wf(),
                self.idle(),
                i <= n,
                n == words@.len(),
                words@.len() == old(words)@.len(),
                same_but_shift(old(self)@, self@),
                forall|j: int|
                    0 <= j < i ==> words@[j] == line_resp(old(self)@.wiring, old(words)@[j]),
                forall|j: int| i <= j < n ==> words@[j] == old(words)@[j],
                self@.exchanges@ == log_after(
                    old(self)@.exchanges@,
                    old(self)@.wiring,
                    old(words)@.subrange(0, i as int),
                ),
            decreases n - i,
        {
            let ghost pre_log = self@.exchanges@;
            let b = words[i];
            self.send_blocking(b);
            let answer = self.read_blocking();
            words.set(i, answer);
            proof {
                assert(log_after(
                    old(self)@.exchanges@,
                    old(self)@.wiring,
                    old(words)@.subrange(0, i + 1),
                ) =~= pre_log.push((b, line_resp(old(self)@.wiring, b))));
            }
            i = i + 1;
        }
        proof {
            assert(old(words)@.subrange(0, old(words)@.len() as int) =~= old(words)@);
        }
        Ok(())
    }
}

} // verus!
