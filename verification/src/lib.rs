//! Driver layer for a microcontroller's synchronous serial (SPI) peripheral,
//! in two register-compatible variants sharing one physical register range:
//!
//! - [`spim`]: a DMA-driven peripheral with chip-select gated transactions;
//! - [`spi`]: a byte-count driven peripheral with separate start/stop tasks
//!   and hardware task chaining for combined write-then-read transactions;
//! - [`channel`]: a non-blocking full-duplex byte channel reached by viewing
//!   the same register range through its byte-shift layout.
//!
//! The register block itself is modelled in [`hw`] as a simulated peripheral:
//! registers are plain fields, task triggers run the simulated transfer, and
//! the slave side of the bus is a configurable wiring model. Every driver
//! operation is specified and verified against that model.
#![verifier::loop_isolation(false)]

pub mod channel;
pub mod gpio;
pub mod hw;
pub mod spi;
pub mod spim;
