use nrf52_spi::gpio::{InputPin, OutputPin};
use nrf52_spi::hw::{Periph, Wiring};
use nrf52_spi::spi::{Error, Frequency, Pins, Spi, SpiExt};

fn pins() -> Pins {
    Pins { sck: OutputPin::new(5), mosi: OutputPin::new(6), miso: InputPin::new(7) }
}

fn loopback_spi(frequency: Frequency) -> Spi {
    Spi::new(Periph::new(Wiring::Loopback), pins(), frequency)
}

#[test]
fn spi_configure_programs_registers() {
    let p = loopback_spi(Frequency::M1).free();
    assert_eq!(p.psel_sck, 5);
    assert_eq!(p.psel_mosi, 6);
    assert_eq!(p.psel_miso, 7);
    assert_eq!(p.enable, 1);
    assert_eq!(p.config, 0);
    assert_eq!(p.frequency, 0x1000_0000);
    assert!(!p.ever_started);
}

#[test]
fn frequency_register_values() {
    assert_eq!(Frequency::K125.bits(), 0x0200_0000);
    assert_eq!(Frequency::K250.bits(), 0x0400_0000);
    assert_eq!(Frequency::K500.bits(), 0x0800_0000);
    assert_eq!(Frequency::M2.bits(), 0x2000_0000);
    assert_eq!(Frequency::M4.bits(), 0x4000_0000);
    assert_eq!(Frequency::M8.bits(), 0x8000_0000);
}

#[test]
fn spi_constrain_matches_new() {
    let a = Periph::new(Wiring::Loopback).constrain(pins(), Frequency::K500).free();
    let b = loopback_spi(Frequency::K500).free();
    assert!(a.regs_eq(&b));
}

#[test]
fn write_ok_programs_address_and_count() {
    let mut s = loopback_spi(Frequency::K500);
    let r = s.write(0x42, &vec![1, 2, 3, 4]);
    assert_eq!(r, Ok(()));
    let p = s.free();
    assert_eq!(p.address, 0x42);
    assert_eq!(p.txd_maxcnt, 4);
    assert_eq!(p.txd_amount, 4);
    assert!(p.ever_started);
    // Every event was observed and cleared.
    assert_eq!(p.events_lasttx, 0);
    assert_eq!(p.events_stopped, 0);
}

#[test]
fn read_fills_buffer_with_overread_answer() {
    // With no transmit data programmed the master shifts out the over-read
    // character; on loopback the buffer captures it back.
    let mut s = loopback_spi(Frequency::K500);
    let mut buf = vec![0xFFu8; 3];
    let r = s.read(0x01, &mut buf);
    assert_eq!(r, Ok(()));
    assert_eq!(buf, vec![0x00, 0x00, 0x00]);
    let p = s.free();
    assert_eq!(p.rxd_maxcnt, 3);
    assert_eq!(p.rxd_amount, 3);
}

#[test]
fn write_then_read_runs_chained_transaction() {
    let mut s = loopback_spi(Frequency::K500);
    let mut rd = vec![0xFFu8; 2];
    let r = s.write_then_read(0x10, &vec![0xAB, 0xCD, 0xEF], &mut rd);
    assert_eq!(r, Ok(()));
    // The read phase follows the write phase, so it captures the wiring's
    // answer to the over-read character, not the written bytes.
    assert_eq!(rd, vec![0x00, 0x00]);
    let p = s.free();
    assert_eq!(p.txd_maxcnt, 3);
    assert_eq!(p.rxd_maxcnt, 2);
    // The chain configuration and all three events were cleared.
    assert!(!p.shorts_lasttx_startrx);
    assert!(!p.shorts_lastrx_stop);
    assert_eq!(p.events_lasttx, 0);
    assert_eq!(p.events_lastrx, 0);
    assert_eq!(p.events_stopped, 0);
}

#[test]
fn too_long_buffers_touch_no_register() {
    let mut s = loopback_spi(Frequency::K500);
    assert_eq!(s.write(0x01, &vec![0u8; 300]), Err(Error::TxBufferTooLong));
    let mut long = vec![0u8; 300];
    assert_eq!(s.read(0x01, &mut long), Err(Error::RxBufferTooLong));
    let mut rd = vec![0u8; 2];
    assert_eq!(s.write_then_read(0x01, &vec![0u8; 300], &mut rd), Err(Error::TxBufferTooLong));
    assert_eq!(s.write_then_read(0x01, &vec![0u8; 2], &mut long), Err(Error::RxBufferTooLong));
    let p = s.free();
    assert!(!p.ever_started);
    let untouched = loopback_spi(Frequency::K500).free();
    assert!(p.regs_eq(&untouched));
}

#[test]
fn spi_transmit_amount_mismatch_is_reported() {
    let mut periph = Periph::new(Wiring::Loopback);
    periph.fault_tx_amount = Some(9);
    let mut s = Spi::new(periph, pins(), Frequency::K500);
    assert_eq!(s.write(0x01, &vec![1, 2]), Err(Error::Transmit));
}

#[test]
fn spi_receive_amount_mismatch_is_reported() {
    let mut periph = Periph::new(Wiring::Loopback);
    periph.fault_rx_amount = Some(0);
    let mut s = Spi::new(periph, pins(), Frequency::K500);
    let mut buf = vec![0u8; 2];
    assert_eq!(s.read(0x01, &mut buf), Err(Error::Receive));
    // The buffer holds what the transfer wrote even on the error path.
    assert_eq!(buf, vec![0x00, 0x00]);
}

#[test]
fn write_then_read_reports_transmit_mismatch_first() {
    let mut periph = Periph::new(Wiring::Loopback);
    periph.fault_tx_amount = Some(0);
    periph.fault_rx_amount = Some(0);
    let mut s = Spi::new(periph, pins(), Frequency::K500);
    let mut rd = vec![0u8; 2];
    assert_eq!(s.write_then_read(0x10, &vec![1, 2], &mut rd), Err(Error::Transmit));
}
