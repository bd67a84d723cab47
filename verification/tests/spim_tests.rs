use nrf52_spi::gpio::{InputPin, OutputPin};
use nrf52_spi::hw::{Periph, Wiring};
use nrf52_spi::spim::{Pins, SPIError, Spim, SpimExt};

fn pins() -> Pins {
    Pins { sck: OutputPin::new(1), mosi: OutputPin::new(2), miso: InputPin::new(3) }
}

fn loopback_spim() -> Spim {
    Spim::new(Periph::new(Wiring::Loopback), pins())
}

#[test]
fn configure_programs_registers() {
    let p = loopback_spim().free();
    assert_eq!(p.psel_sck, 1);
    assert_eq!(p.psel_mosi, 2);
    assert_eq!(p.psel_miso, 3);
    assert_eq!(p.enable, 1);
    assert_eq!(p.config, 0);
    assert_eq!(p.frequency, 0x0800_0000);
    assert_eq!(p.orc, 0);
    assert!(!p.ever_started);
}

#[test]
fn constrain_matches_new() {
    let a = Periph::new(Wiring::Loopback).constrain(pins()).free();
    let b = loopback_spim().free();
    assert!(a.regs_eq(&b));
}

#[test]
fn write_ok_and_chip_select_ends_high() {
    let mut s = loopback_spim();
    let mut cs = OutputPin::new(4);
    let r = s.write(&mut cs, &vec![0xAA, 0xBB, 0xCC]);
    assert_eq!(r, Ok(()));
    assert!(cs.is_set_high());
    let p = s.free();
    assert!(p.ever_started);
    assert_eq!(p.txd_maxcnt, 3);
    assert_eq!(p.txd_amount, 3);
    assert_eq!(p.rxd_maxcnt, 0);
    assert_eq!(p.events_end, 0);
}

#[test]
fn read_loopback_echoes_probe() {
    let mut s = loopback_spim();
    let mut cs = OutputPin::new(4);
    let tx = vec![0x10, 0x20, 0x30];
    let mut rx = vec![0xFFu8; 5];
    let r = s.read(&mut cs, &tx, &mut rx);
    assert_eq!(r, Ok(()));
    assert_eq!(rx, vec![0x10, 0x20, 0x30, 0x00, 0x00]);
    assert!(cs.is_set_high());
}

#[test]
fn read_disconnected_yields_zeroes() {
    let mut s = Spim::new(Periph::new(Wiring::Disconnected), pins());
    let mut cs = OutputPin::new(4);
    let mut rx = vec![0xFFu8; 4];
    let r = s.read(&mut cs, &vec![0x55, 0x66], &mut rx);
    assert_eq!(r, Ok(()));
    assert_eq!(rx, vec![0x00, 0x00, 0x00, 0x00]);
}

#[test]
fn reference_message_echoes_with_overread_tail() {
    // Reference message wired data-out to data-in, received into a full
    // 255-byte buffer: the message comes back first, the rest carries the
    // over-read character.
    let message = b"Hello,echo Loopback".to_vec();
    assert_eq!(message.len(), 19);
    let mut s = loopback_spim();
    let mut cs = OutputPin::new(4);
    let mut rx = vec![0xFFu8; 255];
    let r = s.read(&mut cs, &message, &mut rx);
    assert_eq!(r, Ok(()));
    assert_eq!(&rx[..19], &message[..]);
    assert_eq!(&rx[19..], &[0u8; 236][..]);
}

#[test]
fn write_too_long_touches_no_register() {
    let mut s = loopback_spim();
    let mut cs = OutputPin::new(4);
    let r = s.write(&mut cs, &vec![0u8; 300]);
    assert_eq!(r, Err(SPIError::TxBufferTooLong));
    // The chip-select line was never driven and the start task was never
    // triggered.
    assert!(!cs.is_set_high());
    let p = s.free();
    assert!(!p.ever_started);
    let untouched = loopback_spim().free();
    assert!(p.regs_eq(&untouched));
}

#[test]
fn read_too_long_buffers_are_rejected_per_direction() {
    let mut s = loopback_spim();
    let mut cs = OutputPin::new(4);
    let mut rx = vec![0u8; 4];
    let r = s.read(&mut cs, &vec![0u8; 256], &mut rx);
    assert_eq!(r, Err(SPIError::TxBufferTooLong));
    let mut rx_long = vec![0u8; 256];
    let r = s.read(&mut cs, &vec![0u8; 4], &mut rx_long);
    assert_eq!(r, Err(SPIError::RxBufferTooLong));
    let p = s.free();
    assert!(!p.ever_started);
}

#[test]
fn transmit_amount_mismatch_is_reported() {
    let mut periph = Periph::new(Wiring::Loopback);
    periph.fault_tx_amount = Some(2);
    let mut s = Spim::new(periph, pins());
    let mut cs = OutputPin::new(4);
    let r = s.write(&mut cs, &vec![1, 2, 3]);
    assert_eq!(r, Err(SPIError::Transmit));
    // The transaction still ran and chip select still ends high.
    assert!(cs.is_set_high());
    let p = s.free();
    assert!(p.ever_started);
    assert_eq!(p.txd_amount, 2);
}

#[test]
fn receive_amount_mismatch_is_reported() {
    let mut periph = Periph::new(Wiring::Loopback);
    periph.fault_rx_amount = Some(1);
    let mut s = Spim::new(periph, pins());
    let mut cs = OutputPin::new(4);
    let mut rx = vec![0u8; 3];
    let r = s.read(&mut cs, &vec![9, 8, 7], &mut rx);
    assert_eq!(r, Err(SPIError::Receive));
    assert!(cs.is_set_high());
    // The buffer holds exactly what the transfer wrote, untouched by the
    // error path.
    assert_eq!(rx, vec![9, 8, 7]);
}

#[test]
fn transmit_mismatch_takes_priority_over_receive_mismatch() {
    let mut periph = Periph::new(Wiring::Loopback);
    periph.fault_tx_amount = Some(0);
    periph.fault_rx_amount = Some(0);
    let mut s = Spim::new(periph, pins());
    let mut cs = OutputPin::new(4);
    let mut rx = vec![0u8; 2];
    let r = s.read(&mut cs, &vec![1, 2], &mut rx);
    assert_eq!(r, Err(SPIError::Transmit));
    assert!(cs.is_set_high());
}

#[test]
fn empty_buffers_transfer_nothing() {
    let mut s = loopback_spim();
    let mut cs = OutputPin::new(4);
    let mut rx: Vec<u8> = Vec::new();
    assert_eq!(s.read(&mut cs, &Vec::new(), &mut rx), Ok(()));
    assert_eq!(s.write(&mut cs, &Vec::new()), Ok(()));
    assert!(rx.is_empty());
}

#[test]
fn boundary_length_is_accepted() {
    let mut s = loopback_spim();
    let mut cs = OutputPin::new(4);
    assert_eq!(s.write(&mut cs, &vec![0u8; 255]), Ok(()));
    assert_eq!(s.write(&mut cs, &vec![0u8; 256]), Err(SPIError::TxBufferTooLong));
}
