use nrf52_spi::channel::{ByteChannel, Nb};
use nrf52_spi::gpio::{InputPin, OutputPin};
use nrf52_spi::hw::{Periph, Wiring};
use nrf52_spi::spim::{Pins, Spim};

fn loopback_channel() -> ByteChannel {
    let pins = Pins { sck: OutputPin::new(1), mosi: OutputPin::new(2), miso: InputPin::new(3) };
    ByteChannel::new(Spim::new(Periph::new(Wiring::Loopback), pins))
}

#[test]
fn read_before_any_send_is_not_ready() {
    let mut ch = loopback_channel();
    assert!(ch.is_idle());
    assert_eq!(ch.read(), Nb::WouldBlock);
    // Nothing changed: the channel is still idle.
    assert!(ch.is_idle());
}

#[test]
fn send_then_read_exchanges_one_byte() {
    let mut ch = loopback_channel();
    assert_eq!(ch.send(0x5A), Nb::Ready(()));
    assert!(!ch.is_idle());
    assert_eq!(ch.read(), Nb::Ready(0x5A));
    assert!(ch.is_idle());
}

#[test]
fn second_send_waits_for_the_unread_byte() {
    let mut ch = loopback_channel();
    assert_eq!(ch.send(0x01), Nb::Ready(()));
    // The answer to the first byte has not been read yet.
    assert_eq!(ch.send(0x02), Nb::WouldBlock);
    assert_eq!(ch.read(), Nb::Ready(0x01));
    assert_eq!(ch.send(0x02), Nb::Ready(()));
    assert_eq!(ch.read(), Nb::Ready(0x02));
}

#[test]
fn send_on_disconnected_wiring_reads_zero() {
    let pins = Pins { sck: OutputPin::new(1), mosi: OutputPin::new(2), miso: InputPin::new(3) };
    let mut ch = ByteChannel::new(Spim::new(Periph::new(Wiring::Disconnected), pins));
    assert_eq!(ch.send(0x7F), Nb::Ready(()));
    assert_eq!(ch.read(), Nb::Ready(0x00));
}

#[test]
fn transfer_echoes_buffer_in_place() {
    let mut ch = loopback_channel();
    let mut words = b"Hello,echo Loopback".to_vec();
    let r = ch.transfer(&mut words);
    assert_eq!(r, Ok(()));
    assert_eq!(words, b"Hello,echo Loopback".to_vec());
    assert!(ch.is_idle());
}

#[test]
fn transfer_on_disconnected_wiring_zeroes_buffer() {
    let pins = Pins { sck: OutputPin::new(1), mosi: OutputPin::new(2), miso: InputPin::new(3) };
    let mut ch = ByteChannel::new(Spim::new(Periph::new(Wiring::Disconnected), pins));
    let mut words = vec![1, 2, 3];
    assert_eq!(ch.transfer(&mut words), Ok(()));
    assert_eq!(words, vec![0, 0, 0]);
}

#[test]
fn transfer_of_empty_buffer_is_a_no_op() {
    let mut ch = loopback_channel();
    let mut words: Vec<u8> = Vec::new();
    assert_eq!(ch.transfer(&mut words), Ok(()));
    assert!(words.is_empty());
}

#[test]
fn channel_opens_after_dma_transactions() {
    // The byte-shift layout shares the DMA variant's registers: a DMA
    // transaction leaves the shift channel idle and usable.
    let pins = Pins { sck: OutputPin::new(1), mosi: OutputPin::new(2), miso: InputPin::new(3) };
    let mut spim = Spim::new(Periph::new(Wiring::Loopback), pins);
    let mut cs = OutputPin::new(4);
    assert_eq!(spim.write(&mut cs, &vec![0x33]), Ok(()));
    let mut ch = ByteChannel::new(spim);
    assert!(ch.is_idle());
    assert_eq!(ch.send(0x44), Nb::Ready(()));
    assert_eq!(ch.read(), Nb::Ready(0x44));
}

#[test]
fn channel_hands_the_dma_handle_back() {
    // Only one interpretation of the register range is live at a time: the
    // channel consumes the DMA handle and returns it, after which DMA
    // transactions work again.
    let mut ch = loopback_channel();
    let mut words = vec![0x11];
    assert_eq!(ch.transfer(&mut words), Ok(()));
    let mut spim = ch.free();
    let mut cs = OutputPin::new(4);
    let mut rx = vec![0u8; 2];
    assert_eq!(spim.read(&mut cs, &vec![0xA0, 0xB0], &mut rx), Ok(()));
    assert_eq!(rx, vec![0xA0, 0xB0]);
}
