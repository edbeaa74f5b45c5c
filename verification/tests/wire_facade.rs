use atmega::bits;
use atmega::bus::{Bus, Peripheral};
use atmega::twi::{BusState, ReadError, TransmitError, WriteError, TW_NO_ERROR};
use atmega::wire::{BlankReceive, BlankRequest, Wire};

type PlainWire = Wire<BlankReceive, BlankRequest>;

#[test]
fn staged_transmission_reaches_the_peripheral() {
    let mut wire: PlainWire = Wire::new();
    wire.begin();
    let mut bus = Bus::new(Peripheral::compliant(0x50, vec![]), 50);
    wire.begin_transmission(0x50);
    wire.write(0x00).unwrap();
    wire.write(0x2A).unwrap();
    let r = wire.end_transmission(&mut bus, true);
    assert_eq!(r, Ok(()));
    assert_eq!(bus.received, vec![0x00, 0x2A]);
    assert!(!wire.transmitting);
    assert_eq!(wire.twi.error, TW_NO_ERROR);
}

#[test]
fn request_from_fills_the_receive_buffer() {
    let data: Vec<u8> = (1..=32u8).collect();
    let mut wire: PlainWire = Wire::new();
    wire.begin();
    let mut bus = Bus::new(Peripheral::compliant(0x68, data.clone()), 50);
    wire.request_from(&mut bus, 0x68, 32, true).unwrap();
    assert_eq!(wire.available(), 32);
    for expected in data {
        assert_eq!(wire.read(), Some(expected));
    }
    assert_eq!(wire.read(), None);
    assert_eq!(wire.available(), 0);
}

#[test]
fn oversized_request_is_rejected_without_any_bus_activity() {
    let mut wire: PlainWire = Wire::new();
    wire.begin();
    let mut bus = Bus::new(Peripheral::compliant(0x68, vec![1, 2, 3]), 50);
    let events_before = wire.twi.events_handled;
    let r = wire.request_from(&mut bus, 0x68, 33, true);
    assert_eq!(r.unwrap_err(), ReadError::TooLarge);
    // Zero interrupt-handler transitions: nothing on the bus moved.
    assert_eq!(wire.twi.events_handled, events_before);
    assert_eq!(bus.now_us, 0);
    assert_eq!(wire.available(), 0);
}

#[test]
fn iaddr_request_reads_after_a_register_pointer_write() {
    let mut wire: PlainWire = Wire::new();
    wire.begin();
    let mut bus = Bus::new(Peripheral::compliant(0x68, vec![0x42, 0x43]), 50);
    wire.iaddr_request_from(&mut bus, 0x68, 2, 0x01_02, 2, true).unwrap();
    // The two internal-address bytes went out first, most significant first.
    assert_eq!(bus.received, vec![0x01, 0x02]);
    assert_eq!(wire.read(), Some(0x42));
    assert_eq!(wire.read(), Some(0x43));
}

#[test]
fn staging_a_33rd_byte_is_rejected() {
    let mut wire: PlainWire = Wire::new();
    wire.begin();
    wire.begin_transmission(0x50);
    for i in 0..32u8 {
        wire.write(i).unwrap();
    }
    assert_eq!(wire.write(0xFF).unwrap_err(), TransmitError::TooLarge);
    assert_eq!(wire.tx_buffer.length, 32);
}

#[test]
fn peripheral_write_outside_a_request_is_refused() {
    let mut wire: PlainWire = Wire::new();
    wire.begin();
    // Not staging a transmission and not addressed for a read.
    assert_eq!(wire.write(0x01).unwrap_err(), TransmitError::NotPTX);
}

#[test]
fn wire_timeout_flag_is_sticky_and_clearable() {
    let mut silent = Peripheral::compliant(0x2A, vec![]);
    silent.responsive = false;
    let mut bus = Bus::new(silent, 50);
    let mut wire: PlainWire = Wire::new();
    wire.begin();
    wire.set_wire_timeout(5000, true);
    wire.begin_transmission(0x2A);
    wire.write(1).unwrap();
    let r = wire.end_transmission(&mut bus, true);
    assert_eq!(r.unwrap_err(), WriteError::Timeout);
    assert!(wire.get_wire_timeout_flag());
    assert!(wire.get_wire_timeout_flag()); // still set: it is sticky
    wire.clear_wire_timeout_flag();
    assert!(!wire.get_wire_timeout_flag());
}

#[test]
fn set_clock_reprograms_the_bit_rate() {
    let mut wire: PlainWire = Wire::new();
    wire.begin();
    assert_eq!(wire.twi.twbr, 72); // 100 kHz at the 16 MHz default clock
    wire.set_clock(400_000);
    assert_eq!(wire.twi.twbr, 12);
    wire.end();
    assert!(!wire.twi.sda_pullup);
}

#[test]
fn zero_timeout_disables_timeout_checking_flag_setup() {
    let mut wire: PlainWire = Wire::new();
    wire.begin();
    wire.set_wire_timeout(0, false);
    assert_eq!(wire.twi.timeout_us, 0);
    assert!(!wire.twi.do_reset_on_timeout);
}

#[test]
fn bcd_conversions_are_exact() {
    assert_eq!(bits::from_bcd(0x42), 42);
    assert_eq!(bits::from_bcd(0x59), 59);
    assert_eq!(bits::from_dec(42), 0x42);
    assert_eq!(bits::from_dec(59), 0x59);
}

#[test]
fn bit_operations_are_exact() {
    assert_eq!(bits::set(0b0000_0000, 3), 0b0000_1000);
    assert_eq!(bits::clear(0b1111_1111, 0), 0b1111_1110);
    assert_eq!(bits::toggle(0b0000_1000, 3), 0b0000_0000);
    assert_eq!(bits::set_value(0b0000_0000, 7, true), 0b1000_0000);
    assert_eq!(bits::set_value(0b1000_0000, 7, false), 0b0000_0000);
    assert!(bits::read(0b0100_0000, 6));
    assert!(!bits::read(0b0100_0000, 5));
}
