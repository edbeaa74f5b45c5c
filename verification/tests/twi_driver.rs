use atmega::bus::{Bus, Peripheral};
use atmega::twi::{BusState, ByteBuffer, Flags, ReadError, Twi, WriteError, TW_NO_ERROR};
use atmega::wire::{BlankReceive, BlankRequest, ReceiveHandler, RequestHandler, Wire};

fn compliant_bus(address: u8, read_data: Vec<u8>) -> Bus {
    Bus::new(Peripheral::compliant(address, read_data), 50)
}

#[test]
fn read_returns_exactly_length_bytes_for_all_lengths() {
    // For every length in 1..=32 a compliant peripheral yields exactly
    // `length` bytes and leaves the driver ready.
    let data: Vec<u8> = (0..32u8).map(|i| i.wrapping_mul(3)).collect();
    for length in 1..=32usize {
        let mut twi = Twi::new();
        let mut bus = compliant_bus(0x2A, data.clone());
        let out = twi.read_from(&mut bus, 0x2A, length, true).unwrap();
        assert_eq!(out.length, length);
        assert_eq!(out.index, 0);
        for j in 0..length {
            assert_eq!(out.inner[j], data[j]);
        }
        assert_eq!(twi.state, BusState::Ready);
    }
}

#[test]
fn oversized_read_is_rejected_without_any_bus_activity() {
    let mut twi = Twi::new();
    let mut bus = compliant_bus(0x2A, vec![1, 2, 3]);
    let r = twi.read_from(&mut bus, 0x2A, 33, true);
    assert_eq!(r.unwrap_err(), ReadError::TooLarge);
    assert_eq!(twi.events_handled, 0);
    assert_eq!(twi.state, BusState::Ready);
    assert_eq!(bus.now_us, 0);
}

#[test]
fn oversized_write_is_rejected_without_any_bus_activity() {
    let mut twi = Twi::new();
    let mut bus = compliant_bus(0x2A, vec![]);
    let r = twi.write_to(&mut bus, 0x2A, ByteBuffer::new(), 33, true, true);
    assert_eq!(r.unwrap_err(), WriteError::TooLarge);
    assert_eq!(twi.events_handled, 0);
}

#[test]
fn state_is_ready_after_success_nack_and_arbitration_loss() {
    // Success.
    let mut twi = Twi::new();
    let mut bus = compliant_bus(0x50, vec![]);
    let mut data = ByteBuffer::new();
    data.inner[0] = 7;
    assert!(twi.write_to(&mut bus, 0x50, data, 1, true, true).is_ok());
    assert_eq!(twi.state, BusState::Ready);

    // Address NACK.
    let mut nacking = Peripheral::compliant(0x50, vec![]);
    nacking.ack_address = false;
    let mut bus = Bus::new(nacking, 50);
    let mut twi = Twi::new();
    let r = twi.write_to(&mut bus, 0x50, data, 1, true, true);
    assert_eq!(r.unwrap_err(), WriteError::SlaNack);
    assert_eq!(twi.state, BusState::Ready);

    // Arbitration loss.
    let mut contended = Peripheral::compliant(0x50, vec![]);
    contended.lose_arbitration = true;
    let mut bus = Bus::new(contended, 50);
    let mut twi = Twi::new();
    let r = twi.write_to(&mut bus, 0x50, data, 1, true, true);
    assert_eq!(r.unwrap_err(), WriteError::Other);
    assert_eq!(twi.error, 0x38);
    assert_eq!(twi.state, BusState::Ready);
    // A fresh transaction may begin immediately on an honest bus.
    let mut bus = compliant_bus(0x50, vec![]);
    assert!(twi.write_to(&mut bus, 0x50, data, 1, true, true).is_ok());
}

#[test]
fn repeated_start_emits_no_stop_between_transactions() {
    // write_to without a STOP, then read_from: no STOP may go out between
    // the two address phases, but a START must be re-emitted.
    let mut twi = Twi::new();
    let mut bus = compliant_bus(0x50, vec![0xAA, 0xBB]);
    let mut data = ByteBuffer::new();
    data.inner[0] = 0x10;
    assert!(twi.write_to(&mut bus, 0x50, data, 1, true, false).is_ok());
    assert!(twi.in_rep_start);
    assert_eq!(twi.stops_sent, 0);
    assert_eq!(twi.starts_sent, 2); // initial START plus the latched repeated START

    let out = twi.read_from(&mut bus, 0x50, 2, true).unwrap();
    assert_eq!(out.length, 2);
    assert_eq!(&out.inner[..2], &[0xAA, 0xBB]);
    assert_eq!(twi.starts_sent, 2); // the repeated START carried the read
    assert_eq!(twi.stops_sent, 1); // only the read's closing STOP
    assert_eq!(twi.state, BusState::Ready);
}

#[test]
fn unresponsive_peripheral_times_out_and_sets_sticky_flag() {
    let mut silent = Peripheral::compliant(0x2A, vec![]);
    silent.responsive = false;
    let mut bus = Bus::new(silent, 50);
    let mut twi = Twi::new();
    twi.twi_set_timeout_us(5000, false);
    let t0 = bus.now_us;
    let r = twi.read_from(&mut bus, 0x2A, 4, true);
    assert_eq!(r.unwrap_err(), ReadError::Timeout);
    assert!(twi.timed_out_flag);
    let elapsed = bus.now_us - t0;
    assert!(elapsed > 5000, "elapsed {elapsed}");
    assert!(elapsed <= 5000 + 2 * 50, "elapsed {elapsed}");
    // The flag is sticky and clearable on its own.
    assert!(twi.twi_manage_timeout_flag(true));
    assert!(!twi.twi_manage_timeout_flag(false));
}

#[test]
fn write_to_fully_acking_peripheral_shows_no_error() {
    let mut twi = Twi::new();
    let mut bus = compliant_bus(0x50, vec![]);
    let mut data = ByteBuffer::new();
    data.inner[0] = 0x00;
    data.inner[1] = 0x2A;
    let r = twi.write_to(&mut bus, 0x50, data, 2, true, true);
    assert_eq!(r, Ok(()));
    assert_eq!(twi.error, TW_NO_ERROR);
    assert_eq!(bus.received, vec![0x00, 0x2A]);
    assert_eq!(twi.stops_sent, 1);
}

#[test]
fn write_nacked_on_second_byte_reports_data_nack_and_stops() {
    let mut grumpy = Peripheral::compliant(0x50, vec![]);
    grumpy.nack_data_at = Some(1);
    let mut bus = Bus::new(grumpy, 50);
    let mut twi = Twi::new();
    let mut data = ByteBuffer::new();
    data.inner[0] = 0x00;
    data.inner[1] = 0x2A;
    let r = twi.write_to(&mut bus, 0x50, data, 2, true, true);
    assert_eq!(r.unwrap_err(), WriteError::DataNack);
    assert_eq!(twi.error, 0x30);
    assert_eq!(twi.stops_sent, 1); // the bus was stopped
    assert_eq!(twi.state, BusState::Ready);
}

#[test]
fn seven_byte_read_delivers_all_seven_bytes() {
    // A clock-chip-style read: bytes 1..=6 are acknowledged, byte 7 is
    // answered with NACK, and all 7 bytes come back.
    let data = vec![0x59, 0x30, 0x12, 0x03, 0x15, 0x04, 0x24];
    let mut twi = Twi::new();
    let mut bus = compliant_bus(0x68, data.clone());
    let out = twi.read_from(&mut bus, 0x68, 7, true).unwrap();
    assert_eq!(out.length, 7);
    assert_eq!(&out.inner[..7], &data[..]);
    assert_eq!(twi.state, BusState::Ready);
}

struct CountingRequest {
    calls: usize,
}

impl RequestHandler for CountingRequest {
    fn on_request(&mut self, _twi: &mut Twi) {
        // Deliberately writes nothing: the driver must default to one zero
        // byte.
        self.calls += 1;
    }
}

#[test]
fn request_callback_runs_once_and_empty_reply_defaults_to_one_zero_byte() {
    let mut wire: Wire<BlankReceive, CountingRequest> = Wire::new();
    wire.begin_addr(0x08);
    wire.on_request(CountingRequest { calls: 0 });

    // An external controller addresses us for a read (SLA+R received).
    wire.interrupt(0xA8, 0);
    assert_eq!(wire.user_on_request.as_ref().unwrap().calls, 1);
    assert_eq!(wire.twi.state, BusState::PeripheralTransmitting);
    assert_eq!(wire.twi.tx_buffer.length, 1);
    assert_eq!(wire.twi.tx_buffer.inner[0], 0x00);

    // The byte goes out on the first acknowledged transmit event...
    wire.interrupt(0xB8, 0);
    assert_eq!(wire.twi.twdr, 0x00); // exactly one zero byte transmitted
    // ...and the controller's closing NACK returns us to ready.
    wire.interrupt(0xC0, 0);
    assert_eq!(wire.twi.state, BusState::Ready);
    assert_eq!(wire.user_on_request.as_ref().unwrap().calls, 1);
}

struct FillRequest;

impl RequestHandler for FillRequest {
    fn on_request(&mut self, twi: &mut Twi) {
        let mut reply = ByteBuffer::new();
        reply.inner[0] = 0x5A;
        reply.inner[1] = 0xA5;
        twi.twi_transmit(reply, 2).unwrap();
    }
}

#[test]
fn request_callback_fills_the_peripheral_reply() {
    let mut wire: Wire<BlankReceive, FillRequest> = Wire::new();
    wire.begin_addr(0x08);
    wire.on_request(FillRequest);
    wire.interrupt(0xA8, 0);
    assert_eq!(wire.twi.tx_buffer.length, 2);
    wire.interrupt(0xB8, 0);
    assert_eq!(wire.twi.twdr, 0x5A);
    wire.interrupt(0xB8, 0);
    assert_eq!(wire.twi.twdr, 0xA5);
    wire.interrupt(0xC0, 0);
    assert_eq!(wire.twi.state, BusState::Ready);
}

struct CountingReceive {
    calls: usize,
    last_count: usize,
}

impl ReceiveHandler for CountingReceive {
    fn on_receive(&mut self, num_bytes: usize) {
        self.calls += 1;
        self.last_count = num_bytes;
    }
}

#[test]
fn peripheral_receive_hands_bytes_to_the_callback() {
    let mut wire: Wire<CountingReceive, BlankRequest> = Wire::new();
    wire.begin_addr(0x08);
    wire.on_receive(CountingReceive { calls: 0, last_count: 0 });

    wire.interrupt(0x60, 0); // addressed as peripheral for a write
    assert_eq!(wire.twi.state, BusState::PeripheralReceiving);
    wire.interrupt(0x80, 0x11); // data received, ACK returned
    wire.interrupt(0x80, 0x22);
    wire.interrupt(0xA0, 0); // STOP observed while selected
    assert_eq!(wire.twi.state, BusState::Ready);
    assert_eq!(wire.user_on_receive.as_ref().unwrap().calls, 1);
    assert_eq!(wire.user_on_receive.as_ref().unwrap().last_count, 2);
    assert_eq!(wire.available(), 2);
    assert_eq!(wire.read(), Some(0x11));
    assert_eq!(wire.peek(), Some(0x22));
    assert_eq!(wire.read(), Some(0x22));
    assert_eq!(wire.read(), None);
}

#[test]
fn unread_receive_data_is_not_clobbered_by_a_new_transfer() {
    let mut wire: Wire<CountingReceive, BlankRequest> = Wire::new();
    wire.begin_addr(0x08);
    wire.on_receive(CountingReceive { calls: 0, last_count: 0 });

    wire.interrupt(0x60, 0);
    wire.interrupt(0x80, 0x11);
    wire.interrupt(0xA0, 0);
    // The first byte is still unread when a second transfer lands: the
    // documented tradeoff drops the new data rather than blocking.
    wire.interrupt(0x60, 0);
    wire.interrupt(0x80, 0x99);
    wire.interrupt(0xA0, 0);
    assert_eq!(wire.user_on_receive.as_ref().unwrap().calls, 1);
    assert_eq!(wire.read(), Some(0x11));
}

#[test]
fn bus_error_is_recorded_and_forces_a_stop() {
    let mut twi = Twi::new();
    twi.state = BusState::ControllerTransmitting;
    twi.error = TW_NO_ERROR;
    twi.handle_event(0x00);
    assert_eq!(twi.error, 0x00);
    assert_eq!(twi.state, BusState::Ready);
    assert_eq!(twi.stops_sent, 1);
}

#[test]
fn flag_classification_masks_prescaler_bits() {
    assert_eq!(Flags::from_flag(0x08), Some(Flags::TW_START));
    assert_eq!(Flags::from_flag(0x0B), Some(Flags::TW_START)); // low bits dropped
    assert_eq!(Flags::from_flag(0x58), Some(Flags::TW_CR_DATA_NACK));
    assert_eq!(Flags::from_flag(0xD0), None);
    assert_eq!(Flags::TW_CT_SLA_NACK.code(), 0x20);
    assert_eq!(Flags::TW_BUS_ERROR.code(), 0x00);
}

#[test]
fn byte_buffer_single_and_sequential_read() {
    // `single` places the byte but leaves the length zero: callers pass the
    // count separately.
    let mut b = ByteBuffer::single(0x42);
    assert_eq!(b.length, 0);
    assert_eq!(b.inner[0], 0x42);
    assert_eq!(b.inner[1], 0x00);
    assert_eq!(b.next(), None);
    b.length = 1;
    assert_eq!(b.next(), Some(0x42));
    assert_eq!(b.next(), None);
    b.reset();
    assert_eq!(b.length, 0);
    assert_eq!(b.index, 0);
}

#[test]
fn timeout_reset_preserves_bit_rate_and_own_address() {
    let mut twi = Twi::new();
    twi.twi_init();
    twi.set_address(0x11);
    let twbr = twi.twbr;
    let twar = twi.twar;
    twi.twi_handle_timeout(true);
    assert!(twi.timed_out_flag);
    assert_eq!(twi.twbr, twbr);
    assert_eq!(twi.twar, twar);
}

#[test]
fn transmit_requires_peripheral_transmitter_state() {
    let mut twi = Twi::new();
    let r = twi.twi_transmit(ByteBuffer::single(1), 1);
    assert_eq!(r.unwrap_err(), atmega::twi::TransmitError::NotPTX);
}
