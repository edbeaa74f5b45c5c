//! Synchronous convenience layer over the two-wire protocol engine:
//! Arduino-style begin/read/write/request calls, a user-visible staging
//! buffer for controller writes, a separately exposed receive buffer for
//! controller reads, and the two peripheral-role callback slots.
//!
//! The receive buffer refuses to be overwritten while data handed over by a
//! previous "data received" callback has not been consumed: an intentional,
//! documented data-loss-over-deadlock tradeoff.

use vstd::prelude::*;

use crate::bus::Bus;
use crate::twi::{
    nack_within, quiescent, read_done, rep_pending, sla_hit, spec_finish_request, spec_step,
    spec_write_result, strong_pre, write_done, BusState, ByteBuffer, Notify, ReadError,
    TransmitError, Twi, TwiModel, WriteError, TWCR_TWEA, TWCR_TWEN, TWCR_TWIE, TWI_BUFFER_LENGTH,
    TWI_FREQ, TW_NO_ERROR, TW_READ, TW_WRITE,
};
use crate::CPU_FREQUENCY;

verus! {

/// The "data received" callback: invoked from the interrupt path with the
/// number of bytes an external controller wrote to us, once they have been
/// copied into the receive buffer.
pub trait ReceiveHandler {
    /// Called with the byte count of a completed peripheral-role receive.
    fn on_receive(&mut self, num_bytes: usize);
}

/// The "data requested" callback: invoked from the interrupt path when an
/// external controller addresses us for a read.  It is expected to fill the
/// peripheral transmit buffer — through [`Twi::twi_transmit`] — before
/// returning; if it leaves the buffer empty, a single zero byte is
/// transmitted in its stead.
pub trait RequestHandler {
    /// Called when the peripheral transmit buffer should be filled.
    fn on_request(&mut self, twi: &mut Twi)
        requires
            old(twi).wf(),
        ensures
            final(twi).wf(),
    ;
}

/// The default "data received" callback: does nothing.
pub struct BlankReceive;

impl ReceiveHandler for BlankReceive {
    fn on_receive(&mut self, num_bytes: usize) {
    }
}

/// The default "data requested" callback: writes nothing, so the peripheral
/// answers with a single zero byte.
pub struct BlankRequest;

impl RequestHandler for BlankRequest {
    fn on_request(&mut self, twi: &mut Twi) {
    }
}

/// The register-pointer bytes a combined transaction writes before its
/// read: the low `size` bytes of the internal address, most significant
/// first.
pub open spec fn iaddr_bytes(iaddress: u32, size: int) -> Seq<u8> {
    Seq::new(size as nat, |i: int| ((iaddress >> ((8 * (size - 1 - i)) as u32)) & 0xFF) as u8)
}

/// The synchronous two-wire interface: the protocol engine plus the
/// user-visible staging and receive buffers and the registered callbacks.
pub struct Wire<R: ReceiveHandler, Q: RequestHandler> {
    /// The interrupt-driven protocol engine.
    pub twi: Twi,
    /// Receive buffer exposed to `available`/`read`/`peek`.
    pub rx_buffer: ByteBuffer,
    /// Staging buffer filled by `write` between `begin_transmission` and
    /// `end_transmission`.
    pub tx_buffer: ByteBuffer,
    /// Target address of the transmission being staged.
    pub tx_address: u8,
    /// Whether a controller transmission is being staged.
    pub transmitting: bool,
    /// The registered "data received" callback, if any.
    pub user_on_receive: Option<R>,
    /// The registered "data requested" callback, if any.
    pub user_on_request: Option<Q>,
}

impl<R: ReceiveHandler, Q: RequestHandler> Wire<R, Q> {
    /// The engine's buffers stay in bounds; both façade buffers keep their
    /// cursor at or before their length.
    pub open spec fn wf(self) -> bool {
        &&& self.twi.wf()
        &&& self.rx_buffer.wf()
        &&& self.tx_buffer.wf()
        &&& self.rx_buffer.index <= self.rx_buffer.length
        &&& self.tx_buffer.index == self.tx_buffer.length
    }

    /// A fresh interface with no callbacks registered.
    pub fn new() -> (r: Wire<R, Q>)
        ensures
            r.wf(),
            r.twi.state == BusState::Ready,
            r.twi.error == TW_NO_ERROR,
            !r.twi.in_rep_start,
            r.twi.timeout_us == 0,
            !r.twi.timed_out_flag,
            r.twi.starts_sent == 0 && r.twi.stops_sent == 0 && r.twi.events_handled == 0,
            !r.transmitting,
            r.user_on_receive is None,
            r.user_on_request is None,
            r.rx_buffer.index == 0 && r.rx_buffer.length == 0,
            r.tx_buffer.index == 0 && r.tx_buffer.length == 0,
    {
        Wire {
            twi: Twi::new(),
            rx_buffer: ByteBuffer::new(),
            tx_buffer: ByteBuffer::new(),
            tx_address: 0,
            transmitting: false,
            user_on_receive: None,
            user_on_request: None,
        }
    }

    /// Initializes the two-wire interface: clears both buffers and readies
    /// the unit, its pull-ups, bit rate, acknowledging and interrupt.
    pub fn begin(&mut self)
        requires
            old(self).wf(),
        ensures
            final(self).wf(),
            *final(self) == (Wire {
                twi: final(self).twi,
                rx_buffer: final(self).rx_buffer,
                tx_buffer: final(self).tx_buffer,
                ..*old(self)
            }),
            final(self).rx_buffer == (ByteBuffer {
                index: 0,
                length: 0,
                inner: old(self).rx_buffer.inner,
            }),
            final(self).tx_buffer == (ByteBuffer {
                index: 0,
                length: 0,
                inner: old(self).tx_buffer.inner,
            }),
            final(self).twi == (Twi {
                sda_pullup: true,
                scl_pullup: true,
                twbr: (((CPU_FREQUENCY / TWI_FREQ) - 16) / 2) as u8,
                twcr: old(self).twi.twcr | (TWCR_TWEN | TWCR_TWIE | TWCR_TWEA),
                ..old(self).twi
            }),
    {
        self.rx_buffer.reset();
        self.tx_buffer.reset();
        self.twi.twi_init();
    }

    /// `begin`, and set the address the unit answers to in peripheral role.
    pub fn begin_addr(&mut self, address: u8)
        requires
            old(self).wf(),
        ensures
            final(self).wf(),
            *final(self) == (Wire {
                twi: final(self).twi,
                rx_buffer: final(self).rx_buffer,
                tx_buffer: final(self).tx_buffer,
                ..*old(self)
            }),
            final(self).rx_buffer == (ByteBuffer {
                index: 0,
                length: 0,
                inner: old(self).rx_buffer.inner,
            }),
            final(self).tx_buffer == (ByteBuffer {
                index: 0,
                length: 0,
                inner: old(self).tx_buffer.inner,
            }),
            final(self).twi == (Twi {
                twar: (address << 1) as u8,
                sda_pullup: true,
                scl_pullup: true,
                twbr: (((CPU_FREQUENCY / TWI_FREQ) - 16) / 2) as u8,
                twcr: old(self).twi.twcr | (TWCR_TWEN | TWCR_TWIE | TWCR_TWEA),
                ..old(self).twi
            }),
    {
        self.begin();
        self.twi.set_address(address);
    }

    /// Disables the two-wire interface.
    pub fn end(&mut self)
        requires
            old(self).wf(),
        ensures
            final(self).wf(),
            *final(self) == (Wire { twi: final(self).twi, ..*old(self) }),
            final(self).twi == (Twi {
                sda_pullup: false,
                scl_pullup: false,
                twcr: old(self).twi.twcr & !(TWCR_TWEN | TWCR_TWIE | TWCR_TWEA),
                ..old(self).twi
            }),
    {
        self.twi.twi_disable();
    }

    /// Sets the two-wire clock frequency.
    pub fn set_clock(&mut self, freq: u64)
        requires
            old(self).wf(),
            freq > 0,
            CPU_FREQUENCY / freq >= 16,
        ensures
            final(self).wf(),
            *final(self) == (Wire {
                twi: (Twi { twbr: (((CPU_FREQUENCY / freq) - 16) / 2) as u8, ..old(self).twi }),
                ..*old(self)
            }),
    {
        self.twi.set_frequency(freq);
    }

    /// Sets the busy-wait timeout in microseconds (zero disables timeout
    /// checking, the historical default) and whether expiry resets the
    /// two-wire unit; clears the sticky timeout flag.
    pub fn set_wire_timeout(&mut self, timeout: u32, reset_with_timeout: bool)
        requires
            old(self).wf(),
        ensures
            final(self).wf(),
            *final(self) == (Wire {
                twi: (Twi {
                    timed_out_flag: false,
                    timeout_us: timeout,
                    do_reset_on_timeout: reset_with_timeout,
                    ..old(self).twi
                }),
                ..*old(self)
            }),
    {
        self.twi.twi_set_timeout_us(timeout, reset_with_timeout);
    }

    /// Returns `true` if a timeout has occurred since the flag was last
    /// cleared.
    pub fn get_wire_timeout_flag(&mut self) -> (r: bool)
        requires
            old(self).wf(),
        ensures
            final(self).wf(),
            r == old(self).twi.timed_out_flag,
            *final(self) == *old(self),
    {
        self.twi.twi_manage_timeout_flag(false)
    }

    /// Clears the sticky timeout flag.
    pub fn clear_wire_timeout_flag(&mut self)
        requires
            old(self).wf(),
        ensures
            final(self).wf(),
            *final(self) == (Wire {
                twi: (Twi { timed_out_flag: false, ..old(self).twi }),
                ..*old(self)
            }),
    {
        self.twi.twi_manage_timeout_flag(true);
    }

    /// Requests `quantity` bytes from the given address and makes them
    /// available through `available`/`read`/`peek`.  A request that exceeds
    /// the buffer capacity is rejected with no bus activity at all.
    pub fn request_from(&mut self, bus: &mut Bus, address: u8, quantity: u8, send_stop: bool) -> (r:
        Result<(), ReadError>)
        requires
            old(self).wf(),
            quantity >= 1,
        ensures
            final(self).wf(),
            quantity as int > TWI_BUFFER_LENGTH ==> r == Err::<(), ReadError>(ReadError::TooLarge)
                && *final(self) == *old(self) && *final(bus) == *old(bus),
            r matches Ok(()) ==> final(self).rx_buffer.index == 0 && final(self).rx_buffer.length
                == quantity as int && final(self).twi.state == BusState::Ready && (forall|j: int|
                0 <= j < final(self).rx_buffer.length ==> final(self).rx_buffer.inner@[j]
                    == final(self).twi@.master[j]),
            quantity as int <= TWI_BUFFER_LENGTH && strong_pre(old(self).twi@, old(bus)@) ==> (
            r matches Ok(())) && read_done(
                old(bus)@.peripheral,
                (TW_READ | (address << 1)) as u8,
                quantity as int,
                send_stop,
                old(self).twi.stops_sent,
                old(bus)@.received,
                final(self).twi@,
                final(bus)@,
            ),
            quantity as int <= TWI_BUFFER_LENGTH && (quiescent(old(self).twi@, old(bus)@)
                || rep_pending(old(self).twi@, old(bus)@)) && !old(bus)@.peripheral.responsive ==> r
                == Err::<(), ReadError>(ReadError::Timeout),
            r == Err::<(), ReadError>(ReadError::Timeout) ==> final(self).twi.timed_out_flag,
    {
        // A request that cannot fit in the buffer performs no bus activity.
        if quantity as usize > TWI_BUFFER_LENGTH {
            return Err(ReadError::TooLarge);
        }
        let read = match self.twi.read_from(bus, address, quantity as usize, send_stop) {
            Ok(buffer) => buffer,
            Err(e) => {
                return Err(e);
            },
        };
        self.rx_buffer.index = 0;
        self.rx_buffer.length = read.length;
        let ghost pre = *self;
        let mut i: usize = 0;
        while i < read.length
            invariant
                read.length <= TWI_BUFFER_LENGTH,
                i <= read.length,
                self.rx_buffer.index == 0,
                self.rx_buffer.length == read.length,
                forall|j: int| 0 <= j < i ==> self.rx_buffer.inner@[j] == read.inner@[j],
                *self == (Wire { rx_buffer: self.rx_buffer, ..pre }),
                self.rx_buffer == (ByteBuffer { inner: self.rx_buffer.inner, ..pre.rx_buffer }),
                self.twi.wf(),
            decreases read.length - i,
        {
            self.rx_buffer.inner[i] = read.inner[i];
            i = i + 1;
        }
        proof {
            assert forall|j: int|
                0 <= j < self.rx_buffer.length implies self.rx_buffer.inner@[j]
                == self.twi@.master[j] by {
                assert(self.rx_buffer.inner@[j] == read.inner@[j]);
                assert(read.inner@[j] == self.twi@.master[j]);
            }
        }
        Ok(())
    }
}

} // verus!

verus! {

impl<R: ReceiveHandler, Q: RequestHandler> Wire<R, Q> {
    /// Requests data from the given address after first transmitting an
    /// internal register address (the low `min(addr_size, 3)` bytes of
    /// `iaddress`, most significant first), with a repeated START — and no
    /// STOP — joining the pointer write to the read.
    pub fn iaddr_request_from(
        &mut self,
        bus: &mut Bus,
        address: u8,
        quantity: u8,
        iaddress: u32,
        addr_size: u8,
        send_stop: bool,
    ) -> (r: Result<(), ReadError>)
        requires
            old(self).wf(),
            quantity >= 1,
        ensures
            final(self).wf(),
            quantity as int > TWI_BUFFER_LENGTH ==> r == Err::<(), ReadError>(ReadError::TooLarge),
            r matches Ok(()) ==> final(self).rx_buffer.index == 0 && final(self).rx_buffer.length
                == quantity as int && (forall|j: int|
                0 <= j < final(self).rx_buffer.length ==> final(self).rx_buffer.inner@[j]
                    == final(self).twi@.master[j]),
            ({
                let p = old(bus)@.peripheral;
                let size = if addr_size < 3 {
                    addr_size as int
                } else {
                    3
                };
                let ptr = iaddr_bytes(iaddress, size);
                addr_size > 0 && quantity as int <= TWI_BUFFER_LENGTH && strong_pre(
                    old(self).twi@,
                    old(bus)@,
                ) && sla_hit(p, (TW_WRITE | (address << 1)) as u8) && !nack_within(p, size)
                    && !p.lose_arbitration ==> (r matches Ok(())) && read_done(
                    p,
                    (TW_READ | (address << 1)) as u8,
                    quantity as int,
                    send_stop,
                    old(self).twi.stops_sent,
                    old(bus)@.received + ptr,
                    final(self).twi@,
                    final(bus)@,
                )
            }),
            addr_size == 0 && quantity as int <= TWI_BUFFER_LENGTH && strong_pre(
                old(self).twi@,
                old(bus)@,
            ) ==> (r matches Ok(())) && read_done(
                old(bus)@.peripheral,
                (TW_READ | (address << 1)) as u8,
                quantity as int,
                send_stop,
                old(self).twi.stops_sent,
                old(bus)@.received,
                final(self).twi@,
                final(bus)@,
            ),
    {
        if addr_size > 0 {
            self.begin_transmission(address);
            // Write the internal register address, most significant byte
            // first; at most three bytes of it are used.
            let size: u8 = if addr_size < 3 {
                addr_size
            } else {
                3
            };
            let ghost staged = *self;
            let mut i: u8 = size;
            while i > 0
                invariant
                    self.wf(),
                    i <= size <= 3,
                    self.transmitting,
                    self.tx_buffer.index == self.tx_buffer.length,
                    self.tx_buffer.length == size - i,
                    *self == (Wire { tx_buffer: self.tx_buffer, ..staged }),
                    forall|k: int|
                        0 <= k < size - i ==> self.tx_buffer.inner@[k] == iaddr_bytes(
                            iaddress,
                            size as int,
                        )[k],
                decreases i,
            {
                i = i - 1;
                let shifted = iaddress >> (8 * i as u32);
                let _ = self.write((shifted & 0xFF) as u8);
            }
            proof {
                assert(self.tx_buffer.inner@.subrange(0, size as int) =~= iaddr_bytes(
                    iaddress,
                    size as int,
                ));
            }
            let _ = self.end_transmission(bus, false);
        }
        self.request_from(bus, address, quantity, send_stop)
    }

    /// Begins staging a transmission to the given peripheral address.
    pub fn begin_transmission(&mut self, address: u8)
        requires
            old(self).wf(),
        ensures
            final(self).wf(),
            *final(self) == (Wire {
                transmitting: true,
                tx_address: address,
                tx_buffer: final(self).tx_buffer,
                ..*old(self)
            }),
            final(self).tx_buffer.index == 0 && final(self).tx_buffer.length == 0,
            final(self).tx_buffer.inner == old(self).tx_buffer.inner,
    {
        // Indicate that we are transmitting and target the peripheral.
        self.transmitting = true;
        self.tx_address = address;
        self.tx_buffer.reset();
    }

    /// Transmits the staged buffer (blocking) and ends the transmission,
    /// with or without a STOP; without one, the bus is kept with a repeated
    /// START latched for the next transaction.
    pub fn end_transmission(&mut self, bus: &mut Bus, send_stop: bool) -> (r: Result<
        (),
        WriteError,
    >)
        requires
            old(self).wf(),
        ensures
            final(self).wf(),
            !final(self).transmitting,
            final(self).tx_buffer.index == 0 && final(self).tx_buffer.length == 0,
            r != Err::<(), WriteError>(WriteError::TooLarge),
            final(self).twi.timeout_us == old(self).twi.timeout_us,
            r == Err::<(), WriteError>(WriteError::Timeout) ==> final(self).twi.timed_out_flag,
            r != Err::<(), WriteError>(WriteError::Timeout) ==> r == spec_write_result(
                final(self).twi.error,
            ),
            strong_pre(old(self).twi@, old(bus)@) ==> r != Err::<(), WriteError>(
                WriteError::Timeout,
            ) && r == spec_write_result(final(self).twi.error),
            (quiescent(old(self).twi@, old(bus)@) || rep_pending(old(self).twi@, old(bus)@))
                && !old(bus)@.peripheral.responsive ==> r == Err::<(), WriteError>(
                WriteError::Timeout,
            ),
            strong_pre(old(self).twi@, old(bus)@) ==> write_done(
                old(bus)@.peripheral,
                (TW_WRITE | (old(self).tx_address << 1)) as u8,
                old(self).tx_buffer.inner@.subrange(0, old(self).tx_buffer.length as int),
                send_stop,
                old(self).twi.stops_sent,
                old(bus)@.received,
                final(self).twi@,
                final(bus)@,
            ),
    {
        let length = self.tx_buffer.length;
        // Transmit the staged buffer, blocking until it concludes.
        let ret = self.twi.write_to(bus, self.tx_address, self.tx_buffer, length, true, send_stop);
        // Reset the staging buffer and leave transmission mode.
        self.tx_buffer.reset();
        self.transmitting = false;
        ret
    }

    /// Stages one byte: into the transmission buffer after
    /// `begin_transmission`, or — from the "data requested" callback — into
    /// the peripheral transmit buffer.
    pub fn write(&mut self, data: u8) -> (r: Result<(), TransmitError>)
        requires
            old(self).wf(),
        ensures
            final(self).wf(),
            old(self).transmitting && old(self).tx_buffer.length >= TWI_BUFFER_LENGTH ==> r
                == Err::<(), TransmitError>(TransmitError::TooLarge) && *final(self) == *old(self),
            old(self).transmitting && old(self).tx_buffer.length < TWI_BUFFER_LENGTH ==> r == Ok::<
                (),
                TransmitError,
            >(()) && final(self).tx_buffer.length == old(self).tx_buffer.length + 1
                && final(self).tx_buffer.inner@ == old(self).tx_buffer.inner@.update(
                old(self).tx_buffer.length as int,
                data,
            ),
            old(self).transmitting ==> *final(self) == (Wire {
                tx_buffer: final(self).tx_buffer,
                ..*old(self)
            }),
            !old(self).transmitting && old(self).twi@.tx_length < TWI_BUFFER_LENGTH && old(
                self,
            ).twi.state != BusState::PeripheralTransmitting ==> r == Err::<(), TransmitError>(
                TransmitError::NotPTX,
            ) && final(self).twi == old(self).twi,
            !old(self).transmitting && old(self).twi@.tx_length >= TWI_BUFFER_LENGTH ==> r == Err::<
                (),
                TransmitError,
            >(TransmitError::TooLarge) && final(self).twi == old(self).twi,
            !old(self).transmitting && old(self).twi@.tx_length < TWI_BUFFER_LENGTH && old(
                self,
            ).twi.state == BusState::PeripheralTransmitting ==> r == Ok::<(), TransmitError>(())
                && final(self).twi@ == (TwiModel {
                tx_length: old(self).twi@.tx_length + 1,
                tx: old(self).twi@.tx.update(old(self).twi@.tx_length, data),
                ..old(self).twi@
            }),
            !old(self).transmitting ==> *final(self) == (Wire { twi: final(self).twi, ..*old(self) })
                && final(self).twi.state == old(self).twi.state,
    {
        if self.transmitting {
            // Controller transmitter mode: stage into the buffer unless it
            // is already full.
            if self.tx_buffer.length >= TWI_BUFFER_LENGTH {
                return Err(TransmitError::TooLarge);
            }
            let i = self.tx_buffer.index;
            self.tx_buffer.inner[i] = data;
            self.tx_buffer.index = i + 1;
            self.tx_buffer.length = i + 1;
            Ok(())
        } else {
            // Peripheral send mode: reply to the controller.
            let reply = ByteBuffer::single(data);
            let r = self.twi.twi_transmit(reply, 1);
            proof {
                if old(self).twi@.tx_length < TWI_BUFFER_LENGTH && old(self).twi.state
                    == BusState::PeripheralTransmitting {
                    assert(self.twi@.tx =~= old(self).twi@.tx.update(
                        old(self).twi@.tx_length,
                        data,
                    ));
                    assert(self.twi@ =~= (TwiModel {
                        tx_length: old(self).twi@.tx_length + 1,
                        tx: old(self).twi@.tx.update(old(self).twi@.tx_length, data),
                        ..old(self).twi@
                    }));
                }
            }
            r
        }
    }

    /// Stages the stored bytes of `data` at once: each in turn when
    /// transmitting (bytes past a full buffer are dropped, as the
    /// historical interface does), or the whole buffer as the peripheral
    /// reply through [`Twi::twi_transmit`], whose errors are ignored here.
    pub fn write_all(&mut self, data: ByteBuffer, quantity: usize)
        requires
            old(self).wf(),
            data.wf(),
        ensures
            final(self).wf(),
            old(self).transmitting ==> ({
                let start = if data.index <= data.length {
                    data.index as int
                } else {
                    data.length as int
                };
                let stored = data.length - start;
                let grown = if old(self).tx_buffer.length + stored <= TWI_BUFFER_LENGTH {
                    old(self).tx_buffer.length + stored
                } else {
                    TWI_BUFFER_LENGTH as int
                };
                &&& *final(self) == (Wire { tx_buffer: final(self).tx_buffer, ..*old(self) })
                &&& final(self).tx_buffer.length == grown
                &&& final(self).tx_buffer.index == grown
                &&& (forall|j: int|
                    0 <= j < old(self).tx_buffer.length ==> final(self).tx_buffer.inner@[j] == old(
                        self,
                    ).tx_buffer.inner@[j])
                &&& (forall|j: int|
                    old(self).tx_buffer.length <= j < grown ==> final(self).tx_buffer.inner@[j]
                        == data.inner@[start + (j - old(self).tx_buffer.length)])
            }),
            !old(self).transmitting ==> *final(self) == (Wire { twi: final(self).twi, ..*old(self) })
                && (if TWI_BUFFER_LENGTH < old(self).twi@.tx_length + quantity {
                final(self).twi == old(self).twi
            } else if old(self).twi.state != BusState::PeripheralTransmitting {
                final(self).twi == old(self).twi
            } else {
                final(self).twi@ == (TwiModel {
                    tx_length: old(self).twi@.tx_length + quantity,
                    tx: old(self).twi@.tx.map(
                        |i: int, b: u8|
                            if old(self).twi@.tx_length <= i < old(self).twi@.tx_length
                                + quantity {
                                data.inner@[i - old(self).twi@.tx_length]
                            } else {
                                b
                            },
                    ),
                    ..old(self).twi@
                })
            }),
    {
        if self.transmitting {
            // Controller transmitter mode: stage byte by byte.
            let base = self.tx_buffer.length;
            let start: usize = if data.index <= data.length {
                data.index
            } else {
                data.length
            };
            let mut i: usize = start;
            while i < data.length
                invariant
                    self.wf(),
                    data.wf(),
                    start <= i <= data.length,
                    old(self).transmitting,
                    base == old(self).tx_buffer.length <= TWI_BUFFER_LENGTH,
                    *self == (Wire { tx_buffer: self.tx_buffer, ..*old(self) }),
                    self.tx_buffer.length == (if base + (i - start) <= TWI_BUFFER_LENGTH {
                        base + (i - start)
                    } else {
                        TWI_BUFFER_LENGTH as int
                    }),
                    forall|j: int|
                        0 <= j < base ==> self.tx_buffer.inner@[j] == old(self).tx_buffer.inner@[j],
                    forall|j: int|
                        base <= j < self.tx_buffer.length ==> self.tx_buffer.inner@[j]
                            == data.inner@[start + (j - base)],
                decreases data.length - i,
            {
                let _ = self.write(data.inner[i]);
                i = i + 1;
            }
        } else {
            // Peripheral send mode: reply to the controller.
            let _ = self.twi.twi_transmit(data, quantity);
        }
    }

    /// The number of bytes still unread in the receive buffer.
    pub fn available(&self) -> (r: usize)
        requires
            self.wf(),
        ensures
            r == self.rx_buffer.length - self.rx_buffer.index,
    {
        self.rx_buffer.length - self.rx_buffer.index
    }

    /// Reads the byte at the front of the receive buffer, if any data is
    /// still available.
    pub fn read(&mut self) -> (r: Option<u8>)
        requires
            old(self).wf(),
        ensures
            final(self).wf(),
            old(self).rx_buffer.index < old(self).rx_buffer.length ==> r == Some(
                old(self).rx_buffer.inner@[old(self).rx_buffer.index as int],
            ) && *final(self) == (Wire { rx_buffer: final(self).rx_buffer, ..*old(self) })
                && final(self).rx_buffer == (ByteBuffer {
                index: (old(self).rx_buffer.index + 1) as usize,
                ..old(self).rx_buffer
            }),
            old(self).rx_buffer.index >= old(self).rx_buffer.length ==> r == None::<u8>
                && *final(self) == *old(self),
    {
        self.rx_buffer.next()
    }

    /// Returns the byte at the front of the receive buffer without
    /// consuming it.
    pub fn peek(&self) -> (r: Option<u8>)
        requires
            self.wf(),
        ensures
            self.rx_buffer.index < self.rx_buffer.length ==> r == Some(
                self.rx_buffer.inner@[self.rx_buffer.index as int],
            ),
            self.rx_buffer.index >= self.rx_buffer.length ==> r == None::<u8>,
    {
        if self.rx_buffer.index < self.rx_buffer.length {
            Some(self.rx_buffer.inner[self.rx_buffer.index])
        } else {
            None
        }
    }

    /// Has no effect: the historical interface never gave `flush` a body,
    /// and it is kept for parity.
    pub fn flush(&self)
    {
    }

    /// Registers the callback invoked when data is received while addressed
    /// as a peripheral.  The number of bytes received is passed to it.
    pub fn on_receive(&mut self, callback: R)
        requires
            old(self).wf(),
        ensures
            final(self).wf(),
            *final(self) == (Wire { user_on_receive: Some(callback), ..*old(self) }),
    {
        self.user_on_receive = Some(callback);
    }

    /// Registers the callback invoked when data is requested from us as a
    /// peripheral.
    pub fn on_request(&mut self, callback: Q)
        requires
            old(self).wf(),
        ensures
            final(self).wf(),
            *final(self) == (Wire { user_on_request: Some(callback), ..*old(self) }),
    {
        self.user_on_request = Some(callback);
    }

    /// The two-wire interrupt entry point: the hardware loads the data
    /// register and reports a status code, the protocol engine performs its
    /// transition, and the peripheral-role callbacks are dispatched.
    ///
    /// On a "data requested" dispatch the registered callback may fill the
    /// peripheral transmit buffer; whether or not one is registered, an
    /// empty buffer then defaults to a single zero byte, so at least one
    /// byte is always transmitted.  On a "data received" dispatch the bytes
    /// are copied out for `available`/`read`/`peek` and the callback is
    /// invoked with their count — unless the receive buffer still holds
    /// unread data, in which case the new bytes are dropped (the documented
    /// tradeoff that avoids blocking inside the interrupt).
    #[verifier::rlimit(100)]
    #[verifier::spinoff_prover]
    pub fn interrupt(&mut self, status: u8, data: u8)
        requires
            old(self).wf(),
        ensures
            final(self).wf(),
            ({
                let stepped = spec_step((TwiModel { twdr: data, ..old(self).twi@ }), status);
                // No callback dispatch: the engine takes exactly its step
                // and the facade is untouched.
                &&& (stepped.1 is None ==> final(self).twi@ == stepped.0 && *final(self) == (Wire {
                    twi: final(self).twi,
                    ..*old(self)
                }))
                // Addressed for a read: the transmit buffer is never left
                // empty.  Without a registered callback only the default
                // single-zero fill applies; with one, the callback runs on
                // the engine (and on itself), the staged transmission is
                // obsoleted, and the rest of the facade is untouched.
                &&& (stepped.1 == Some(Notify::Request) ==> final(self).twi@.tx_length >= 1)
                &&& (stepped.1 == Some(Notify::Request) && old(self).user_on_request is None
                    ==> final(self).twi@ == spec_finish_request(stepped.0) && *final(self) == (Wire {
                    twi: final(self).twi,
                    ..*old(self)
                }))
                &&& (stepped.1 == Some(Notify::Request) && old(self).user_on_request is Some
                    ==> final(self).tx_buffer == (ByteBuffer {
                    index: 0,
                    length: 0,
                    inner: old(self).tx_buffer.inner,
                }) && final(self).rx_buffer == old(self).rx_buffer
                    && final(self).tx_address == old(self).tx_address
                    && final(self).transmitting == old(self).transmitting
                    && (final(self).user_on_request is Some)
                    && final(self).user_on_receive == old(self).user_on_receive)
                // A completed peripheral receive: the engine takes its step;
                // the bytes are handed over and the callback invoked with
                // their count, unless unread data remains (then the new
                // bytes are dropped, the documented tradeoff) or no callback
                // is registered.
                &&& (stepped.1 matches Some(Notify::Receive(n)) ==> {
                    &&& final(self).twi@ == stepped.0
                    &&& (old(self).rx_buffer.index < old(self).rx_buffer.length ==> *final(self)
                        == (Wire { twi: final(self).twi, ..*old(self) }))
                    &&& (old(self).rx_buffer.index >= old(self).rx_buffer.length && (old(
                        self,
                    ).user_on_receive is None) ==> *final(self) == (Wire {
                        twi: final(self).twi,
                        ..*old(self)
                    }))
                    &&& (old(self).rx_buffer.index >= old(self).rx_buffer.length && (old(
                        self,
                    ).user_on_receive is Some) ==> ({
                        let m = if n <= TWI_BUFFER_LENGTH {
                            n as int
                        } else {
                            TWI_BUFFER_LENGTH as int
                        };
                        &&& final(self).rx_buffer.index == 0
                        &&& final(self).rx_buffer.length == m
                        &&& (forall|j: int|
                            0 <= j < m ==> final(self).rx_buffer.inner@[j] == stepped.0.rx[j])
                        &&& final(self).tx_buffer == old(self).tx_buffer
                        &&& final(self).tx_address == old(self).tx_address
                        &&& final(self).transmitting == old(self).transmitting
                        &&& final(self).user_on_receive is Some
                        &&& final(self).user_on_request == old(self).user_on_request
                    }))
                })
            }),
    {
        self.twi.twdr = data;
        let notify = self.twi.handle_event(status);
        match notify {
            None => (),
            Some(Notify::Request) => {
                // Ask the user to fill the peripheral transmit buffer, then
                // default it to one zero byte if nothing was written: the
                // peripheral never transmits nothing.
                if self.user_on_request.is_some() {
                    // A request interrupt obsoletes whatever transmission
                    // was being staged.
                    self.tx_buffer.reset();
                    match &mut self.user_on_request {
                        Some(q) => q.on_request(&mut self.twi),
                        None => (),
                    }
                }
                self.twi.finish_request();
            },
            Some(Notify::Receive(count)) => {
                // Don't clobber the receive buffer while a previous hand-off
                // has not been consumed; dropping the new data is the
                // documented tradeoff.
                if self.rx_buffer.index >= self.rx_buffer.length {
                    if self.user_on_receive.is_some() {
                        let ghost handed = *self;
                        let n = if count < TWI_BUFFER_LENGTH {
                            count
                        } else {
                            TWI_BUFFER_LENGTH
                        };
                        let mut i: usize = 0;
                        while i < n
                            invariant
                                n <= TWI_BUFFER_LENGTH,
                                i <= n,
                                self.wf(),
                                *self == (Wire { rx_buffer: self.rx_buffer, ..handed }),
                                self.rx_buffer == (ByteBuffer {
                                    inner: self.rx_buffer.inner,
                                    ..handed.rx_buffer
                                }),
                                forall|j: int|
                                    0 <= j < i ==> self.rx_buffer.inner@[j]
                                        == handed.twi.rx_buffer.inner@[j],
                            decreases n - i,
                        {
                            self.rx_buffer.inner[i] = self.twi.rx_buffer.inner[i];
                            i = i + 1;
                        }
                        self.rx_buffer.index = 0;
                        self.rx_buffer.length = n;
                        match &mut self.user_on_receive {
                            Some(cb) => cb.on_receive(n),
                            None => (),
                        }
                    }
                }
            },
        }
    }
}

} // verus!
