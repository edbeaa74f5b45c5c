//! The two-wire (I2C-style) protocol engine: an interrupt-driven state
//! machine implementing both controller and peripheral roles of the bus,
//! with buffering, error classification and timeout-triggered recovery.
//!
//! The hardware registers of the two-wire unit (control, status, data,
//! bit-rate and own-address) are modelled as explicit fields of [`Twi`], and
//! every command the driver issues to the bus lines (START, STOP, ACK/NACK
//! arming) is a recorded register write.  One hardware interrupt fires per
//! bus event; [`Twi::handle_event`] is that interrupt's body, taking the
//! event's status code and performing exactly one transition.

use vstd::prelude::*;

use crate::CPU_FREQUENCY;

verus! {

/// Length of the master, TX, and RX buffers.
pub const TWI_BUFFER_LENGTH: usize = 32;

/// Byte buffer with a write length and a read cursor, backed by a fixed
/// 32-byte array.  Used for the controller-role staging buffer and the
/// independent peripheral-role transmit/receive buffers.
#[derive(Debug, Clone, Copy)]
pub struct ByteBuffer {
    /// Read cursor of the buffer.
    pub index: usize,
    /// Number of meaningful bytes in the buffer.
    pub length: usize,
    /// Inner array containing the buffer data.
    pub inner: [u8; TWI_BUFFER_LENGTH],
}

impl ByteBuffer {
    /// Both cursor and length stay within the fixed capacity.
    pub open spec fn wf(self) -> bool {
        self.index <= TWI_BUFFER_LENGTH && self.length <= TWI_BUFFER_LENGTH
    }

    /// Creates a new zeroed buffer.
    pub fn new() -> (r: ByteBuffer)
        ensures
            r.wf(),
            r.index == 0,
            r.length == 0,
            forall|i: int| 0 <= i < TWI_BUFFER_LENGTH ==> r.inner@[i] == 0u8,
    {
        ByteBuffer { index: 0, length: 0, inner: [0; TWI_BUFFER_LENGTH] }
    }

    /// Creates a new buffer whose first byte is the given one.  The length
    /// stays zero: callers that hand the buffer on pass the byte count
    /// separately.
    pub fn single(byte: u8) -> (r: ByteBuffer)
        ensures
            r.wf(),
            r.index == 0,
            r.length == 0,
            r.inner@[0] == byte,
            forall|i: int| 1 <= i < TWI_BUFFER_LENGTH ==> r.inner@[i] == 0u8,
    {
        let mut blank = ByteBuffer::new();
        blank.inner[0] = byte;
        blank
    }

    /// Resets the length and cursor to zero, effectively clearing the buffer.
    pub fn reset(&mut self)
        ensures
            final(self).index == 0,
            final(self).length == 0,
            final(self).inner == old(self).inner,
    {
        self.index = 0;
        self.length = 0;
    }

    /// Sequential read: returns the byte at the cursor and advances the
    /// cursor, or `None` once every stored byte has been handed out.
    pub fn next(&mut self) -> (r: Option<u8>)
        requires
            old(self).wf(),
        ensures
            final(self).wf(),
            final(self).length == old(self).length,
            final(self).inner == old(self).inner,
            old(self).index < old(self).length ==> r == Some(old(self).inner@[old(self).index as int])
                && final(self).index == old(self).index + 1,
            old(self).index >= old(self).length ==> r == None::<u8> && final(self).index == old(
                self,
            ).index,
    {
        if self.index < self.length {
            let byte = self.inner[self.index];
            self.index = self.index + 1;
            Some(byte)
        } else {
            None
        }
    }
}

/// The five states of the bus driver.  Exactly one is active at any instant.
///
/// Foreground code may only begin a controller-role transaction when the
/// state is `Ready`; the interrupt handler is the only writer that moves the
/// state away from a transmitting/receiving value back to `Ready`.
#[derive(Debug, Clone, Copy, PartialEq, Eq, Structural)]
pub enum BusState {
    /// Ready to begin a transaction.
    Ready,
    /// Controller receiver mode.
    ControllerReceiving,
    /// Controller transmitter mode.
    ControllerTransmitting,
    /// Peripheral receiver mode.
    PeripheralReceiving,
    /// Peripheral transmitter mode.
    PeripheralTransmitting,
}

/// Status flags of the two-wire unit, decoded from the status register.
///
/// `TW_CT_xxx`: controller transmitter; `TW_CR_xxx`: controller receiver;
/// `TW_PT_xxx`: peripheral transmitter; `TW_PR_xxx`: peripheral receiver.
#[allow(non_camel_case_types)]
#[derive(Debug, Clone, Copy, PartialEq, Eq, Structural)]
pub enum Flags {
    /// Start condition transmitted
    TW_START,
    /// Repeated start condition transmitted
    TW_REP_START,
    /// SLA+W transmitted, ACK received
    TW_CT_SLA_ACK,
    /// SLA+W transmitted, NACK received
    TW_CT_SLA_NACK,
    /// Data transmitted, ACK received
    TW_CT_DATA_ACK,
    /// Data transmitted, NACK received
    TW_CT_DATA_NACK,
    /// Arbitration lost in SLA+W/R, data, or NACK.
    /// Shared by the controller transmitter and receiver roles.
    TW_CT_CR_ARB_LOST,
    /// SLA+R transmitted, ACK received
    TW_CR_SLA_ACK,
    /// SLA+R transmitted, NACK received
    TW_CR_SLA_NACK,
    /// Data received, ACK returned
    TW_CR_DATA_ACK,
    /// Data received, NACK returned
    TW_CR_DATA_NACK,
    /// SLA+R received, ACK returned
    TW_PT_SLA_ACK,
    /// Arbitration lost in SLA+RW, SLA+R received, ACK returned
    TW_PT_ARB_LOST_SLA_ACK,
    /// Data transmitted, ACK received
    TW_PT_DATA_ACK,
    /// Data transmitted, NACK received
    TW_PT_DATA_NACK,
    /// Last data byte transmitted, ACK received
    TW_PT_LAST_DATA,
    /// SLA+W received, ACK returned
    TW_PR_SLA_ACK,
    /// Arbitration lost in SLA+RW, SLA+W received, ACK returned
    TW_PR_ARB_LOST_SLA_ACK,
    /// General call received, ACK returned
    TW_PR_GCALL_ACK,
    /// Arbitration lost in SLA+RW, general call received, ACK returned
    TW_PR_ARB_LOST_GCALL_ACK,
    /// Data received, ACK returned
    TW_PR_DATA_ACK,
    /// Data received, NACK returned
    TW_PR_DATA_NACK,
    /// General call data received, ACK returned
    TW_PR_GCALL_DATA_ACK,
    /// General call data received, NACK returned
    TW_PR_GCALL_DATA_NACK,
    /// Stop or repeated start condition received while selected
    TW_PR_STOP,
    /// No state information available
    TW_NO_INFO,
    /// Illegal start or stop condition
    TW_BUS_ERROR,
}

/// The status code of each named flag, as the hardware reports it in the
/// high five bits of the status register.
pub open spec fn flag_code(f: Flags) -> u8 {
    match f {
        Flags::TW_START => 0x08,
        Flags::TW_REP_START => 0x10,
        Flags::TW_CT_SLA_ACK => 0x18,
        Flags::TW_CT_SLA_NACK => 0x20,
        Flags::TW_CT_DATA_ACK => 0x28,
        Flags::TW_CT_DATA_NACK => 0x30,
        Flags::TW_CT_CR_ARB_LOST => 0x38,
        Flags::TW_CR_SLA_ACK => 0x40,
        Flags::TW_CR_SLA_NACK => 0x48,
        Flags::TW_CR_DATA_ACK => 0x50,
        Flags::TW_CR_DATA_NACK => 0x58,
        Flags::TW_PR_SLA_ACK => 0x60,
        Flags::TW_PR_ARB_LOST_SLA_ACK => 0x68,
        Flags::TW_PR_GCALL_ACK => 0x70,
        Flags::TW_PR_ARB_LOST_GCALL_ACK => 0x78,
        Flags::TW_PR_DATA_ACK => 0x80,
        Flags::TW_PR_DATA_NACK => 0x88,
        Flags::TW_PR_GCALL_DATA_ACK => 0x90,
        Flags::TW_PR_GCALL_DATA_NACK => 0x98,
        Flags::TW_PR_STOP => 0xA0,
        Flags::TW_PT_SLA_ACK => 0xA8,
        Flags::TW_PT_ARB_LOST_SLA_ACK => 0xB0,
        Flags::TW_PT_DATA_ACK => 0xB8,
        Flags::TW_PT_DATA_NACK => 0xC0,
        Flags::TW_PT_LAST_DATA => 0xC8,
        Flags::TW_NO_INFO => 0xF8,
        Flags::TW_BUS_ERROR => 0x00,
    }
}

/// Mask isolating the status bits of the status register; the low three
/// bits encode the prescaler, not status, and are dropped before
/// classification.
pub const TW_STATUS_MASK: u8 = 0b1111_1000;

/// Classification of a masked status byte into a named flag: the exact
/// inverse of [`flag_code`] on the 27 recognized codes, `None` elsewhere.
pub open spec fn spec_decode(status: u8) -> Option<Flags> {
    let masked = status & TW_STATUS_MASK;
    if masked == 0x00 {
        Some(Flags::TW_BUS_ERROR)
    } else if masked == 0x08 {
        Some(Flags::TW_START)
    } else if masked == 0x10 {
        Some(Flags::TW_REP_START)
    } else if masked == 0x18 {
        Some(Flags::TW_CT_SLA_ACK)
    } else if masked == 0x20 {
        Some(Flags::TW_CT_SLA_NACK)
    } else if masked == 0x28 {
        Some(Flags::TW_CT_DATA_ACK)
    } else if masked == 0x30 {
        Some(Flags::TW_CT_DATA_NACK)
    } else if masked == 0x38 {
        Some(Flags::TW_CT_CR_ARB_LOST)
    } else if masked == 0x40 {
        Some(Flags::TW_CR_SLA_ACK)
    } else if masked == 0x48 {
        Some(Flags::TW_CR_SLA_NACK)
    } else if masked == 0x50 {
        Some(Flags::TW_CR_DATA_ACK)
    } else if masked == 0x58 {
        Some(Flags::TW_CR_DATA_NACK)
    } else if masked == 0x60 {
        Some(Flags::TW_PR_SLA_ACK)
    } else if masked == 0x68 {
        Some(Flags::TW_PR_ARB_LOST_SLA_ACK)
    } else if masked == 0x70 {
        Some(Flags::TW_PR_GCALL_ACK)
    } else if masked == 0x78 {
        Some(Flags::TW_PR_ARB_LOST_GCALL_ACK)
    } else if masked == 0x80 {
        Some(Flags::TW_PR_DATA_ACK)
    } else if masked == 0x88 {
        Some(Flags::TW_PR_DATA_NACK)
    } else if masked == 0x90 {
        Some(Flags::TW_PR_GCALL_DATA_ACK)
    } else if masked == 0x98 {
        Some(Flags::TW_PR_GCALL_DATA_NACK)
    } else if masked == 0xA0 {
        Some(Flags::TW_PR_STOP)
    } else if masked == 0xA8 {
        Some(Flags::TW_PT_SLA_ACK)
    } else if masked == 0xB0 {
        Some(Flags::TW_PT_ARB_LOST_SLA_ACK)
    } else if masked == 0xB8 {
        Some(Flags::TW_PT_DATA_ACK)
    } else if masked == 0xC0 {
        Some(Flags::TW_PT_DATA_NACK)
    } else if masked == 0xC8 {
        Some(Flags::TW_PT_LAST_DATA)
    } else if masked == 0xF8 {
        Some(Flags::TW_NO_INFO)
    } else {
        None
    }
}

impl Flags {
    /// Masks the prescaler bits off a raw status byte and classifies the
    /// result into a named flag; `None` for the five unassigned codes.
    pub fn from_flag(flag: u8) -> (r: Option<Flags>)
        ensures
            r == spec_decode(flag),
    {
        match flag & TW_STATUS_MASK {
            0x00 => Some(Flags::TW_BUS_ERROR),
            0x08 => Some(Flags::TW_START),
            0x10 => Some(Flags::TW_REP_START),
            0x18 => Some(Flags::TW_CT_SLA_ACK),
            0x20 => Some(Flags::TW_CT_SLA_NACK),
            0x28 => Some(Flags::TW_CT_DATA_ACK),
            0x30 => Some(Flags::TW_CT_DATA_NACK),
            0x38 => Some(Flags::TW_CT_CR_ARB_LOST),
            0x40 => Some(Flags::TW_CR_SLA_ACK),
            0x48 => Some(Flags::TW_CR_SLA_NACK),
            0x50 => Some(Flags::TW_CR_DATA_ACK),
            0x58 => Some(Flags::TW_CR_DATA_NACK),
            0x60 => Some(Flags::TW_PR_SLA_ACK),
            0x68 => Some(Flags::TW_PR_ARB_LOST_SLA_ACK),
            0x70 => Some(Flags::TW_PR_GCALL_ACK),
            0x78 => Some(Flags::TW_PR_ARB_LOST_GCALL_ACK),
            0x80 => Some(Flags::TW_PR_DATA_ACK),
            0x88 => Some(Flags::TW_PR_DATA_NACK),
            0x90 => Some(Flags::TW_PR_GCALL_DATA_ACK),
            0x98 => Some(Flags::TW_PR_GCALL_DATA_NACK),
            0xA0 => Some(Flags::TW_PR_STOP),
            0xA8 => Some(Flags::TW_PT_SLA_ACK),
            0xB0 => Some(Flags::TW_PT_ARB_LOST_SLA_ACK),
            0xB8 => Some(Flags::TW_PT_DATA_ACK),
            0xC0 => Some(Flags::TW_PT_DATA_NACK),
            0xC8 => Some(Flags::TW_PT_LAST_DATA),
            0xF8 => Some(Flags::TW_NO_INFO),
            _ => None,
        }
    }

    /// The status code this flag stands for, e.g. for recording in the
    /// sticky error slot.
    pub fn code(&self) -> (r: u8)
        ensures
            r == flag_code(*self),
    {
        match self {
            Flags::TW_START => 0x08,
            Flags::TW_REP_START => 0x10,
            Flags::TW_CT_SLA_ACK => 0x18,
            Flags::TW_CT_SLA_NACK => 0x20,
            Flags::TW_CT_DATA_ACK => 0x28,
            Flags::TW_CT_DATA_NACK => 0x30,
            Flags::TW_CT_CR_ARB_LOST => 0x38,
            Flags::TW_CR_SLA_ACK => 0x40,
            Flags::TW_CR_SLA_NACK => 0x48,
            Flags::TW_CR_DATA_ACK => 0x50,
            Flags::TW_CR_DATA_NACK => 0x58,
            Flags::TW_PR_SLA_ACK => 0x60,
            Flags::TW_PR_ARB_LOST_SLA_ACK => 0x68,
            Flags::TW_PR_GCALL_ACK => 0x70,
            Flags::TW_PR_ARB_LOST_GCALL_ACK => 0x78,
            Flags::TW_PR_DATA_ACK => 0x80,
            Flags::TW_PR_DATA_NACK => 0x88,
            Flags::TW_PR_GCALL_DATA_ACK => 0x90,
            Flags::TW_PR_GCALL_DATA_NACK => 0x98,
            Flags::TW_PR_STOP => 0xA0,
            Flags::TW_PT_SLA_ACK => 0xA8,
            Flags::TW_PT_ARB_LOST_SLA_ACK => 0xB0,
            Flags::TW_PT_DATA_ACK => 0xB8,
            Flags::TW_PT_DATA_NACK => 0xC0,
            Flags::TW_PT_LAST_DATA => 0xC8,
            Flags::TW_NO_INFO => 0xF8,
            Flags::TW_BUS_ERROR => 0x00,
        }
    }
}

/// Error from a controller-role read.
#[derive(Debug, Clone, Copy, PartialEq, Eq, Structural)]
pub enum ReadError {
    /// Requested length is too large to fit in the buffer.
    TooLarge,
    /// Request timed out.
    Timeout,
}

/// Error from a controller-role write.
#[derive(Debug, Clone, Copy, PartialEq, Eq, Structural)]
pub enum WriteError {
    /// The length of the data passed is larger than the staging buffer.
    TooLarge,
    /// Address sent, NACK received.
    SlaNack,
    /// Data sent, NACK received.
    DataNack,
    /// Other two-wire error.
    Other,
    /// Timed out.
    Timeout,
}

/// Error from filling the peripheral transmit buffer.
#[derive(Debug, Clone, Copy, PartialEq, Eq, Structural)]
pub enum TransmitError {
    /// Length too long for the TX buffer.
    TooLarge,
    /// Not in peripheral transmitter state.
    NotPTX,
}

/// One bus event as the hardware interrupt delivers it: the status code of
/// the event, and the byte the data register holds when the interrupt fires
/// (meaningful for the events that carry received data).
#[derive(Debug, Clone, Copy, PartialEq, Eq, Structural)]
pub struct BusEvent {
    /// Raw status byte reported for the event.
    pub status: u8,
    /// Contents of the data register when the interrupt fires.
    pub data: u8,
}

/// What the interrupt handler asks its caller to do after a transition:
/// dispatch one of the two peripheral-role callbacks.
#[derive(Debug, Clone, Copy, PartialEq, Eq, Structural)]
pub enum Notify {
    /// The peripheral receive buffer was completed: invoke the "data
    /// received" callback with the byte count.
    Receive(usize),
    /// The bus addressed us for a read: invoke the "data requested"
    /// callback so it can fill the transmit buffer, then call
    /// [`Twi::finish_request`].
    Request,
}

// Bits of the modelled control register.
/// Interrupt flag: writing it acknowledges the pending bus event.
pub const TWCR_TWINT: u8 = 0x80;
/// Enable-acknowledge: an ACK is sent in the next acknowledge cycle.
pub const TWCR_TWEA: u8 = 0x40;
/// Start-condition request.
pub const TWCR_TWSTA: u8 = 0x20;
/// Stop-condition request; the hardware clears it once the STOP is out.
pub const TWCR_TWSTO: u8 = 0x10;
/// Write-collision flag.
pub const TWCR_TWWC: u8 = 0x08;
/// Enable bit of the two-wire unit.
pub const TWCR_TWEN: u8 = 0x04;
/// Interrupt-enable bit.
pub const TWCR_TWIE: u8 = 0x01;

/// Sticky error slot value meaning that no error has occurred.
pub const TW_NO_ERROR: u8 = 0xFF;

} // verus!

verus! {

/// Two-wire bus clock frequency the driver initializes to, in hertz.
pub const TWI_FREQ: u64 = 100_000;

/// Direction bit of an SLA+R address byte.
pub const TW_READ: u8 = 1;

/// Direction bit of an SLA+W address byte.
pub const TW_WRITE: u8 = 0;

/// The driver state of the two-wire unit: every shared cell of the
/// interrupt-driven protocol engine, together with the modelled hardware
/// registers of the unit.
///
/// On the target part this state lives in process-wide cells shared between
/// foreground code and the interrupt handler, with exclusivity enforced by
/// an interrupt-disabling critical section; here the same exclusivity is
/// carried by `&mut` access to one `Twi` value, and the interrupt handler is
/// a second caller of [`Twi::handle_event`] that can never overlap a
/// foreground call.
#[derive(Debug, Clone, Copy)]
pub struct Twi {
    /// Current state of the bus driver.
    pub state: BusState,
    /// Address + direction byte (SLA+R/W) of the transaction in flight.
    pub slarw: u8,
    /// Whether the transaction in flight ends with a STOP condition.
    pub send_stop: bool,
    /// Whether a repeated START was issued and is still pending, so the next
    /// transaction must not issue its own START.
    pub in_rep_start: bool,
    /// Busy-wait budget in microseconds; zero disables timeout checking.
    pub timeout_us: u32,
    /// Sticky flag recording that some busy-wait has timed out.
    pub timed_out_flag: bool,
    /// Whether a timeout performs a full reset of the two-wire unit.
    pub do_reset_on_timeout: bool,
    /// Sticky error slot: the status code of the last error, or
    /// [`TW_NO_ERROR`].  Persists until the next transaction overwrites it.
    pub error: u8,
    /// Controller-role staging buffer.
    pub master_buffer: ByteBuffer,
    /// Peripheral-role transmit buffer.
    pub tx_buffer: ByteBuffer,
    /// Peripheral-role receive buffer.
    pub rx_buffer: ByteBuffer,
    /// Modelled control register of the two-wire unit.
    pub twcr: u8,
    /// Modelled data register of the two-wire unit.  The bus model stores a
    /// received byte here before the interrupt fires; the driver writes the
    /// next byte to transmit here.
    pub twdr: u8,
    /// Modelled own-address register.
    pub twar: u8,
    /// Modelled bit-rate register.
    pub twbr: u8,
    /// Pull-up state of the data line.
    pub sda_pullup: bool,
    /// Pull-up state of the clock line.
    pub scl_pullup: bool,
    /// How many START conditions have been requested (wrapping count).
    pub starts_sent: u64,
    /// How many STOP conditions have been issued (wrapping count).
    pub stops_sent: u64,
    /// How many bus events the interrupt handler has classified and handled
    /// (wrapping count).
    pub events_handled: u64,
}

/// Mathematical model of a [`Twi`] value: the same fields, with the three
/// buffers flattened to sequences and the cursors widened to `int`.
#[verifier::ext_equal]
pub ghost struct TwiModel {
    pub state: BusState,
    pub slarw: u8,
    pub send_stop: bool,
    pub in_rep_start: bool,
    pub timeout_us: u32,
    pub timed_out_flag: bool,
    pub do_reset_on_timeout: bool,
    pub error: u8,
    pub master_index: int,
    pub master_length: int,
    pub master: Seq<u8>,
    pub tx_index: int,
    pub tx_length: int,
    pub tx: Seq<u8>,
    pub rx_index: int,
    pub rx_length: int,
    pub rx: Seq<u8>,
    pub twcr: u8,
    pub twdr: u8,
    pub twar: u8,
    pub twbr: u8,
    pub sda_pullup: bool,
    pub scl_pullup: bool,
    pub starts_sent: u64,
    pub stops_sent: u64,
    pub events_handled: u64,
}

impl View for Twi {
    type V = TwiModel;

    open spec fn view(&self) -> TwiModel {
        TwiModel {
            state: self.state,
            slarw: self.slarw,
            send_stop: self.send_stop,
            in_rep_start: self.in_rep_start,
            timeout_us: self.timeout_us,
            timed_out_flag: self.timed_out_flag,
            do_reset_on_timeout: self.do_reset_on_timeout,
            error: self.error,
            master_index: self.master_buffer.index as int,
            master_length: self.master_buffer.length as int,
            master: self.master_buffer.inner@,
            tx_index: self.tx_buffer.index as int,
            tx_length: self.tx_buffer.length as int,
            tx: self.tx_buffer.inner@,
            rx_index: self.rx_buffer.index as int,
            rx_length: self.rx_buffer.length as int,
            rx: self.rx_buffer.inner@,
            twcr: self.twcr,
            twdr: self.twdr,
            twar: self.twar,
            twbr: self.twbr,
            sda_pullup: self.sda_pullup,
            scl_pullup: self.scl_pullup,
            starts_sent: self.starts_sent,
            stops_sent: self.stops_sent,
            events_handled: self.events_handled,
        }
    }
}

/// A wrapping counter increment.
pub open spec fn wrap1(x: u64) -> u64 {
    if x == u64::MAX {
        0
    } else {
        (x + 1) as u64
    }
}

/// Control-register value written to reply with ACK armed (also the value
/// that releases the bus and the value left once a STOP has gone out).
pub const TWCR_REPLY_ACK: u8 = 0xC5;

/// Control-register value written to reply with NACK armed.
pub const TWCR_REPLY_NACK: u8 = 0x85;

/// Control-register value written to issue a STOP condition.
pub const TWCR_STOP: u8 = 0xD5;

/// Control-register value written to latch a repeated START without
/// re-enabling the interrupt.
pub const TWCR_REP_START: u8 = 0xA4;

/// Control-register value written to issue a START condition.
pub const TWCR_START: u8 = 0xE5;

/// Control-register value written to continue a pending repeated START:
/// interrupts back on, no new START.
pub const TWCR_CONTINUE: u8 = 0xC5;

/// Model of an ACK/NACK reply: re-arm the unit with or without the
/// enable-acknowledge bit.
pub open spec fn spec_reply(m: TwiModel, ack: bool) -> TwiModel {
    TwiModel { twcr: if ack { TWCR_REPLY_ACK } else { TWCR_REPLY_NACK }, ..m }
}

/// Model of a STOP: the stop goes out on the bus (counted), the hardware
/// clears the stop bit, and the driver returns to `Ready`.
pub open spec fn spec_stop(m: TwiModel) -> TwiModel {
    TwiModel {
        twcr: TWCR_REPLY_ACK,
        stops_sent: wrap1(m.stops_sent),
        state: BusState::Ready,
        ..m
    }
}

/// Model of releasing the bus without a STOP (arbitration was lost, so
/// ownership was never held): re-arm ACK and interrupt, return to `Ready`.
pub open spec fn spec_release_bus(m: TwiModel) -> TwiModel {
    TwiModel { twcr: TWCR_REPLY_ACK, state: BusState::Ready, ..m }
}

/// Model of concluding a transaction with a repeated START: the START is
/// latched in hardware (counted) with the interrupt left disabled, and the
/// driver returns to `Ready` with the repeated start pending.
pub open spec fn spec_rep_start(m: TwiModel) -> TwiModel {
    TwiModel {
        in_rep_start: true,
        twcr: TWCR_REP_START,
        starts_sent: wrap1(m.starts_sent),
        state: BusState::Ready,
        ..m
    }
}

/// The transition the interrupt handler makes for one classified flag, and
/// the callback dispatch it requests.  This is the mathematical statement of
/// the whole protocol state machine; [`Twi::handle_event`] is proved to
/// implement exactly this.
pub open spec fn spec_dispatch(m: TwiModel, f: Flags) -> (TwiModel, Option<Notify>) {
    match f {
        // A START or repeated START went out: send the address byte.
        Flags::TW_START | Flags::TW_REP_START => (
            spec_reply(TwiModel { twdr: m.slarw, ..m }, true),
            None,
        ),
        // Controller transmitter, address or data acknowledged: send the
        // next staged byte if any remain, otherwise conclude.
        Flags::TW_CT_SLA_ACK | Flags::TW_CT_DATA_ACK => if m.master_index < m.master_length {
            (
                spec_reply(
                    TwiModel {
                        twdr: m.master[m.master_index],
                        master_index: m.master_index + 1,
                        ..m
                    },
                    true,
                ),
                None,
            )
        } else if m.send_stop {
            (spec_stop(m), None)
        } else {
            (spec_rep_start(m), None)
        },
        Flags::TW_CT_SLA_NACK => (spec_stop(TwiModel { error: 0x20, ..m }), None),
        Flags::TW_CT_DATA_NACK => (spec_stop(TwiModel { error: 0x30, ..m }), None),
        Flags::TW_CT_CR_ARB_LOST => (spec_release_bus(TwiModel { error: 0x38, ..m }), None),
        // Controller receiver, address acknowledged: arm ACK only if more
        // than one byte is still wanted, so the NACK for the final byte is
        // already latched when its predecessor completes.
        Flags::TW_CR_SLA_ACK => (spec_reply(m, m.master_index < m.master_length), None),
        // Controller receiver, a byte arrived and our latched ACK went out:
        // store it and decide the acknowledge for the byte after next.
        Flags::TW_CR_DATA_ACK => {
            let m2 = if m.master_index < TWI_BUFFER_LENGTH {
                TwiModel {
                    master: m.master.update(m.master_index, m.twdr),
                    master_index: m.master_index + 1,
                    ..m
                }
            } else {
                m
            };
            (spec_reply(m2, m2.master_index < m2.master_length), None)
        },
        // Controller receiver, the final byte arrived with our NACK: store
        // it and conclude with STOP or repeated START.
        Flags::TW_CR_DATA_NACK => {
            let m2 = if m.master_index < TWI_BUFFER_LENGTH {
                TwiModel {
                    master: m.master.update(m.master_index, m.twdr),
                    master_index: m.master_index + 1,
                    ..m
                }
            } else {
                m
            };
            if m.send_stop {
                (spec_stop(m2), None)
            } else {
                (spec_rep_start(m2), None)
            }
        },
        Flags::TW_CR_SLA_NACK => (spec_stop(m), None),
        // Addressed as peripheral for a write: enter peripheral receive,
        // clear the receive buffer and ACK.
        Flags::TW_PR_SLA_ACK
        | Flags::TW_PR_GCALL_ACK
        | Flags::TW_PR_ARB_LOST_SLA_ACK
        | Flags::TW_PR_ARB_LOST_GCALL_ACK => (
            spec_reply(
                TwiModel { state: BusState::PeripheralReceiving, rx_index: 0, rx_length: 0, ..m },
                true,
            ),
            None,
        ),
        // Data received as peripheral: store and ACK while there is room,
        // otherwise NACK.
        Flags::TW_PR_DATA_ACK | Flags::TW_PR_GCALL_DATA_ACK => if m.rx_index
            < TWI_BUFFER_LENGTH {
            (
                spec_reply(
                    TwiModel { rx: m.rx.update(m.rx_index, m.twdr), rx_index: m.rx_index + 1, ..m },
                    true,
                ),
                None,
            )
        } else {
            (spec_reply(m, false), None)
        },
        // Stop or repeated start seen while addressed: release the bus,
        // null-terminate the received data for convenience, hand the byte
        // count to the "data received" callback, and reset the buffer.
        Flags::TW_PR_STOP => {
            let m2 = spec_release_bus(m);
            let m3 = if m.rx_index < TWI_BUFFER_LENGTH {
                TwiModel { rx: m2.rx.update(m2.rx_index, 0u8), ..m2 }
            } else {
                m2
            };
            (TwiModel { rx_index: 0, ..m3 }, Some(Notify::Receive(m.rx_index as usize)))
        },
        Flags::TW_PR_DATA_NACK | Flags::TW_PR_GCALL_DATA_NACK => (spec_reply(m, false), None),
        // Addressed as peripheral for a read: enter peripheral transmit,
        // clear the transmit buffer and ask for it to be filled.
        Flags::TW_PT_SLA_ACK | Flags::TW_PT_ARB_LOST_SLA_ACK => (
            TwiModel { state: BusState::PeripheralTransmitting, tx_index: 0, tx_length: 0, ..m },
            Some(Notify::Request),
        ),
        // Byte acknowledged as peripheral transmitter: send the next
        // buffered byte, ACK if more remain else NACK.
        Flags::TW_PT_DATA_ACK => {
            let m2 = if m.tx_index < m.tx_length && m.tx_index < TWI_BUFFER_LENGTH {
                TwiModel { twdr: m.tx[m.tx_index], tx_index: m.tx_index + 1, ..m }
            } else {
                m
            };
            (spec_reply(m2, m2.tx_index < m2.tx_length), None)
        },
        // NACK after the last byte, or ACK after the declared last byte:
        // re-arm for future addressing and return to `Ready`.
        Flags::TW_PT_DATA_NACK | Flags::TW_PT_LAST_DATA => (
            TwiModel { state: BusState::Ready, ..spec_reply(m, true) },
            None,
        ),
        Flags::TW_BUS_ERROR => (spec_stop(TwiModel { error: 0x00, ..m }), None),
        Flags::TW_NO_INFO => (m, None),
    }
}

/// One step of the interrupt handler on a raw status byte: classify, then
/// dispatch.  Unclassifiable status bytes change nothing.
pub open spec fn spec_step(m: TwiModel, status: u8) -> (TwiModel, Option<Notify>) {
    match spec_decode(status) {
        Option::None => (m, None),
        Option::Some(f) => spec_dispatch(
            TwiModel { events_handled: wrap1(m.events_handled), ..m },
            f,
        ),
    }
}

} // verus!

verus! {

/// A wrapping increment for the event and line-condition counters.
fn bump(x: u64) -> (r: u64)
    ensures
        r == wrap1(x),
{
    if x == u64::MAX {
        0
    } else {
        x + 1
    }
}

impl Twi {
    /// All three buffers keep their cursors and lengths within capacity.
    pub open spec fn wf(self) -> bool {
        self.master_buffer.wf() && self.tx_buffer.wf() && self.rx_buffer.wf()
    }

    /// A fresh driver: ready, no error recorded, timeouts disabled, all
    /// buffers empty and every modelled register zero.
    pub fn new() -> (r: Twi)
        ensures
            r.wf(),
            r.state == BusState::Ready,
            r.error == TW_NO_ERROR,
            r.send_stop,
            !r.in_rep_start,
            r.timeout_us == 0,
            !r.timed_out_flag,
            !r.do_reset_on_timeout,
            r.twcr == 0,
            r.twar == 0,
            r.twbr == 0,
            r.starts_sent == 0,
            r.stops_sent == 0,
            r.events_handled == 0,
            r@.master_index == 0 && r@.master_length == 0,
            r@.tx_index == 0 && r@.tx_length == 0,
            r@.rx_index == 0 && r@.rx_length == 0,
    {
        Twi {
            state: BusState::Ready,
            slarw: 0,
            send_stop: true,
            in_rep_start: false,
            timeout_us: 0,
            timed_out_flag: false,
            do_reset_on_timeout: false,
            error: TW_NO_ERROR,
            master_buffer: ByteBuffer::new(),
            tx_buffer: ByteBuffer::new(),
            rx_buffer: ByteBuffer::new(),
            twcr: 0,
            twdr: 0,
            twar: 0,
            twbr: 0,
            sda_pullup: false,
            scl_pullup: false,
            starts_sent: 0,
            stops_sent: 0,
            events_handled: 0,
        }
    }

    /// Readies the bus-line pull-ups, sets the bit rate for [`TWI_FREQ`] and
    /// enables the two-wire unit, its interrupt and acknowledging.
    pub fn twi_init(&mut self)
        ensures
            *final(self) == (Twi {
                sda_pullup: true,
                scl_pullup: true,
                twbr: (((CPU_FREQUENCY / TWI_FREQ) - 16) / 2) as u8,
                twcr: old(self).twcr | (TWCR_TWEN | TWCR_TWIE | TWCR_TWEA),
                ..*old(self)
            }),
    {
        // Activate internal pullups for the two-wire lines.
        self.sda_pullup = true;
        self.scl_pullup = true;
        // Initialize the bit rate; the prescaler bits of the status are
        // already dropped by the classification mask.
        self.twbr = (((CPU_FREQUENCY / TWI_FREQ) - 16) / 2) as u8;
        // Enable the two-wire unit, acks, and its interrupt.
        self.twcr = self.twcr | (TWCR_TWEN | TWCR_TWIE | TWCR_TWEA);
    }

    /// Disables the two-wire unit, its interrupt and acknowledging, and
    /// drops the bus-line pull-ups.
    pub fn twi_disable(&mut self)
        ensures
            *final(self) == (Twi {
                sda_pullup: false,
                scl_pullup: false,
                twcr: old(self).twcr & !(TWCR_TWEN | TWCR_TWIE | TWCR_TWEA),
                ..*old(self)
            }),
    {
        self.twcr = self.twcr & !(TWCR_TWEN | TWCR_TWIE | TWCR_TWEA);
        self.sda_pullup = false;
        self.scl_pullup = false;
    }

    /// Sets the 7-bit address the unit answers to in peripheral role.
    pub fn set_address(&mut self, address: u8)
        ensures
            *final(self) == (Twi { twar: (address << 1) as u8, ..*old(self) }),
    {
        self.twar = address << 1;
    }

    /// Sets the bit rate for the given bus clock frequency.
    pub fn set_frequency(&mut self, frequency: u64)
        requires
            frequency > 0,
            CPU_FREQUENCY / frequency >= 16,
        ensures
            *final(self) == (Twi {
                twbr: (((CPU_FREQUENCY / frequency) - 16) / 2) as u8,
                ..*old(self)
            }),
    {
        self.twbr = (((CPU_FREQUENCY / frequency) - 16) / 2) as u8;
    }

    /// Acknowledges the pending bus event, arming an ACK or a NACK for the
    /// next acknowledge cycle.
    pub fn twi_reply(&mut self, ack: bool)
        ensures
            final(self)@ == spec_reply(old(self)@, ack),
    {
        if ack {
            self.twcr = TWCR_REPLY_ACK;
        } else {
            self.twcr = TWCR_REPLY_NACK;
        }
    }

    /// Issues a STOP condition and returns the driver to `Ready`.
    ///
    /// On the target part the driver then spins until the hardware clears
    /// the stop bit; in this model the STOP completes at once, so the spin
    /// (and its timeout arm) has no work left to do.
    pub fn twi_stop(&mut self)
        ensures
            final(self)@ == spec_stop(old(self)@),
    {
        self.twcr = TWCR_STOP;
        self.stops_sent = bump(self.stops_sent);
        // The stop condition has been executed on the bus; the hardware
        // clears the stop bit.
        self.twcr = TWCR_REPLY_ACK;
        self.state = BusState::Ready;
    }

    /// Releases the bus without a STOP (used when arbitration was lost, so
    /// bus ownership was never held) and returns the driver to `Ready`.
    pub fn twi_release_bus(&mut self)
        ensures
            final(self)@ == spec_release_bus(old(self)@),
    {
        self.twcr = TWCR_REPLY_ACK;
        self.state = BusState::Ready;
    }

    /// Concludes a transaction by latching a repeated START: the hardware
    /// owns the pending START, the interrupt stays disabled until the next
    /// transaction re-enables it, and the driver is `Ready` at once.
    fn conclude_with_rep_start(&mut self)
        ensures
            final(self)@ == spec_rep_start(old(self)@),
    {
        self.in_rep_start = true;
        self.twcr = TWCR_REP_START;
        self.starts_sent = bump(self.starts_sent);
        self.state = BusState::Ready;
    }

    /// Sets the busy-wait budget in microseconds (zero disables timeout
    /// checking) and whether expiry resets the unit, clearing the sticky
    /// timeout flag.
    pub fn twi_set_timeout_us(&mut self, timeout: u32, reset_with_timeout: bool)
        ensures
            *final(self) == (Twi {
                timed_out_flag: false,
                timeout_us: timeout,
                do_reset_on_timeout: reset_with_timeout,
                ..*old(self)
            }),
    {
        self.timed_out_flag = false;
        self.timeout_us = timeout;
        self.do_reset_on_timeout = reset_with_timeout;
    }

    /// Returns the sticky timeout flag, clearing it when asked to.
    pub fn twi_manage_timeout_flag(&mut self, clear_flag: bool) -> (r: bool)
        ensures
            r == old(self).timed_out_flag,
            *final(self) == (Twi {
                timed_out_flag: old(self).timed_out_flag && !clear_flag,
                ..*old(self)
            }),
    {
        let flag = self.timed_out_flag;
        if clear_flag {
            self.timed_out_flag = false;
        }
        flag
    }

    /// The recovery path of an expired busy-wait: sets the sticky timeout
    /// flag and, when configured, resets the two-wire unit while preserving
    /// its bit rate and own address.
    pub fn twi_handle_timeout(&mut self, reset: bool)
        ensures
            final(self).timed_out_flag,
            final(self).twbr == old(self).twbr,
            final(self).twar == old(self).twar,
            !reset ==> *final(self) == (Twi { timed_out_flag: true, ..*old(self) }),
            reset ==> *final(self) == (Twi {
                timed_out_flag: true,
                sda_pullup: true,
                scl_pullup: true,
                twcr: (old(self).twcr & !(TWCR_TWEN | TWCR_TWIE | TWCR_TWEA)) | (TWCR_TWEN
                    | TWCR_TWIE | TWCR_TWEA),
                ..*old(self)
            }),
    {
        self.timed_out_flag = true;
        if reset {
            let previous_twbr = self.twbr;
            let previous_twar = self.twar;
            self.twi_disable();
            self.twi_init();
            self.twbr = previous_twbr;
            self.twar = previous_twar;
        }
    }

    /// Fills the peripheral transmit buffer with data.  Must be called from
    /// the "data requested" callback, while the driver is the peripheral
    /// transmitter.
    pub fn twi_transmit(&mut self, data: ByteBuffer, length: usize) -> (r: Result<
        (),
        TransmitError,
    >)
        requires
            old(self).wf(),
        ensures
            final(self).wf(),
            TWI_BUFFER_LENGTH < old(self)@.tx_length + length ==> r == Err::<(), TransmitError>(
                TransmitError::TooLarge,
            ) && *final(self) == *old(self),
            TWI_BUFFER_LENGTH >= old(self)@.tx_length + length && old(self).state
                != BusState::PeripheralTransmitting ==> r == Err::<(), TransmitError>(
                TransmitError::NotPTX,
            ) && *final(self) == *old(self),
            TWI_BUFFER_LENGTH >= old(self)@.tx_length + length && old(self).state
                == BusState::PeripheralTransmitting ==> r == Ok::<(), TransmitError>(())
                && final(self)@ == (TwiModel {
                tx_length: old(self)@.tx_length + length,
                tx: old(self)@.tx.map(
                    |i: int, b: u8|
                        if old(self)@.tx_length <= i < old(self)@.tx_length + length {
                            data.inner@[i - old(self)@.tx_length]
                        } else {
                            b
                        },
                ),
                ..old(self)@
            }),
    {
        // Ensure the data will fit into the buffer.
        if length > TWI_BUFFER_LENGTH - self.tx_buffer.length {
            return Err(TransmitError::TooLarge);
        }
        // Ensure we are currently the peripheral transmitter.
        if self.state != BusState::PeripheralTransmitting {
            return Err(TransmitError::NotPTX);
        }
        // Copy the data into the transmit buffer.
        let base = self.tx_buffer.length;
        let mut i: usize = 0;
        while i < length
            invariant
                i <= length,
                base + length <= TWI_BUFFER_LENGTH,
                self.tx_buffer.length == base,
                self.tx_buffer.inner@ == old(self)@.tx.map(
                    |j: int, b: u8|
                        if base <= j < base + i {
                            data.inner@[j - base]
                        } else {
                            b
                        },
                ),
                self.tx_buffer.index == old(self)@.tx_index,
                *old(self) == (Twi { tx_buffer: old(self).tx_buffer, ..*self }),
                old(self).tx_buffer == (ByteBuffer { inner: old(self).tx_buffer.inner, ..self
                    .tx_buffer }),
            decreases length - i,
        {
            self.tx_buffer.inner[base + i] = data.inner[i];
            i = i + 1;
            proof {
                assert(self.tx_buffer.inner@ =~= old(self)@.tx.map(
                    |j: int, b: u8|
                        if base <= j < base + i {
                            data.inner@[j - base]
                        } else {
                            b
                        },
                ));
            }
        }
        self.tx_buffer.length = base + length;
        proof {
            assert(final(self)@ =~= (TwiModel {
                tx_length: old(self)@.tx_length + length,
                tx: old(self)@.tx.map(
                    |i: int, b: u8|
                        if old(self)@.tx_length <= i < old(self)@.tx_length + length {
                            data.inner@[i - old(self)@.tx_length]
                        } else {
                            b
                        },
                ),
                ..old(self)@
            }));
        }
        Ok(())
    }

    /// Applied once the "data requested" callback has returned: if it left
    /// the transmit buffer empty, default it to a single zero byte, so the
    /// peripheral never transmits nothing.
    pub fn finish_request(&mut self)
        ensures
            final(self)@.tx_length >= 1,
            final(self)@ == spec_finish_request(old(self)@),
            old(self)@.tx_length != 0 ==> *final(self) == *old(self),
    {
        if self.tx_buffer.length == 0 {
            self.tx_buffer.length = 1;
            self.tx_buffer.inner[0] = 0x00;
        }
    }
}

} // verus!

verus! {

impl Twi {
    /// The body of the two-wire interrupt: classifies the status byte the
    /// hardware reported for this bus event and performs exactly the
    /// transition [`spec_step`] gives for it.  Returns which peripheral-role
    /// callback, if any, the caller must dispatch; after dispatching a
    /// [`Notify::Request`], the caller must call [`Twi::finish_request`].
    ///
    /// Unrecognized status codes change nothing.  Any event that concludes
    /// a transaction (acknowledged completion, NACK, arbitration loss or bus
    /// error) leaves the driver in `Ready`, so another transaction may begin
    /// immediately.
    pub fn handle_event(&mut self, status: u8) -> (r: Option<Notify>)
        requires
            old(self).wf(),
        ensures
            final(self).wf(),
            final(self)@ == spec_step(old(self)@, status).0,
            r == spec_step(old(self)@, status).1,
    {
        let flag = match Flags::from_flag(status) {
            Some(f) => f,
            None => {
                return None;
            },
        };
        self.events_handled = bump(self.events_handled);
        self.dispatch(flag)
    }

    /// Performs the transition for one classified flag; the exhaustive match
    /// of the historical handler, with each fallthrough group as one arm.
    #[verifier::rlimit(100)]
    #[verifier::spinoff_prover]
    fn dispatch(&mut self, flag: Flags) -> (r: Option<Notify>)
        requires
            old(self).wf(),
        ensures
            final(self).wf(),
            final(self)@ == spec_dispatch(old(self)@, flag).0,
            r == spec_dispatch(old(self)@, flag).1,
    {
        match flag {
            // A START or repeated START went out: write the address +
            // direction byte and continue.
            Flags::TW_START | Flags::TW_REP_START => {
                self.twdr = self.slarw;
                self.twi_reply(true);
                None
            },
            // Controller transmitter: address or data acknowledged.
            Flags::TW_CT_SLA_ACK | Flags::TW_CT_DATA_ACK => {
                // If there is data to send, send it; otherwise conclude.
                if self.master_buffer.index < self.master_buffer.length {
                    let i = self.master_buffer.index;
                    self.twdr = self.master_buffer.inner[i];
                    self.master_buffer.index = i + 1;
                    self.twi_reply(true);
                } else if self.send_stop {
                    self.twi_stop();
                } else {
                    self.conclude_with_rep_start();
                }
                None
            },
            // Address sent, NACK received.
            Flags::TW_CT_SLA_NACK => {
                self.error = 0x20;
                self.twi_stop();
                None
            },
            // Data sent, NACK received.
            Flags::TW_CT_DATA_NACK => {
                self.error = 0x30;
                self.twi_stop();
                None
            },
            // Lost bus arbitration: record and release without a STOP.
            Flags::TW_CT_CR_ARB_LOST => {
                self.error = 0x38;
                self.twi_release_bus();
                None
            },
            // Controller receiver, address acknowledged: the latched
            // ACK/NACK for a byte goes out while its successor is clocked
            // in, so NACK must already be armed when one byte remains.
            Flags::TW_CR_SLA_ACK => {
                let more = self.master_buffer.index < self.master_buffer.length;
                self.twi_reply(more);
                None
            },
            // Controller receiver, byte received and ACK returned.
            Flags::TW_CR_DATA_ACK => {
                if self.master_buffer.index < TWI_BUFFER_LENGTH {
                    let i = self.master_buffer.index;
                    self.master_buffer.inner[i] = self.twdr;
                    self.master_buffer.index = i + 1;
                }
                let more = self.master_buffer.index < self.master_buffer.length;
                self.twi_reply(more);
                None
            },
            // Controller receiver, final byte received with our NACK:
            // store it, then STOP or repeated START exactly as when
            // transmitting.
            Flags::TW_CR_DATA_NACK => {
                if self.master_buffer.index < TWI_BUFFER_LENGTH {
                    let i = self.master_buffer.index;
                    self.master_buffer.inner[i] = self.twdr;
                    self.master_buffer.index = i + 1;
                }
                if self.send_stop {
                    self.twi_stop();
                } else {
                    self.conclude_with_rep_start();
                }
                None
            },
            // Address sent, NACK received while reading.
            Flags::TW_CR_SLA_NACK => {
                self.twi_stop();
                None
            },
            // Addressed as peripheral for a write (general-call and
            // arbitration-lost variants included): enter peripheral
            // receive, make the receive buffer writable and ACK.
            Flags::TW_PR_SLA_ACK
            | Flags::TW_PR_GCALL_ACK
            | Flags::TW_PR_ARB_LOST_SLA_ACK
            | Flags::TW_PR_ARB_LOST_GCALL_ACK => {
                self.state = BusState::PeripheralReceiving;
                self.rx_buffer.reset();
                self.twi_reply(true);
                None
            },
            // Data received as peripheral: store and ACK while there is
            // room, else NACK.
            Flags::TW_PR_DATA_ACK | Flags::TW_PR_GCALL_DATA_ACK => {
                if self.rx_buffer.index < TWI_BUFFER_LENGTH {
                    let i = self.rx_buffer.index;
                    self.rx_buffer.inner[i] = self.twdr;
                    self.rx_buffer.index = i + 1;
                    self.twi_reply(true);
                } else {
                    self.twi_reply(false);
                }
                None
            },
            // Stop or repeated start received while selected: release the
            // bus, null-terminate the data for convenience, hand the count
            // to the "data received" callback and reset the buffer.
            Flags::TW_PR_STOP => {
                self.twi_release_bus();
                let count = self.rx_buffer.index;
                if count < TWI_BUFFER_LENGTH {
                    self.rx_buffer.inner[count] = 0x00;
                }
                self.rx_buffer.index = 0;
                Some(Notify::Receive(count))
            },
            // Data received with NACK returned: nothing to store.
            Flags::TW_PR_DATA_NACK | Flags::TW_PR_GCALL_DATA_NACK => {
                self.twi_reply(false);
                None
            },
            // Addressed as peripheral for a read (arbitration-lost variant
            // included): enter peripheral transmit, clear the transmit
            // buffer and ask the caller to have it filled.
            Flags::TW_PT_SLA_ACK | Flags::TW_PT_ARB_LOST_SLA_ACK => {
                self.state = BusState::PeripheralTransmitting;
                self.tx_buffer.reset();
                Some(Notify::Request)
            },
            // Byte acknowledged as peripheral transmitter: send the next
            // buffered byte, ACK if more remain else NACK.
            Flags::TW_PT_DATA_ACK => {
                if self.tx_buffer.index < self.tx_buffer.length {
                    let i = self.tx_buffer.index;
                    self.twdr = self.tx_buffer.inner[i];
                    self.tx_buffer.index = i + 1;
                }
                let more = self.tx_buffer.index < self.tx_buffer.length;
                self.twi_reply(more);
                None
            },
            // NACK after the last byte, or ACK after the declared last
            // byte: re-arm ACK for future addressing, return to `Ready`.
            Flags::TW_PT_DATA_NACK | Flags::TW_PT_LAST_DATA => {
                self.twi_reply(true);
                self.state = BusState::Ready;
                None
            },
            // Illegal start or stop sequencing: record and force a STOP.
            Flags::TW_BUS_ERROR => {
                self.error = 0x00;
                self.twi_stop();
                None
            },
            // No state information: nothing to do.
            Flags::TW_NO_INFO => None,
        }
    }
}

} // verus!

verus! {

use crate::bus::{spec_poll, Bus, BusModel, Phase};

/// Model of [`Twi::finish_request`]: an empty transmit buffer defaults to a
/// single zero byte.
pub open spec fn spec_finish_request(t: TwiModel) -> TwiModel {
    if t.tx_length == 0 {
        TwiModel { tx_length: 1, tx: t.tx.update(0, 0u8), ..t }
    } else {
        t
    }
}

/// One spin of a foreground busy-wait, for the whole system: the bus is
/// polled once, and if an event is pending the hardware loads the data
/// register and the interrupt handler runs on it.  A "data requested"
/// dispatch has no registered callback at this level, so only the default
/// single-zero fill applies.
pub open spec fn spec_tick(t: TwiModel, b: BusModel) -> (TwiModel, BusModel) {
    let (b2, ev) = spec_poll(b, t);
    match ev {
        Option::None => (t, b2),
        Option::Some(e) => {
            let t1 = TwiModel { twdr: e.data, ..t };
            let stepped = spec_step(t1, e.status);
            let t2 = if stepped.1 == Some(Notify::Request) {
                spec_finish_request(stepped.0)
            } else {
                stepped.0
            };
            (t2, b2)
        },
    }
}

/// Nothing is in flight and no command is pending: the driver is ready, no
/// repeated START is latched, the bus wires are idle, the bus has accounted
/// for every START and STOP the driver ever issued, and timeout checking is
/// off (the historical default).
pub open spec fn quiescent(t: TwiModel, b: BusModel) -> bool {
    &&& t.state == BusState::Ready
    &&& !t.in_rep_start
    &&& b.phase == Phase::Idle
    &&& b.seen_starts == t.starts_sent
    &&& b.seen_stops == t.stops_sent
}

/// A repeated START is latched: the previous transaction concluded without
/// a STOP, the hardware owns a pending START whose event fires as soon as
/// the next transaction re-enables the interrupt, and the driver is ready.
pub open spec fn rep_pending(t: TwiModel, b: BusModel) -> bool {
    &&& t.state == BusState::Ready
    &&& t.in_rep_start
    &&& t.twcr == TWCR_REP_START
    &&& b.seen_starts != t.starts_sent
    &&& b.seen_stops == t.stops_sent
}

impl Twi {
    /// One spin of a foreground busy-wait: polls the bus once and, if an
    /// event is pending, lets the hardware load the data register and runs
    /// the interrupt handler on the event.  There is no registered "data
    /// requested" callback at this level, so such a dispatch gets only the
    /// default fill of [`Twi::finish_request`].
    fn step_bus(&mut self, bus: &mut Bus)
        requires
            old(self).wf(),
        ensures
            final(self).wf(),
            (final(self)@, final(bus)@) == spec_tick(old(self)@, old(bus)@),
    {
        let ev = bus.poll(&*self);
        if let Some(e) = ev {
            self.twdr = e.data;
            let notify = self.handle_event(e.status);
            if let Some(Notify::Request) = notify {
                self.finish_request();
            }
        }
    }

    /// The recurring foreground pattern: busy-wait until the driver is
    /// ready or the configured timeout expires, triggering recovery on
    /// expiry.  Returns whether the driver became ready.
    ///
    /// One poll of the bus stands for one spin; a pending transaction keeps
    /// being driven by the events the polls deliver.  A spin budget bounds
    /// the wait even with timeout checking disabled: a wedged bus exhausts
    /// it only after 2^64 spins, a horizon the original's unbounded
    /// busy-wait never reaches either.
    #[verifier::rlimit(100)]
    #[verifier::spinoff_prover]
    fn wait_until_ready(&mut self, bus: &mut Bus) -> (r: bool)
        requires
            old(self).wf(),
        ensures
            final(self).wf(),
            r ==> final(self).state == BusState::Ready,
            !r ==> final(self).timed_out_flag,
            old(self).state == BusState::Ready ==> r,
            final(self).timeout_us == old(self).timeout_us,
            final(bus).peripheral@ == old(bus).peripheral@,
            final(bus).step_us == old(bus).step_us,
            final(bus).now_us >= old(bus).now_us,
            old(self).state == BusState::Ready ==> *final(self) == *old(self) && *final(bus)
                == *old(bus),
            old(self).timeout_us > 0 ==> final(bus).now_us <= old(bus).now_us + old(
                self,
            ).timeout_us + old(bus).step_us,
    {
        let start_us = bus.micros();
        let mut spins: u64 = u64::MAX;
        while self.state != BusState::Ready
            invariant
                self.wf(),
                self.timeout_us == old(self).timeout_us,
                self.do_reset_on_timeout == old(self).do_reset_on_timeout,
                bus.peripheral@ == old(bus).peripheral@,
                bus.step_us == old(bus).step_us,
                start_us == old(bus).now_us,
                bus.now_us >= start_us,
                self.timeout_us > 0 ==> bus.now_us <= start_us + self.timeout_us + bus.step_us,
                old(self).state == BusState::Ready ==> *self == *old(self) && *bus == *old(bus),
            decreases spins,
        {
            if spins == 0 || (self.timeout_us > 0 && bus.micros() - start_us > self.timeout_us
                as u64) {
                self.twi_handle_timeout(self.do_reset_on_timeout);
                return false;
            }
            spins = spins - 1;
            self.step_bus(bus);
        }
        true
    }
}

} // verus!

verus! {

use crate::bus::{sat_add, PeripheralModel};

/// Whether the addressed peripheral acknowledges the given SLA+R/W byte.
pub open spec fn sla_hit(p: PeripheralModel, slarw: u8) -> bool {
    p.ack_address && p.address == slarw >> 1
}

/// Whether the peripheral is configured to NACK one of the first `length`
/// written data bytes.
pub open spec fn nack_within(p: PeripheralModel, length: int) -> bool {
    match p.nack_data_at {
        Some(k) => (k as int) < length,
        None => false,
    }
}

/// The controller-transmit transaction is in flight: the driver is the
/// controller transmitter with no error yet, and the bus stands at one of
/// the three places a write can stand — START pending, address byte on the
/// wires, or data byte `b.n` on the wires.  `t0` and `b0` are the driver
/// and bus as the transaction was started.
pub open spec fn write_inflight(t: TwiModel, b: BusModel, t0: TwiModel, b0: BusModel) -> bool {
    let p = b0.peripheral;
    let len = t0.master_length;
    &&& t.state == BusState::ControllerTransmitting
    &&& t.error == TW_NO_ERROR
    &&& !t.in_rep_start
    &&& t.slarw == t0.slarw
    &&& t.slarw & 1 == 0
    &&& t.send_stop == t0.send_stop
    &&& t.timeout_us == t0.timeout_us
    &&& t.master_length == len
    &&& t.master == t0.master
    &&& t.master_index <= len
    &&& t.stops_sent == t0.stops_sent
    &&& b.peripheral == p
    &&& b.step_us == b0.step_us
    &&& b.seen_stops == t.stops_sent
    &&& {
        // The START (or latched repeated START) request is still pending.
        ||| (b.seen_starts != t.starts_sent && (t.twcr == TWCR_START || t.twcr == TWCR_CONTINUE)
            && t.master_index == 0 && b.received == b0.received)
        // The address byte is on the wires.
        ||| (b.seen_starts == t.starts_sent && b.phase == Phase::Started && t.twdr == t0.slarw
            && t.twcr == TWCR_REPLY_ACK && t.master_index == 0 && b.received == b0.received)
        // Data byte `b.n` is on the wires.
        ||| (b.seen_starts == t.starts_sent && b.phase == Phase::Addressed && !b.dir_read
            && p.responsive && !p.lose_arbitration && sla_hit(p, t0.slarw) && (b.n as int) < len
            && t.master_index == b.n + 1 && t.twdr == t0.master[b.n as int] && t.twcr
            == TWCR_REPLY_ACK && b.received == b0.received + t0.master.subrange(0, b.n as int) && (
            match p.nack_data_at {
                Some(k) => k >= b.n,
                None => true,
            }))
    }
}

/// The controller-transmit transaction has concluded, and how it went is a
/// function of the peripheral's configuration alone: arbitration loss,
/// address NACK, a data NACK at the configured byte, or full success —
/// ending with a STOP or with a latched repeated START as requested.
pub open spec fn write_done(
    p: PeripheralModel,
    slarw: u8,
    sent: Seq<u8>,
    send_stop: bool,
    stops0: u64,
    received0: Seq<u8>,
    t1: TwiModel,
    b1: BusModel,
) -> bool {
    &&& t1.state == BusState::Ready
    &&& b1.peripheral == p
    &&& if p.lose_arbitration {
        t1.error == 0x38 && t1.stops_sent == stops0 && b1.received == received0
            && !t1.in_rep_start
    } else if !sla_hit(p, slarw) {
        t1.error == 0x20 && t1.stops_sent == wrap1(stops0) && b1.received == received0
            && !t1.in_rep_start
    } else if nack_within(p, sent.len() as int) {
        t1.error == 0x30 && t1.stops_sent == wrap1(stops0) && b1.received == received0
            + sent.subrange(0, p.nack_data_at.unwrap() + 1) && !t1.in_rep_start
    } else {
        t1.error == TW_NO_ERROR && b1.received == received0 + sent && (send_stop
            ==> t1.stops_sent == wrap1(stops0) && !t1.in_rep_start) && (!send_stop
            ==> t1.stops_sent == stops0 && rep_pending(t1, b1))
    }
}

/// How many more bus events a controller-write transaction can take before
/// it concludes; strictly falls with every poll of a responsive peripheral.
pub open spec fn ctrl_rank(t: TwiModel, b: BusModel) -> int {
    if t.state != BusState::ControllerTransmitting && t.state != BusState::ControllerReceiving {
        0
    } else if b.seen_starts != t.starts_sent {
        t.master_length + 3
    } else if b.phase == Phase::Started {
        t.master_length + 2
    } else {
        t.master_length + 1 - b.n
    }
}

/// The entry condition under which a controller call is proved out in
/// full: the driver and bus are quiescent, or a repeated START is latched
/// from the previous transaction; and the peripheral answers the bus (an
/// unresponsive one can only end in a timeout).
pub open spec fn strong_pre(t: TwiModel, b: BusModel) -> bool {
    (quiescent(t, b) || rep_pending(t, b)) && b.peripheral.responsive && t.timeout_us == 0
}

/// The error-slot-to-result translation of a controller write.
pub open spec fn spec_write_result(error: u8) -> Result<(), WriteError> {
    if error == TW_NO_ERROR {
        Ok(())
    } else if error == 0x20 {
        Err(WriteError::SlaNack)
    } else if error == 0x30 {
        Err(WriteError::DataNack)
    } else {
        Err(WriteError::Other)
    }
}

/// Classification is the exact inverse of the status codes: every named
/// flag's code decodes back to that flag.
pub proof fn lemma_codes_decode()
    ensures
        forall|f: Flags| #[trigger] spec_decode(flag_code(f)) == Some(f),
{
    assert(forall|x: u8| x % 8 == 0 ==> #[trigger] (x & 0b1111_1000u8) == x) by (bit_vector);
    assert forall|f: Flags| #[trigger] spec_decode(flag_code(f)) == Some(f) by {
        assert(flag_code(f) % 8 == 0);
        assert(flag_code(f) & TW_STATUS_MASK == flag_code(f));
    }
}

/// The interrupt-enable and acknowledge bits of each control-register
/// value the driver writes.
pub proof fn lemma_twcr_bits()
    ensures
        TWCR_REPLY_ACK & TWCR_TWIE != 0,
        TWCR_REPLY_NACK & TWCR_TWIE != 0,
        TWCR_START & TWCR_TWIE != 0,
        TWCR_CONTINUE & TWCR_TWIE != 0,
        TWCR_STOP & TWCR_TWIE != 0,
        TWCR_REP_START & TWCR_TWIE == 0,
        TWCR_REPLY_ACK & TWCR_TWEA != 0,
        TWCR_REPLY_NACK & TWCR_TWEA == 0,
        TWCR_START & TWCR_TWEA != 0,
{
    assert(0xC5u8 & 0x01u8 != 0 && 0x85u8 & 0x01u8 != 0 && 0xE5u8 & 0x01u8 != 0 && 0xD5u8 & 0x01u8
        != 0 && 0xA4u8 & 0x01u8 == 0 && 0xC5u8 & 0x40u8 != 0 && 0x85u8 & 0x40u8 == 0 && 0xE5u8
        & 0x40u8 != 0) by (bit_vector);
}

/// With an unresponsive peripheral a controller transaction never
/// concludes: no event past the START ever fires, so the driver state and
/// the STOP accounting stand still and only a timeout frees the caller.
pub proof fn lemma_tick_unresponsive(t: TwiModel, b: BusModel)
    requires
        !b.peripheral.responsive,
        b.seen_stops == t.stops_sent,
        t.state == BusState::ControllerReceiving || t.state
            == BusState::ControllerTransmitting,
    ensures
        ({
            let (t2, b2) = spec_tick(t, b);
            &&& t2.state == t.state
            &&& t2.stops_sent == t.stops_sent
            &&& b2.seen_stops == b.seen_stops
            &&& b2.peripheral == b.peripheral
        }),
{
    lemma_codes_decode();
}

/// One system step preserves the controller-write invariant: from any
/// in-flight stand the transaction either stays in flight one rank lower,
/// or concludes with the outcome the peripheral's configuration dictates.
pub proof fn lemma_write_tick(t: TwiModel, b: BusModel, t0: TwiModel, b0: BusModel)
    requires
        0 <= t0.master_length <= TWI_BUFFER_LENGTH,
        t0.master.len() == TWI_BUFFER_LENGTH,
        write_inflight(t, b, t0, b0),
    ensures
        ({
            let (t2, b2) = spec_tick(t, b);
            &&& write_inflight(t2, b2, t0, b0) || write_done(
                b0.peripheral,
                t0.slarw,
                t0.master.subrange(0, t0.master_length),
                t0.send_stop,
                t0.stops_sent,
                b0.received,
                t2,
                b2,
            )
            &&& b0.peripheral.responsive ==> ctrl_rank(t2, b2) < ctrl_rank(t, b)
            &&& t2.timeout_us == t.timeout_us
            &&& t2.do_reset_on_timeout == t.do_reset_on_timeout
            &&& b2.peripheral == b.peripheral
            &&& b2.step_us == b.step_us
        }),
{
    let p = b0.peripheral;
    let len = t0.master_length;
    let sent = t0.master.subrange(0, len);
    let (t2, b2) = spec_tick(t, b);
    lemma_twcr_bits();
    lemma_codes_decode();
    if b.seen_starts != t.starts_sent {
        // The pending START goes out; the handler sends the address byte.
        assert(write_inflight(t2, b2, t0, b0));
    } else if b.phase == Phase::Started {
        if !p.responsive {
            assert(write_inflight(t2, b2, t0, b0));
        } else if p.lose_arbitration {
            assert(write_done(p, t0.slarw, sent, t0.send_stop, t0.stops_sent, b0.received, t2, b2));
        } else if sla_hit(p, t0.slarw) && len > 0 {
            assert(b2.received =~= b0.received + t0.master.subrange(0, 0));
            assert(write_inflight(t2, b2, t0, b0));
        } else if sla_hit(p, t0.slarw) {
            assert(sent =~= Seq::<u8>::empty());
            assert(b2.received =~= b0.received + sent);
            assert(write_done(p, t0.slarw, sent, t0.send_stop, t0.stops_sent, b0.received, t2, b2));
        } else {
            assert(write_done(p, t0.slarw, sent, t0.send_stop, t0.stops_sent, b0.received, t2, b2));
        }
    } else {
        let n = b.n as int;
        assert(b2.received =~= b0.received + t0.master.subrange(0, n + 1));
        if p.nack_data_at == Some(b.n) {
            assert(sent.subrange(0, n + 1) =~= t0.master.subrange(0, n + 1));
            assert(write_done(p, t0.slarw, sent, t0.send_stop, t0.stops_sent, b0.received, t2, b2));
        } else {
            if n + 1 == len {
                assert(sent =~= t0.master.subrange(0, n + 1));
                assert(write_done(p, t0.slarw, sent, t0.send_stop, t0.stops_sent, b0.received, t2, b2));
            } else {
                assert(write_inflight(t2, b2, t0, b0));
            }
        }
    }
}

} // verus!

verus! {

impl Twi {
    /// Attempts to become bus controller and write `length` bytes of `data`
    /// to the peripheral at the given 7-bit address.
    ///
    /// Rejects over-long data with no bus activity at all.  Otherwise
    /// busy-waits for `Ready` (honouring the configured timeout), stages the
    /// data, issues a START — or continues a pending repeated START — and,
    /// only if `wait` is set, busy-waits for completion before translating
    /// the sticky error slot into the result.  From a quiescent or
    /// repeated-START stand with a responsive peripheral, the outcome is
    /// exactly what [`write_done`] gives for the peripheral's configuration.
    #[verifier::rlimit(100)]
    #[verifier::spinoff_prover]
    pub fn write_to(
        &mut self,
        bus: &mut Bus,
        address: u8,
        data: ByteBuffer,
        length: usize,
        wait: bool,
        send_stop: bool,
    ) -> (r: Result<(), WriteError>)
        requires
            old(self).wf(),
        ensures
            final(self).wf(),
            final(self).timeout_us == old(self).timeout_us,
            length > TWI_BUFFER_LENGTH ==> r == Err::<(), WriteError>(WriteError::TooLarge)
                && *final(self) == *old(self) && *final(bus) == *old(bus),
            r == Err::<(), WriteError>(WriteError::Timeout) ==> final(self).timed_out_flag,
            length <= TWI_BUFFER_LENGTH && r != Err::<(), WriteError>(WriteError::Timeout) ==> r
                == spec_write_result(final(self).error),
            length <= TWI_BUFFER_LENGTH && wait && strong_pre(old(self)@, old(bus)@)
                ==> write_done(
                old(bus)@.peripheral,
                (TW_WRITE | (address << 1)) as u8,
                data.inner@.subrange(0, length as int),
                send_stop,
                old(self).stops_sent,
                old(bus)@.received,
                final(self)@,
                final(bus)@,
            ) && final(self).timeout_us == 0 && r != Err::<(), WriteError>(WriteError::Timeout)
                && r == spec_write_result(final(self).error),
            length <= TWI_BUFFER_LENGTH && wait && (quiescent(old(self)@, old(bus)@)
                || rep_pending(old(self)@, old(bus)@)) && !old(bus)@.peripheral.responsive ==> r
                == Err::<(), WriteError>(WriteError::Timeout),
            old(self).state == BusState::Ready && old(self).timeout_us > 0 && r == Err::<
                (),
                WriteError,
            >(WriteError::Timeout) ==> final(bus).now_us <= old(bus).now_us + old(self).timeout_us
                + old(bus).step_us,
    {
        // Ensure the data will fit into the buffer.
        if length > TWI_BUFFER_LENGTH {
            return Err(WriteError::TooLarge);
        }
        // Wait until the driver is ready, then become controller
        // transmitter.
        if !self.wait_until_ready(bus) {
            return Err(WriteError::Timeout);
        }
        self.state = BusState::ControllerTransmitting;
        self.send_stop = send_stop;
        // Reset the sticky error slot: no error has occurred yet.
        self.error = TW_NO_ERROR;
        // Stage the data into the controller buffer.
        self.master_buffer.index = 0;
        self.master_buffer.length = length;
        let ghost pre_copy = *self;
        let mut i: usize = 0;
        while i < length
            invariant
                i <= length <= TWI_BUFFER_LENGTH,
                forall|j: int|
                    0 <= j < i ==> self.master_buffer.inner@[j] == data.inner@[j],
                *self == (Twi { master_buffer: self.master_buffer, ..pre_copy }),
                self.master_buffer == (ByteBuffer {
                    inner: self.master_buffer.inner,
                    ..pre_copy.master_buffer
                }),
            decreases length - i,
        {
            self.master_buffer.inner[i] = data.inner[i];
            i = i + 1;
        }
        // Build SLA+W: the peripheral address with the write bit.
        self.slarw = TW_WRITE | (address << 1);
        proof {
            assert(forall|a: u8| ((0u8 | (a << 1)) & 1) == 0) by (bit_vector);
        }
        // If a repeated START is latched, the START is already on the
        // wires: hand the hardware the address byte and re-enable the
        // interrupt without requesting a new START.  Otherwise request one.
        if self.in_rep_start {
            self.in_rep_start = false;
            self.twdr = self.slarw;
            self.twcr = TWCR_CONTINUE;
        } else {
            self.twcr = TWCR_START;
            self.starts_sent = bump(self.starts_sent);
        }
        let ghost t_entry = self@;
        let ghost b_entry = bus@;
        let ghost strong = strong_pre(old(self)@, old(bus)@) && wait;
        let ghost silent = (quiescent(old(self)@, old(bus)@) || rep_pending(old(self)@, old(bus)@))
            && !old(bus)@.peripheral.responsive && wait;
        proof {
            assert(t_entry.master.subrange(0, length as int) =~= data.inner@.subrange(
                0,
                length as int,
            ));
            if strong {
                assert(write_inflight(self@, bus@, t_entry, b_entry));
            }
        }
        let start_us = bus.micros();
        let mut spins: u64 = u64::MAX;
        // Wait for the write operation to complete.
        while wait && self.state == BusState::ControllerTransmitting
            invariant
                self.wf(),
                length <= TWI_BUFFER_LENGTH,
                strong == (strong_pre(old(self)@, old(bus)@) && wait),
                silent == ((quiescent(old(self)@, old(bus)@) || rep_pending(old(self)@, old(bus)@))
                    && !old(bus)@.peripheral.responsive && wait),
                bus.peripheral@ == old(bus)@.peripheral,
                silent ==> self.state == BusState::ControllerTransmitting && bus.seen_stops
                    == self.stops_sent,
                t_entry.timeout_us == old(self).timeout_us,
                b_entry.step_us == old(bus).step_us,
                old(self).state == BusState::Ready ==> start_us == old(bus).now_us,
                strong ==> t_entry.slarw == (TW_WRITE | (address << 1)) as u8
                    && t_entry.master.subrange(0, length as int) == data.inner@.subrange(
                    0,
                    length as int,
                ) && t_entry.stops_sent == old(self).stops_sent && t_entry.send_stop == send_stop
                    && b_entry.received == old(bus)@.received && b_entry.peripheral == old(
                    bus,
                )@.peripheral,
                self.timeout_us == t_entry.timeout_us,
                self.do_reset_on_timeout == t_entry.do_reset_on_timeout,
                bus.step_us == b_entry.step_us,
                bus.now_us >= start_us,
                self.timeout_us > 0 ==> bus.now_us <= start_us + self.timeout_us + bus.step_us,
                t_entry.master_length == length,
                t_entry.master.len() == TWI_BUFFER_LENGTH,
                strong ==> self.timeout_us == 0,
                strong ==> write_inflight(self@, bus@, t_entry, b_entry) || (wait && self@.state
                    != BusState::ControllerTransmitting && write_done(
                    b_entry.peripheral,
                    t_entry.slarw,
                    t_entry.master.subrange(0, length as int),
                    t_entry.send_stop,
                    t_entry.stops_sent,
                    b_entry.received,
                    self@,
                    bus@,
                )),
                strong ==> spins >= u64::MAX - (length + 3) + ctrl_rank(self@, bus@),
            decreases spins,
        {
            if spins == 0 || (self.timeout_us > 0 && bus.micros() - start_us > self.timeout_us
                as u64) {
                self.twi_handle_timeout(self.do_reset_on_timeout);
                return Err(WriteError::Timeout);
            }
            spins = spins - 1;
            proof {
                lemma_tick_controller_state(self@, bus@);
                if strong {
                    lemma_write_tick(self@, bus@, t_entry, b_entry);
                }
                if silent {
                    lemma_tick_unresponsive(self@, bus@);
                }
            }
            self.step_bus(bus);
        }
        // Translate the sticky error slot into the result.
        let err = self.error;
        if err == TW_NO_ERROR {
            Ok(())
        } else if err == 0x20 {
            // Address sent, NACK received.
            Err(WriteError::SlaNack)
        } else if err == 0x30 {
            // Data sent, NACK received.
            Err(WriteError::DataNack)
        } else {
            Err(WriteError::Other)
        }
    }
}

} // verus!

verus! {

/// The byte a read delivers at position `j`: the peripheral's data, or the
/// idle-line 0xFF past its end.
pub open spec fn read_byte_of(data: Seq<u8>, j: int) -> u8 {
    if 0 <= j < data.len() {
        data[j]
    } else {
        0xFF
    }
}

/// The controller-receive transaction is in flight.  `want` bytes are to be
/// read; the staged master length is `want - 1`, because the ACK/NACK reply
/// for a byte is latched while its successor is clocked in, so the NACK
/// must be armed when exactly one byte remains.
pub open spec fn read_inflight(t: TwiModel, b: BusModel, t0: TwiModel, b0: BusModel) -> bool {
    let p = b0.peripheral;
    let want = t0.master_length + 1;
    &&& t.state == BusState::ControllerReceiving
    &&& t.error == TW_NO_ERROR
    &&& !t.in_rep_start
    &&& t.slarw == t0.slarw
    &&& t.slarw & 1 == 1
    &&& t.send_stop == t0.send_stop
    &&& t.timeout_us == t0.timeout_us
    &&& t.master_length == t0.master_length
    &&& t.master.len() == TWI_BUFFER_LENGTH
    &&& t.stops_sent == t0.stops_sent
    &&& b.peripheral == p
    &&& b.step_us == b0.step_us
    &&& b.received == b0.received
    &&& b.seen_stops == t.stops_sent
    &&& {
        // The START (or latched repeated START) request is still pending.
        ||| (b.seen_starts != t.starts_sent && (t.twcr == TWCR_START || t.twcr == TWCR_CONTINUE)
            && t.master_index == 0 && t.master == t0.master)
        // The address byte is on the wires.
        ||| (b.seen_starts == t.starts_sent && b.phase == Phase::Started && t.twdr == t0.slarw
            && t.twcr == TWCR_REPLY_ACK && t.master_index == 0 && t.master == t0.master)
        // Byte `b.n` is being clocked in, with the reply for it already
        // armed: ACK while more than one byte remains, NACK for the last.
        ||| (b.seen_starts == t.starts_sent && b.phase == Phase::Addressed && b.dir_read
            && p.responsive && !p.lose_arbitration && sla_hit(p, t0.slarw) && (b.n as int) < want
            && t.master_index == b.n as int && (t.twcr == if (b.n as int) < want - 1 {
            TWCR_REPLY_ACK
        } else {
            TWCR_REPLY_NACK
        }) && (forall|j: int|
            0 <= j < b.n as int ==> t.master[j] == read_byte_of(p.read_data, j)) && (forall|
            j: int,
        |
            b.n as int <= j < TWI_BUFFER_LENGTH ==> t.master[j] == t0.master[j]))
    }
}

/// The controller-receive transaction has concluded: arbitration loss,
/// address NACK (which records no error), or all `want` bytes stored —
/// ending with a STOP or a latched repeated START as requested.
pub open spec fn read_done(
    p: PeripheralModel,
    slarw: u8,
    want: int,
    send_stop: bool,
    stops0: u64,
    received0: Seq<u8>,
    t1: TwiModel,
    b1: BusModel,
) -> bool {
    &&& t1.state == BusState::Ready
    &&& b1.peripheral == p
    &&& b1.received == received0
    &&& if p.lose_arbitration {
        t1.error == 0x38 && t1.stops_sent == stops0 && !t1.in_rep_start && t1.master_index == 0
    } else if !sla_hit(p, slarw) {
        t1.error == TW_NO_ERROR && t1.stops_sent == wrap1(stops0) && !t1.in_rep_start
            && t1.master_index == 0
    } else {
        t1.error == TW_NO_ERROR && t1.master_index == want && (forall|j: int|
            0 <= j < want ==> t1.master[j] == read_byte_of(p.read_data, j)) && (send_stop
            ==> t1.stops_sent == wrap1(stops0) && !t1.in_rep_start) && (!send_stop
            ==> t1.stops_sent == stops0 && rep_pending(t1, b1))
    }
}

/// Every event a controller-mode poll can deliver either keeps the driver
/// state or concludes to `Ready`.
pub proof fn lemma_tick_controller_state(t: TwiModel, b: BusModel)
    ensures
        ({
            let (t2, b2) = spec_tick(t, b);
            &&& t2.state == t.state || t2.state == BusState::Ready
            &&& t2.timeout_us == t.timeout_us
            &&& t2.do_reset_on_timeout == t.do_reset_on_timeout
            &&& b2.step_us == b.step_us
            &&& b2.peripheral == b.peripheral
        }),
{
    lemma_codes_decode();
}

/// One system step preserves the controller-read invariant: the
/// transaction stays in flight one rank lower, or concludes with the
/// outcome the peripheral's configuration dictates.
pub proof fn lemma_read_tick(t: TwiModel, b: BusModel, t0: TwiModel, b0: BusModel)
    requires
        0 <= t0.master_length < TWI_BUFFER_LENGTH,
        t0.master.len() == TWI_BUFFER_LENGTH,
        read_inflight(t, b, t0, b0),
    ensures
        ({
            let (t2, b2) = spec_tick(t, b);
            &&& read_inflight(t2, b2, t0, b0) || read_done(
                b0.peripheral,
                t0.slarw,
                t0.master_length + 1,
                t0.send_stop,
                t0.stops_sent,
                b0.received,
                t2,
                b2,
            )
            &&& b0.peripheral.responsive ==> ctrl_rank(t2, b2) < ctrl_rank(t, b)
        }),
{
    let p = b0.peripheral;
    let want = t0.master_length + 1;
    let (t2, b2) = spec_tick(t, b);
    lemma_twcr_bits();
    lemma_codes_decode();
    if b.seen_starts != t.starts_sent {
        assert(read_inflight(t2, b2, t0, b0));
    } else if b.phase == Phase::Started {
        if !p.responsive {
            assert(read_inflight(t2, b2, t0, b0));
        } else if p.lose_arbitration {
            assert(read_done(p, t0.slarw, want, t0.send_stop, t0.stops_sent, b0.received, t2, b2));
        } else if sla_hit(p, t0.slarw) {
            assert(read_inflight(t2, b2, t0, b0));
        } else {
            assert(read_done(p, t0.slarw, want, t0.send_stop, t0.stops_sent, b0.received, t2, b2));
        }
    } else {
        let n = b.n as int;
        assert(t2.master == t.master.update(n, read_byte_of(p.read_data, n)));
        assert forall|j: int| 0 <= j < n + 1 implies t2.master[j] == read_byte_of(
            p.read_data,
            j,
        ) by {
            if j < n {
                assert(t.master[j] == read_byte_of(p.read_data, j));
            }
        }
        assert forall|j: int| n + 1 <= j < TWI_BUFFER_LENGTH implies t2.master[j]
            == t0.master[j] by {
            assert(t.master[j] == t0.master[j]);
        }
        if n < want - 1 {
            assert(read_inflight(t2, b2, t0, b0));
        } else {
            assert(read_done(p, t0.slarw, want, t0.send_stop, t0.stops_sent, b0.received, t2, b2));
        }
    }
}

} // verus!

verus! {

impl Twi {
    /// Attempts to become bus controller and read `length` bytes (between 1
    /// and the buffer capacity) from the peripheral at the given 7-bit
    /// address.
    ///
    /// Rejects over-long requests with no bus activity at all.  Otherwise
    /// busy-waits for `Ready` (honouring the configured timeout), issues a
    /// START — or continues a pending repeated START — busy-waits for
    /// completion, and returns a buffer holding exactly `length` bytes.
    /// The reply for each byte is armed while its successor is clocked in,
    /// so the NACK for the final byte is latched when one byte remains.
    /// From a quiescent or repeated-START stand with a responsive
    /// peripheral, the outcome is exactly what [`read_done`] gives.
    #[verifier::rlimit(100)]
    #[verifier::spinoff_prover]
    pub fn read_from(&mut self, bus: &mut Bus, address: u8, length: usize, send_stop: bool) -> (r:
        Result<ByteBuffer, ReadError>)
        requires
            old(self).wf(),
            1 <= length,
        ensures
            final(self).wf(),
            final(self).timeout_us == old(self).timeout_us,
            length > TWI_BUFFER_LENGTH ==> r == Err::<ByteBuffer, ReadError>(ReadError::TooLarge)
                && *final(self) == *old(self) && *final(bus) == *old(bus),
            r == Err::<ByteBuffer, ReadError>(ReadError::Timeout) ==> final(self).timed_out_flag,
            (r matches Ok(b) ==> b.length == length && b.index == 0 && final(self).state
                == BusState::Ready && (forall|j: int|
                0 <= j < length ==> b.inner@[j] == final(self)@.master[j])),
            length <= TWI_BUFFER_LENGTH && strong_pre(old(self)@, old(bus)@) ==> (r matches Ok(
                b,
            )) && read_done(
                old(bus)@.peripheral,
                (TW_READ | (address << 1)) as u8,
                length as int,
                send_stop,
                old(self).stops_sent,
                old(bus)@.received,
                final(self)@,
                final(bus)@,
            ) && final(self).timeout_us == 0,
            length <= TWI_BUFFER_LENGTH && (quiescent(old(self)@, old(bus)@) || rep_pending(
                old(self)@,
                old(bus)@,
            )) && !old(bus)@.peripheral.responsive ==> r == Err::<ByteBuffer, ReadError>(
                ReadError::Timeout,
            ),
            old(self).state == BusState::Ready && old(self).timeout_us > 0 && r == Err::<
                ByteBuffer,
                ReadError,
            >(ReadError::Timeout) ==> final(bus).now_us <= old(bus).now_us + old(self).timeout_us
                + old(bus).step_us,
    {
        // Ensure the data will fit into the buffer.
        if length > TWI_BUFFER_LENGTH {
            return Err(ReadError::TooLarge);
        }
        // Wait until the driver is ready, then become controller receiver.
        if !self.wait_until_ready(bus) {
            return Err(ReadError::Timeout);
        }
        self.state = BusState::ControllerReceiving;
        self.send_stop = send_stop;
        // Reset the sticky error slot: no error has occurred yet.
        self.error = TW_NO_ERROR;
        // On receive, the previously armed ACK/NACK goes out while the next
        // byte is clocked in, so the staged length is one less than wanted:
        // the NACK is armed when the next-to-last byte is received, and
        // answers the last.
        self.master_buffer.index = 0;
        self.master_buffer.length = length - 1;
        // Build SLA+R: the peripheral address with the read bit.
        self.slarw = TW_READ | (address << 1);
        proof {
            assert(forall|a: u8| ((1u8 | (a << 1)) & 1) == 1) by (bit_vector);
        }
        // If a repeated START is latched, the START is already on the
        // wires: hand the hardware the address byte and re-enable the
        // interrupt without requesting a new START.  Otherwise request one.
        if self.in_rep_start {
            self.in_rep_start = false;
            self.twdr = self.slarw;
            self.twcr = TWCR_CONTINUE;
        } else {
            self.twcr = TWCR_START;
            self.starts_sent = bump(self.starts_sent);
        }
        let ghost t_entry = self@;
        let ghost b_entry = bus@;
        let ghost strong = strong_pre(old(self)@, old(bus)@);
        let ghost silent = (quiescent(old(self)@, old(bus)@) || rep_pending(old(self)@, old(bus)@))
            && !old(bus)@.peripheral.responsive;
        proof {
            if strong {
                assert(read_inflight(self@, bus@, t_entry, b_entry));
            }
        }
        let start_us = bus.micros();
        let mut spins: u64 = u64::MAX;
        // Wait for the read operation to complete.
        while self.state == BusState::ControllerReceiving
            invariant
                self.wf(),
                1 <= length <= TWI_BUFFER_LENGTH,
                strong == strong_pre(old(self)@, old(bus)@),
                silent == ((quiescent(old(self)@, old(bus)@) || rep_pending(old(self)@, old(bus)@))
                    && !old(bus)@.peripheral.responsive),
                bus.peripheral@ == old(bus)@.peripheral,
                silent ==> self.state == BusState::ControllerReceiving && bus.seen_stops
                    == self.stops_sent,
                t_entry.timeout_us == old(self).timeout_us,
                b_entry.step_us == old(bus).step_us,
                old(self).state == BusState::Ready ==> start_us == old(bus).now_us,
                strong ==> t_entry.slarw == (TW_READ | (address << 1)) as u8 && t_entry.stops_sent
                    == old(self).stops_sent && t_entry.send_stop == send_stop && b_entry.received
                    == old(bus)@.received && b_entry.peripheral == old(bus)@.peripheral,
                self.timeout_us == t_entry.timeout_us,
                self.do_reset_on_timeout == t_entry.do_reset_on_timeout,
                bus.step_us == b_entry.step_us,
                bus.now_us >= start_us,
                self.timeout_us > 0 ==> bus.now_us <= start_us + self.timeout_us + bus.step_us,
                t_entry.master_length == length - 1,
                t_entry.master.len() == TWI_BUFFER_LENGTH,
                self.state == BusState::ControllerReceiving || self.state == BusState::Ready,
                strong ==> self.timeout_us == 0,
                strong ==> read_inflight(self@, bus@, t_entry, b_entry) || (self@.state
                    != BusState::ControllerReceiving && read_done(
                    b_entry.peripheral,
                    t_entry.slarw,
                    length as int,
                    t_entry.send_stop,
                    t_entry.stops_sent,
                    b_entry.received,
                    self@,
                    bus@,
                )),
                strong ==> spins >= u64::MAX - (length + 3) + ctrl_rank(self@, bus@),
            decreases spins,
        {
            if spins == 0 || (self.timeout_us > 0 && bus.micros() - start_us > self.timeout_us
                as u64) {
                self.twi_handle_timeout(self.do_reset_on_timeout);
                return Err(ReadError::Timeout);
            }
            spins = spins - 1;
            proof {
                lemma_tick_controller_state(self@, bus@);
                if strong {
                    lemma_read_tick(self@, bus@, t_entry, b_entry);
                }
                if silent {
                    lemma_tick_unresponsive(self@, bus@);
                }
            }
            self.step_bus(bus);
        }
        // Copy out exactly `length` bytes.
        let mut data = ByteBuffer::new();
        let mut i: usize = 0;
        while i < length
            invariant
                i <= length <= TWI_BUFFER_LENGTH,
                self.wf(),
                data.wf(),
                data.index == 0,
                data.length == 0,
                forall|j: int| 0 <= j < i ==> data.inner@[j] == self@.master[j],
            decreases length - i,
        {
            data.inner[i] = self.master_buffer.inner[i];
            i = i + 1;
        }
        data.length = length;
        Ok(data)
    }
}

} // verus!
