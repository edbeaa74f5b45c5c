//! A model of the two-wire bus hardware with one attached peripheral.
//!
//! The driver in [`crate::twi`] issues its commands as register writes; the
//! bus model reads those registers, tracks the transaction phase the wires
//! are in, and produces the status events the hardware interrupt would carry.
//! A blocking controller call spins by polling the bus once per iteration,
//! so one [`Bus::poll`] stands for one spin of the foreground busy-wait,
//! taking [`Bus::step_us`] microseconds of the modelled monotonic clock.
//!
//! A repeated START that the driver latches with interrupts disabled
//! surfaces as one `TW_REP_START` event as soon as the next transaction
//! re-enables the interrupt, exactly the pending interrupt the hardware
//! would hold.

use vstd::prelude::*;

use crate::twi::{flag_code, BusEvent, Flags, Twi, TwiModel, TWCR_TWEA, TWCR_TWIE};

verus! {

/// Behaviour of the single peripheral attached to the modelled bus.
#[derive(Debug)]
pub struct Peripheral {
    /// The 7-bit address the peripheral answers to.
    pub address: u8,
    /// When false the device wedges the bus: after the START goes out no
    /// further event ever fires, and only a timeout frees the controller.
    pub responsive: bool,
    /// Whether the peripheral acknowledges its address.
    pub ack_address: bool,
    /// When `Some(k)`, the peripheral answers the k-th written data byte
    /// (counted from zero) with NACK instead of ACK.
    pub nack_data_at: Option<usize>,
    /// When true, another controller wins the bus: the address phase ends
    /// with an arbitration-lost event.
    pub lose_arbitration: bool,
    /// The bytes the peripheral supplies when read; a read past the end
    /// yields an idle-line 0xFF.
    pub read_data: Vec<u8>,
}

/// Mathematical model of a [`Peripheral`].
#[verifier::ext_equal]
pub ghost struct PeripheralModel {
    pub address: u8,
    pub responsive: bool,
    pub ack_address: bool,
    pub nack_data_at: Option<usize>,
    pub lose_arbitration: bool,
    pub read_data: Seq<u8>,
}

impl View for Peripheral {
    type V = PeripheralModel;

    open spec fn view(&self) -> PeripheralModel {
        PeripheralModel {
            address: self.address,
            responsive: self.responsive,
            ack_address: self.ack_address,
            nack_data_at: self.nack_data_at,
            lose_arbitration: self.lose_arbitration,
            read_data: self.read_data@,
        }
    }
}

impl Peripheral {
    /// A compliant peripheral at the given address: responsive, always
    /// acknowledging, never contending for the bus.
    pub fn compliant(address: u8, read_data: Vec<u8>) -> (r: Peripheral)
        ensures
            r@ == (PeripheralModel {
                address,
                responsive: true,
                ack_address: true,
                nack_data_at: None::<usize>,
                lose_arbitration: false,
                read_data: read_data@,
            }),
    {
        Peripheral {
            address,
            responsive: true,
            ack_address: true,
            nack_data_at: None,
            lose_arbitration: false,
            read_data,
        }
    }
}

/// Where a transaction on the wires stands.
#[derive(Debug, Clone, Copy, PartialEq, Eq, Structural)]
pub enum Phase {
    /// No transaction in flight.
    Idle,
    /// A START has gone out; the address byte is next.
    Started,
    /// The address phase is over; data bytes are moving.
    Addressed,
}

/// The two-wire bus with one attached peripheral and the monotonic
/// microsecond clock the busy-waits sample.
#[derive(Debug)]
pub struct Bus {
    /// The attached peripheral.
    pub peripheral: Peripheral,
    /// Where the transaction in flight stands.
    pub phase: Phase,
    /// Direction of the transaction in flight: true for a read.
    pub dir_read: bool,
    /// Data bytes moved so far within the transaction in flight.
    pub n: usize,
    /// Every data byte the peripheral has received, across transactions.
    pub received: Vec<u8>,
    /// The monotonic microsecond counter.
    pub now_us: u64,
    /// How many microseconds one poll of the bus takes: the granularity of
    /// the foreground busy-wait.
    pub step_us: u64,
    /// START requests of the driver already turned into events.
    pub seen_starts: u64,
    /// STOP conditions of the driver already accounted for.
    pub seen_stops: u64,
}

/// Mathematical model of a [`Bus`].
#[verifier::ext_equal]
pub ghost struct BusModel {
    pub peripheral: PeripheralModel,
    pub phase: Phase,
    pub dir_read: bool,
    pub n: usize,
    pub received: Seq<u8>,
    pub now_us: u64,
    pub step_us: u64,
    pub seen_starts: u64,
    pub seen_stops: u64,
}

impl View for Bus {
    type V = BusModel;

    open spec fn view(&self) -> BusModel {
        BusModel {
            peripheral: self.peripheral@,
            phase: self.phase,
            dir_read: self.dir_read,
            n: self.n,
            received: self.received@,
            now_us: self.now_us,
            step_us: self.step_us,
            seen_starts: self.seen_starts,
            seen_stops: self.seen_stops,
        }
    }
}

/// A saturating addition on the microsecond clock.
pub open spec fn sat_add(x: u64, y: u64) -> u64 {
    if x + y > u64::MAX {
        u64::MAX
    } else {
        (x + y) as u64
    }
}

/// A saturating increment of the per-transaction byte count.
pub open spec fn sat_inc(x: usize) -> usize {
    if x == usize::MAX {
        x
    } else {
        (x + 1) as usize
    }
}

/// What one poll of the bus does, given the driver's registers: the next
/// bus state and the event, if any, the hardware interrupt would deliver.
/// [`Bus::poll`] is proved to implement exactly this.
pub open spec fn spec_poll(b: BusModel, t: TwiModel) -> (BusModel, Option<BusEvent>) {
    // One spin of the busy-wait takes one step of the clock.
    let b0 = BusModel { now_us: sat_add(b.now_us, b.step_us), ..b };
    // A STOP the driver issued ends the transaction in flight.
    let b1 = if t.stops_sent != b0.seen_stops {
        BusModel { seen_stops: t.stops_sent, phase: Phase::Idle, n: 0, ..b0 }
    } else {
        b0
    };
    if t.twcr & TWCR_TWIE == 0 {
        // Interrupt disabled: the hardware may latch events but none is
        // delivered.
        (b1, None)
    } else if t.starts_sent != b1.seen_starts {
        // A START request is pending: it goes out as soon as the bus is
        // free, repeated if a transaction was already in flight.
        let rep = b1.phase != Phase::Idle;
        (
            BusModel { seen_starts: t.starts_sent, phase: Phase::Started, n: 0, ..b1 },
            Some(
                BusEvent {
                    status: if rep {
                        flag_code(Flags::TW_REP_START)
                    } else {
                        flag_code(Flags::TW_START)
                    },
                    data: 0,
                },
            ),
        )
    } else {
        match b1.phase {
            Phase::Idle => (b1, None),
            Phase::Started => if !b1.peripheral.responsive {
                // The device holds the bus: no event ever fires.
                (b1, None)
            } else if b1.peripheral.lose_arbitration {
                (
                    BusModel { phase: Phase::Idle, ..b1 },
                    Some(BusEvent { status: flag_code(Flags::TW_CT_CR_ARB_LOST), data: 0 }),
                )
            } else {
                // The driver has loaded SLA+R/W into the data register.
                let read = t.twdr & 1 == 1;
                let hit = (t.twdr >> 1) == b1.peripheral.address && b1.peripheral.ack_address;
                let b2 = BusModel { phase: Phase::Addressed, dir_read: read, n: 0, ..b1 };
                let status = if read {
                    if hit {
                        flag_code(Flags::TW_CR_SLA_ACK)
                    } else {
                        flag_code(Flags::TW_CR_SLA_NACK)
                    }
                } else {
                    if hit {
                        flag_code(Flags::TW_CT_SLA_ACK)
                    } else {
                        flag_code(Flags::TW_CT_SLA_NACK)
                    }
                };
                (b2, Some(BusEvent { status, data: 0 }))
            },
            Phase::Addressed => if !b1.peripheral.responsive {
                (b1, None)
            } else if b1.dir_read {
                // The peripheral supplies the next byte; our previously
                // armed ACK or NACK answers it.
                let byte = if b1.n < b1.peripheral.read_data.len() {
                    b1.peripheral.read_data[b1.n as int]
                } else {
                    0xFF
                };
                let acked = t.twcr & TWCR_TWEA != 0;
                (
                    BusModel { n: sat_inc(b1.n), ..b1 },
                    Some(
                        BusEvent {
                            status: if acked {
                                flag_code(Flags::TW_CR_DATA_ACK)
                            } else {
                                flag_code(Flags::TW_CR_DATA_NACK)
                            },
                            data: byte,
                        },
                    ),
                )
            } else {
                // The driver has loaded the next data byte; the peripheral
                // receives it and acknowledges per its configuration.
                let nack = b1.peripheral.nack_data_at == Some(b1.n);
                (
                    BusModel { n: sat_inc(b1.n), received: b1.received.push(t.twdr), ..b1 },
                    Some(
                        BusEvent {
                            status: if nack {
                                flag_code(Flags::TW_CT_DATA_NACK)
                            } else {
                                flag_code(Flags::TW_CT_DATA_ACK)
                            },
                            data: 0,
                        },
                    ),
                )
            },
        }
    }
}

impl Bus {
    /// A fresh idle bus with the given peripheral attached, its clock at
    /// zero and the given busy-wait granularity in microseconds.
    pub fn new(peripheral: Peripheral, step_us: u64) -> (r: Bus)
        ensures
            r@ == (BusModel {
                peripheral: peripheral@,
                phase: Phase::Idle,
                dir_read: false,
                n: 0,
                received: Seq::<u8>::empty(),
                now_us: 0,
                step_us,
                seen_starts: 0,
                seen_stops: 0,
            }),
    {
        Bus {
            peripheral,
            phase: Phase::Idle,
            dir_read: false,
            n: 0,
            received: Vec::new(),
            now_us: 0,
            step_us,
            seen_starts: 0,
            seen_stops: 0,
        }
    }

    /// The monotonic microsecond counter.
    pub fn micros(&self) -> (r: u64)
        ensures
            r == self.now_us,
    {
        self.now_us
    }

    /// One spin of a foreground busy-wait: the clock advances one step, and
    /// the bus hands over the event the hardware interrupt would deliver,
    /// if one is pending.
    pub fn poll(&mut self, twi: &Twi) -> (r: Option<BusEvent>)
        ensures
            final(self)@ == spec_poll(old(self)@, twi@).0,
            r == spec_poll(old(self)@, twi@).1,
    {
        // One spin of the busy-wait takes one step of the clock.
        if self.step_us > u64::MAX - self.now_us {
            self.now_us = u64::MAX;
        } else {
            self.now_us = self.now_us + self.step_us;
        }
        // A STOP the driver issued ends the transaction in flight.
        if twi.stops_sent != self.seen_stops {
            self.seen_stops = twi.stops_sent;
            self.phase = Phase::Idle;
            self.n = 0;
        }
        if twi.twcr & TWCR_TWIE == 0 {
            return None;
        }
        if twi.starts_sent != self.seen_starts {
            self.seen_starts = twi.starts_sent;
            let rep = self.phase != Phase::Idle;
            self.phase = Phase::Started;
            self.n = 0;
            return Some(
                BusEvent {
                    status: if rep {
                        Flags::TW_REP_START.code()
                    } else {
                        Flags::TW_START.code()
                    },
                    data: 0,
                },
            );
        }
        match self.phase {
            Phase::Idle => None,
            Phase::Started => {
                if !self.peripheral.responsive {
                    return None;
                }
                if self.peripheral.lose_arbitration {
                    self.phase = Phase::Idle;
                    return Some(BusEvent { status: Flags::TW_CT_CR_ARB_LOST.code(), data: 0 });
                }
                let read = twi.twdr & 1 == 1;
                let hit = (twi.twdr >> 1) == self.peripheral.address
                    && self.peripheral.ack_address;
                self.phase = Phase::Addressed;
                self.dir_read = read;
                self.n = 0;
                let status = if read {
                    if hit {
                        Flags::TW_CR_SLA_ACK.code()
                    } else {
                        Flags::TW_CR_SLA_NACK.code()
                    }
                } else {
                    if hit {
                        Flags::TW_CT_SLA_ACK.code()
                    } else {
                        Flags::TW_CT_SLA_NACK.code()
                    }
                };
                Some(BusEvent { status, data: 0 })
            },
            Phase::Addressed => {
                if !self.peripheral.responsive {
                    return None;
                }
                if self.dir_read {
                    let byte = if self.n < self.peripheral.read_data.len() {
                        self.peripheral.read_data[self.n]
                    } else {
                        0xFF
                    };
                    let acked = twi.twcr & TWCR_TWEA != 0;
                    if self.n < usize::MAX {
                        self.n = self.n + 1;
                    }
                    Some(
                        BusEvent {
                            status: if acked {
                                Flags::TW_CR_DATA_ACK.code()
                            } else {
                                Flags::TW_CR_DATA_NACK.code()
                            },
                            data: byte,
                        },
                    )
                } else {
                    let byte = twi.twdr;
                    self.received.push(byte);
                    let nack = match self.peripheral.nack_data_at {
                        Some(k) => k == self.n,
                        None => false,
                    };
                    if self.n < usize::MAX {
                        self.n = self.n + 1;
                    }
                    Some(
                        BusEvent {
                            status: if nack {
                                Flags::TW_CT_DATA_NACK.code()
                            } else {
                                Flags::TW_CT_DATA_ACK.code()
                            },
                            data: 0,
                        },
                    )
                }
            },
        }
    }
}

} // verus!
