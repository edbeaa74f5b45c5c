//! Register-level model of an 8-bit AVR-class microcontroller's peripherals,
//! centred on an interrupt-driven two-wire (I2C-style) bus driver.
//!
//! The heart of the crate is the two-wire protocol engine in [`twi`]: a state
//! machine driven by one hardware interrupt per bus event, with blocking
//! controller-mode entry points, peripheral-mode callback dispatch, buffering,
//! error classification and timeout-triggered recovery.  Hardware registers
//! and the bus itself are modelled as explicit values, so every transition of
//! the driver is stated in contracts and proved; [`bus`] supplies a model of
//! the bus hardware with one attached peripheral against which whole
//! transactions run.

use vstd::prelude::*;

pub mod bits;
pub mod buffer;
pub mod bus;
pub mod pins;
pub mod registers;
pub mod spi;
pub mod twi;
pub mod volatile;
pub mod wire;

verus! {

/// Clock frequency of the target part, in hertz.
pub const CPU_FREQUENCY: u64 = 16_000_000;

} // verus!
