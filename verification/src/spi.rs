//! Settings for the serial peripheral interface: clock-divider selection
//! and control/status register assembly.

use vstd::prelude::*;

use crate::registers::{Register, SPCR};
use crate::CPU_FREQUENCY;

verus! {

/// Mask of the data-mode bits in the SPI control register.
pub const SPI_MODE_MASK: u8 = 0x0C;

/// Mask of the clock-select bits in the SPI control register.
pub const SPI_CLOCK_MASK: u8 = 0x03;

/// Mask of the double-speed bit in the SPI status register.
pub const SPI_2XCLOCK_MASK: u8 = 0x01;

/// Clock polarity and phase of an SPI transfer.
#[derive(Debug, Clone, Copy, PartialEq, Eq, Structural)]
#[allow(missing_docs)]
pub enum DataMode {
    Mode0,
    Mode1,
    Mode2,
    Mode3,
}

impl DataMode {
    /// The control-register mask selecting this mode.
    pub fn mask(self) -> (r: u8)
        ensures
            r == spec_mode_mask(self),
    {
        match self {
            DataMode::Mode0 => 0x00,
            DataMode::Mode1 => 0x04,
            DataMode::Mode2 => 0x08,
            DataMode::Mode3 => 0x0C,
        }
    }
}

/// The control-register mask of each data mode.
pub open spec fn spec_mode_mask(m: DataMode) -> u8 {
    match m {
        DataMode::Mode0 => 0x00,
        DataMode::Mode1 => 0x04,
        DataMode::Mode2 => 0x08,
        DataMode::Mode3 => 0x0C,
    }
}

/// Which end of each byte is shifted out first.
#[derive(Debug, Clone, Copy, PartialEq, Eq, Structural)]
#[allow(missing_docs)]
pub enum BitOrder {
    LSBFirst,
    MSBFirst,
}

/// The divider selection for a wanted clock rate: the fastest setting not
/// exceeding it, with the double-speed bit inverted into the low bit.
pub open spec fn spec_clock_div(clock: u32) -> u8 {
    (if clock >= (CPU_FREQUENCY / 2) as u32 {
        0x00u8
    } else if clock >= (CPU_FREQUENCY / 4) as u32 {
        0x01u8
    } else if clock >= (CPU_FREQUENCY / 8) as u32 {
        0x02u8
    } else if clock >= (CPU_FREQUENCY / 16) as u32 {
        0x03u8
    } else if clock >= (CPU_FREQUENCY / 32) as u32 {
        0x04u8
    } else if clock >= (CPU_FREQUENCY / 64) as u32 {
        0x05u8
    } else {
        0x07u8
    }) ^ 0x01
}

/// Precomputed control and status register values for one SPI
/// configuration.
#[derive(Debug, Clone, Copy, PartialEq, Eq, Structural)]
pub struct SPISettings {
    /// Control-register value.
    pub spcr: u8,
    /// Status-register value (double-speed bit).
    pub spsr: u8,
}

impl SPISettings {
    /// Selects the fastest clock setting at or below the given rate (the
    /// slowest divider when nothing is slow enough) and assembles the
    /// register values for it.
    pub fn new(clock: u32, bit_order: BitOrder, data_mode: DataMode) -> (r: SPISettings)
        ensures
            r.spsr == spec_clock_div(clock) | SPI_2XCLOCK_MASK,
            r.spcr == ((1u8 << SPCR::SPE.bit_spec()) | (1u8 << SPCR::MSTR.bit_spec()) | (if bit_order
                == BitOrder::LSBFirst {
                1u8 << SPCR::DORD.bit_spec()
            } else {
                0u8
            }) | (spec_mode_mask(data_mode) & SPI_MODE_MASK) | ((spec_clock_div(clock) >> 1)
                & SPI_CLOCK_MASK)),
    {
        let clock_div: u8 = (if clock >= (CPU_FREQUENCY / 2) as u32 {
            0x00u8
        } else if clock >= (CPU_FREQUENCY / 4) as u32 {
            0x01
        } else if clock >= (CPU_FREQUENCY / 8) as u32 {
            0x02
        } else if clock >= (CPU_FREQUENCY / 16) as u32 {
            0x03
        } else if clock >= (CPU_FREQUENCY / 32) as u32 {
            0x04
        } else if clock >= (CPU_FREQUENCY / 64) as u32 {
            0x05
        } else {
            // Compensate for the duplicate divide-by-64 entry.
            0x07
        }) ^ 0x01;  // Invert the double-speed bit.

        let spcr = SPCR::SPE.bv() | SPCR::MSTR.bv() | (if bit_order == BitOrder::LSBFirst {
            SPCR::DORD.bv()
        } else {
            0
        }) | (data_mode.mask() & SPI_MODE_MASK) | ((clock_div >> 1) & SPI_CLOCK_MASK);
        let spsr = clock_div | SPI_2XCLOCK_MASK;
        SPISettings { spcr, spsr }
    }
}

} // verus!
