//! The pins of the target board: fourteen digital pins, six analog pins,
//! and the two-wire bus lines.

use vstd::prelude::*;

verus! {

/// A pin of the board.
#[derive(Debug, Clone, Copy, PartialEq, Eq, Structural)]
#[allow(missing_docs)]
pub enum Pin {
    D0,
    D1,
    D2,
    D3,
    D4,
    D5,
    D6,
    D7,
    D8,
    D9,
    D10,
    D11,
    D12,
    D13,
    A0,
    A1,
    A2,
    A3,
    A4,
    A5,
    SDA,
    SCL,
}

impl Pin {
    /// The pin's ordinal: digital pins first, then analog, then the bus
    /// lines.
    pub open spec fn spec_index(self) -> u8 {
        match self {
            Pin::D0 => 0,
            Pin::D1 => 1,
            Pin::D2 => 2,
            Pin::D3 => 3,
            Pin::D4 => 4,
            Pin::D5 => 5,
            Pin::D6 => 6,
            Pin::D7 => 7,
            Pin::D8 => 8,
            Pin::D9 => 9,
            Pin::D10 => 10,
            Pin::D11 => 11,
            Pin::D12 => 12,
            Pin::D13 => 13,
            Pin::A0 => 14,
            Pin::A1 => 15,
            Pin::A2 => 16,
            Pin::A3 => 17,
            Pin::A4 => 18,
            Pin::A5 => 19,
            Pin::SDA => 20,
            Pin::SCL => 21,
        }
    }

    /// Whether this is one of the fourteen digital pins.
    pub fn is_digital(&self) -> (r: bool)
        ensures
            r == (self.spec_index() <= 13),
    {
        match self {
            Pin::D0 | Pin::D1 | Pin::D2 | Pin::D3 | Pin::D4 | Pin::D5 | Pin::D6 | Pin::D7
            | Pin::D8 | Pin::D9 | Pin::D10 | Pin::D11 | Pin::D12 | Pin::D13 => true,
            _ => false,
        }
    }
}

/// How a pin is configured.
#[derive(Debug, Clone, Copy, PartialEq, Eq, Structural)]
pub enum PinMode {
    /// High-impedance input, the hardware default.
    Input,
    /// Input with the internal pull-up resistor engaged.
    InputPullup,
    /// Driven output.
    Output,
}

} // verus!
