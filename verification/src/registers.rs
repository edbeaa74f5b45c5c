//! Bit-name definitions for the important registers of the target part.
//!
//! Each enum names the bits of one hardware register; [`Register::bit`]
//! gives a bit's offset, and [`Register::bv`] its mask, for use with the
//! 8-bit operations in [`crate::bits`].

use vstd::prelude::*;

verus! {

/// A named bit of one hardware register.
pub trait Register: Sized + Copy {
    /// The offset of this bit, for contracts.
    spec fn bit_spec(&self) -> u8;

    /// The offset of this bit within its register.
    fn bit(&self) -> (b: u8)
        ensures
            b == self.bit_spec(),
            b < 8,
    ;

    /// The bit value (mask) of this bit: one shifted to its offset.
    fn bv(&self) -> (r: u8)
        ensures
            r == 1u8 << self.bit_spec(),
            self.bit_spec() < 8,
    ;
}

/// AVR Status Register
#[allow(missing_docs)]
#[derive(Debug, Clone, Copy, PartialEq, Eq, Structural)]
pub enum SREG {
    C,
    Z,
    N,
    V,
    S,
    H,
    T,
    I,
}

impl Register for SREG {
    open spec fn bit_spec(&self) -> u8 {
        match self {
            SREG::C => 0,
            SREG::Z => 1,
            SREG::N => 2,
            SREG::V => 3,
            SREG::S => 4,
            SREG::H => 5,
            SREG::T => 6,
            SREG::I => 7,
        }
    }

    fn bit(&self) -> (b: u8)
    {
        match self {
            SREG::C => 0,
            SREG::Z => 1,
            SREG::N => 2,
            SREG::V => 3,
            SREG::S => 4,
            SREG::H => 5,
            SREG::T => 6,
            SREG::I => 7,
        }
    }

    fn bv(&self) -> (r: u8)
    {
        1u8 << self.bit()
    }
}

/// ADC Control and Status Register A
#[allow(missing_docs)]
#[derive(Debug, Clone, Copy, PartialEq, Eq, Structural)]
pub enum ADCSRA {
    ADPS0,
    ADPS1,
    ADPS2,
    ADIE,
    ADIF,
    ADATE,
    ADSC,
    ADEN,
}

impl Register for ADCSRA {
    open spec fn bit_spec(&self) -> u8 {
        match self {
            ADCSRA::ADPS0 => 0,
            ADCSRA::ADPS1 => 1,
            ADCSRA::ADPS2 => 2,
            ADCSRA::ADIE => 3,
            ADCSRA::ADIF => 4,
            ADCSRA::ADATE => 5,
            ADCSRA::ADSC => 6,
            ADCSRA::ADEN => 7,
        }
    }

    fn bit(&self) -> (b: u8)
    {
        match self {
            ADCSRA::ADPS0 => 0,
            ADCSRA::ADPS1 => 1,
            ADCSRA::ADPS2 => 2,
            ADCSRA::ADIE => 3,
            ADCSRA::ADIF => 4,
            ADCSRA::ADATE => 5,
            ADCSRA::ADSC => 6,
            ADCSRA::ADEN => 7,
        }
    }

    fn bv(&self) -> (r: u8)
    {
        1u8 << self.bit()
    }
}

/// ADC Control and Status Register B
#[allow(missing_docs)]
#[derive(Debug, Clone, Copy, PartialEq, Eq, Structural)]
pub enum ADCSRB {
    ADTS0,
    ADTS1,
    ADTS2,
    ACME,
}

impl Register for ADCSRB {
    open spec fn bit_spec(&self) -> u8 {
        match self {
            ADCSRB::ADTS0 => 0,
            ADCSRB::ADTS1 => 1,
            ADCSRB::ADTS2 => 2,
            ADCSRB::ACME => 6,
        }
    }

    fn bit(&self) -> (b: u8)
    {
        match self {
            ADCSRB::ADTS0 => 0,
            ADCSRB::ADTS1 => 1,
            ADCSRB::ADTS2 => 2,
            ADCSRB::ACME => 6,
        }
    }

    fn bv(&self) -> (r: u8)
    {
        1u8 << self.bit()
    }
}

/// ADC Multiplexer Selection Register
#[allow(missing_docs)]
#[derive(Debug, Clone, Copy, PartialEq, Eq, Structural)]
pub enum ADMUX {
    MUX0,
    MUX1,
    MUX2,
    MUX3,
    ADLAR,
    REFS0,
    REFS1,
}

impl Register for ADMUX {
    open spec fn bit_spec(&self) -> u8 {
        match self {
            ADMUX::MUX0 => 0,
            ADMUX::MUX1 => 1,
            ADMUX::MUX2 => 2,
            ADMUX::MUX3 => 3,
            ADMUX::ADLAR => 5,
            ADMUX::REFS0 => 6,
            ADMUX::REFS1 => 7,
        }
    }

    fn bit(&self) -> (b: u8)
    {
        match self {
            ADMUX::MUX0 => 0,
            ADMUX::MUX1 => 1,
            ADMUX::MUX2 => 2,
            ADMUX::MUX3 => 3,
            ADMUX::ADLAR => 5,
            ADMUX::REFS0 => 6,
            ADMUX::REFS1 => 7,
        }
    }

    fn bv(&self) -> (r: u8)
    {
        1u8 << self.bit()
    }
}

/// Port B Input Pins Address
#[allow(missing_docs)]
#[derive(Debug, Clone, Copy, PartialEq, Eq, Structural)]
pub enum PINB {
    PINB0,
    PINB1,
    PINB2,
    PINB3,
    PINB4,
    PINB5,
    PINB6,
    PINB7,
}

impl Register for PINB {
    open spec fn bit_spec(&self) -> u8 {
        match self {
            PINB::PINB0 => 0,
            PINB::PINB1 => 1,
            PINB::PINB2 => 2,
            PINB::PINB3 => 3,
            PINB::PINB4 => 4,
            PINB::PINB5 => 5,
            PINB::PINB6 => 6,
            PINB::PINB7 => 7,
        }
    }

    fn bit(&self) -> (b: u8)
    {
        match self {
            PINB::PINB0 => 0,
            PINB::PINB1 => 1,
            PINB::PINB2 => 2,
            PINB::PINB3 => 3,
            PINB::PINB4 => 4,
            PINB::PINB5 => 5,
            PINB::PINB6 => 6,
            PINB::PINB7 => 7,
        }
    }

    fn bv(&self) -> (r: u8)
    {
        1u8 << self.bit()
    }
}

/// Port B Data Direction Register
#[allow(missing_docs)]
#[derive(Debug, Clone, Copy, PartialEq, Eq, Structural)]
pub enum DDRB {
    DDRB0,
    DDRB1,
    DDRB2,
    DDRB3,
    DDRB4,
    DDRB5,
    DDRB6,
    DDRB7,
}

impl Register for DDRB {
    open spec fn bit_spec(&self) -> u8 {
        match self {
            DDRB::DDRB0 => 0,
            DDRB::DDRB1 => 1,
            DDRB::DDRB2 => 2,
            DDRB::DDRB3 => 3,
            DDRB::DDRB4 => 4,
            DDRB::DDRB5 => 5,
            DDRB::DDRB6 => 6,
            DDRB::DDRB7 => 7,
        }
    }

    fn bit(&self) -> (b: u8)
    {
        match self {
            DDRB::DDRB0 => 0,
            DDRB::DDRB1 => 1,
            DDRB::DDRB2 => 2,
            DDRB::DDRB3 => 3,
            DDRB::DDRB4 => 4,
            DDRB::DDRB5 => 5,
            DDRB::DDRB6 => 6,
            DDRB::DDRB7 => 7,
        }
    }

    fn bv(&self) -> (r: u8)
    {
        1u8 << self.bit()
    }
}

/// Port B Data Register
#[allow(missing_docs)]
#[derive(Debug, Clone, Copy, PartialEq, Eq, Structural)]
pub enum PORTB {
    PORTB0,
    PORTB1,
    PORTB2,
    PORTB3,
    PORTB4,
    PORTB5,
    PORTB6,
    PORTB7,
}

impl Register for PORTB {
    open spec fn bit_spec(&self) -> u8 {
        match self {
            PORTB::PORTB0 => 0,
            PORTB::PORTB1 => 1,
            PORTB::PORTB2 => 2,
            PORTB::PORTB3 => 3,
            PORTB::PORTB4 => 4,
            PORTB::PORTB5 => 5,
            PORTB::PORTB6 => 6,
            PORTB::PORTB7 => 7,
        }
    }

    fn bit(&self) -> (b: u8)
    {
        match self {
            PORTB::PORTB0 => 0,
            PORTB::PORTB1 => 1,
            PORTB::PORTB2 => 2,
            PORTB::PORTB3 => 3,
            PORTB::PORTB4 => 4,
            PORTB::PORTB5 => 5,
            PORTB::PORTB6 => 6,
            PORTB::PORTB7 => 7,
        }
    }

    fn bv(&self) -> (r: u8)
    {
        1u8 << self.bit()
    }
}

/// Port C Input Pins Address
#[allow(missing_docs)]
#[derive(Debug, Clone, Copy, PartialEq, Eq, Structural)]
pub enum PINC {
    PINC0,
    PINC1,
    PINC2,
    PINC3,
    PINC4,
    PINC5,
    PINC6,
}

impl Register for PINC {
    open spec fn bit_spec(&self) -> u8 {
        match self {
            PINC::PINC0 => 0,
            PINC::PINC1 => 1,
            PINC::PINC2 => 2,
            PINC::PINC3 => 3,
            PINC::PINC4 => 4,
            PINC::PINC5 => 5,
            PINC::PINC6 => 6,
        }
    }

    fn bit(&self) -> (b: u8)
    {
        match self {
            PINC::PINC0 => 0,
            PINC::PINC1 => 1,
            PINC::PINC2 => 2,
            PINC::PINC3 => 3,
            PINC::PINC4 => 4,
            PINC::PINC5 => 5,
            PINC::PINC6 => 6,
        }
    }

    fn bv(&self) -> (r: u8)
    {
        1u8 << self.bit()
    }
}

/// Port C Data Direction Register
#[allow(missing_docs)]
#[derive(Debug, Clone, Copy, PartialEq, Eq, Structural)]
pub enum DDRC {
    DDRC0,
    DDRC1,
    DDRC2,
    DDRC3,
    DDRC4,
    DDRC5,
    DDRC6,
}

impl Register for DDRC {
    open spec fn bit_spec(&self) -> u8 {
        match self {
            DDRC::DDRC0 => 0,
            DDRC::DDRC1 => 1,
            DDRC::DDRC2 => 2,
            DDRC::DDRC3 => 3,
            DDRC::DDRC4 => 4,
            DDRC::DDRC5 => 5,
            DDRC::DDRC6 => 6,
        }
    }

    fn bit(&self) -> (b: u8)
    {
        match self {
            DDRC::DDRC0 => 0,
            DDRC::DDRC1 => 1,
            DDRC::DDRC2 => 2,
            DDRC::DDRC3 => 3,
            DDRC::DDRC4 => 4,
            DDRC::DDRC5 => 5,
            DDRC::DDRC6 => 6,
        }
    }

    fn bv(&self) -> (r: u8)
    {
        1u8 << self.bit()
    }
}

/// Port C Data Register
#[allow(missing_docs)]
#[derive(Debug, Clone, Copy, PartialEq, Eq, Structural)]
pub enum PORTC {
    PORTC0,
    PORTC1,
    PORTC2,
    PORTC3,
    PORTC4,
    PORTC5,
    PORTC6,
}

impl Register for PORTC {
    open spec fn bit_spec(&self) -> u8 {
        match self {
            PORTC::PORTC0 => 0,
            PORTC::PORTC1 => 1,
            PORTC::PORTC2 => 2,
            PORTC::PORTC3 => 3,
            PORTC::PORTC4 => 4,
            PORTC::PORTC5 => 5,
            PORTC::PORTC6 => 6,
        }
    }

    fn bit(&self) -> (b: u8)
    {
        match self {
            PORTC::PORTC0 => 0,
            PORTC::PORTC1 => 1,
            PORTC::PORTC2 => 2,
            PORTC::PORTC3 => 3,
            PORTC::PORTC4 => 4,
            PORTC::PORTC5 => 5,
            PORTC::PORTC6 => 6,
        }
    }

    fn bv(&self) -> (r: u8)
    {
        1u8 << self.bit()
    }
}

/// Port D Input Pins Address
#[allow(missing_docs)]
#[derive(Debug, Clone, Copy, PartialEq, Eq, Structural)]
pub enum PIND {
    PIND0,
    PIND1,
    PIND2,
    PIND3,
    PIND4,
    PIND5,
    PIND6,
    PIND7,
}

impl Register for PIND {
    open spec fn bit_spec(&self) -> u8 {
        match self {
            PIND::PIND0 => 0,
            PIND::PIND1 => 1,
            PIND::PIND2 => 2,
            PIND::PIND3 => 3,
            PIND::PIND4 => 4,
            PIND::PIND5 => 5,
            PIND::PIND6 => 6,
            PIND::PIND7 => 7,
        }
    }

    fn bit(&self) -> (b: u8)
    {
        match self {
            PIND::PIND0 => 0,
            PIND::PIND1 => 1,
            PIND::PIND2 => 2,
            PIND::PIND3 => 3,
            PIND::PIND4 => 4,
            PIND::PIND5 => 5,
            PIND::PIND6 => 6,
            PIND::PIND7 => 7,
        }
    }

    fn bv(&self) -> (r: u8)
    {
        1u8 << self.bit()
    }
}

/// Port D Data Direction Register
#[allow(missing_docs)]
#[derive(Debug, Clone, Copy, PartialEq, Eq, Structural)]
pub enum DDRD {
    DDRD0,
    DDRD1,
    DDRD2,
    DDRD3,
    DDRD4,
    DDRD5,
    DDRD6,
    DDRD7,
}

impl Register for DDRD {
    open spec fn bit_spec(&self) -> u8 {
        match self {
            DDRD::DDRD0 => 0,
            DDRD::DDRD1 => 1,
            DDRD::DDRD2 => 2,
            DDRD::DDRD3 => 3,
            DDRD::DDRD4 => 4,
            DDRD::DDRD5 => 5,
            DDRD::DDRD6 => 6,
            DDRD::DDRD7 => 7,
        }
    }

    fn bit(&self) -> (b: u8)
    {
        match self {
            DDRD::DDRD0 => 0,
            DDRD::DDRD1 => 1,
            DDRD::DDRD2 => 2,
            DDRD::DDRD3 => 3,
            DDRD::DDRD4 => 4,
            DDRD::DDRD5 => 5,
            DDRD::DDRD6 => 6,
            DDRD::DDRD7 => 7,
        }
    }

    fn bv(&self) -> (r: u8)
    {
        1u8 << self.bit()
    }
}

/// Port D Data Register
#[allow(missing_docs)]
#[derive(Debug, Clone, Copy, PartialEq, Eq, Structural)]
pub enum PORTD {
    PORTD0,
    PORTD1,
    PORTD2,
    PORTD3,
    PORTD4,
    PORTD5,
    PORTD6,
    PORTD7,
}

impl Register for PORTD {
    open spec fn bit_spec(&self) -> u8 {
        match self {
            PORTD::PORTD0 => 0,
            PORTD::PORTD1 => 1,
            PORTD::PORTD2 => 2,
            PORTD::PORTD3 => 3,
            PORTD::PORTD4 => 4,
            PORTD::PORTD5 => 5,
            PORTD::PORTD6 => 6,
            PORTD::PORTD7 => 7,
        }
    }

    fn bit(&self) -> (b: u8)
    {
        match self {
            PORTD::PORTD0 => 0,
            PORTD::PORTD1 => 1,
            PORTD::PORTD2 => 2,
            PORTD::PORTD3 => 3,
            PORTD::PORTD4 => 4,
            PORTD::PORTD5 => 5,
            PORTD::PORTD6 => 6,
            PORTD::PORTD7 => 7,
        }
    }

    fn bv(&self) -> (r: u8)
    {
        1u8 << self.bit()
    }
}

/// MCU Control Register
#[allow(missing_docs)]
#[derive(Debug, Clone, Copy, PartialEq, Eq, Structural)]
pub enum MCUCR {
    IVCE,
    IVSEL,
    PUD,
    BODSE,
    BODS,
}

impl Register for MCUCR {
    open spec fn bit_spec(&self) -> u8 {
        match self {
            MCUCR::IVCE => 0,
            MCUCR::IVSEL => 1,
            MCUCR::PUD => 4,
            MCUCR::BODSE => 5,
            MCUCR::BODS => 6,
        }
    }

    fn bit(&self) -> (b: u8)
    {
        match self {
            MCUCR::IVCE => 0,
            MCUCR::IVSEL => 1,
            MCUCR::PUD => 4,
            MCUCR::BODSE => 5,
            MCUCR::BODS => 6,
        }
    }

    fn bv(&self) -> (r: u8)
    {
        1u8 << self.bit()
    }
}

/// Power Reduction Register
#[allow(missing_docs)]
#[derive(Debug, Clone, Copy, PartialEq, Eq, Structural)]
pub enum PRR {
    PRADC,
    PRUSART0,
    PRSPI0,
    PRTIM1,
    PRTIM0,
    PRTIM2,
    PRTWI0,
}

impl Register for PRR {
    open spec fn bit_spec(&self) -> u8 {
        match self {
            PRR::PRADC => 0,
            PRR::PRUSART0 => 1,
            PRR::PRSPI0 => 2,
            PRR::PRTIM1 => 3,
            PRR::PRTIM0 => 5,
            PRR::PRTIM2 => 6,
            PRR::PRTWI0 => 7,
        }
    }

    fn bit(&self) -> (b: u8)
    {
        match self {
            PRR::PRADC => 0,
            PRR::PRUSART0 => 1,
            PRR::PRSPI0 => 2,
            PRR::PRTIM1 => 3,
            PRR::PRTIM0 => 5,
            PRR::PRTIM2 => 6,
            PRR::PRTWI0 => 7,
        }
    }

    fn bv(&self) -> (r: u8)
    {
        1u8 << self.bit()
    }
}

/// General TC Control Register
#[allow(missing_docs)]
#[derive(Debug, Clone, Copy, PartialEq, Eq, Structural)]
pub enum GTCCR {
    PSRSYNC,
    PSRASY,
    TSM,
}

impl Register for GTCCR {
    open spec fn bit_spec(&self) -> u8 {
        match self {
            GTCCR::PSRSYNC => 0,
            GTCCR::PSRASY => 1,
            GTCCR::TSM => 7,
        }
    }

    fn bit(&self) -> (b: u8)
    {
        match self {
            GTCCR::PSRSYNC => 0,
            GTCCR::PSRASY => 1,
            GTCCR::TSM => 7,
        }
    }

    fn bv(&self) -> (r: u8)
    {
        1u8 << self.bit()
    }
}

/// TC0 Interrupt Flag Register
#[allow(missing_docs)]
#[derive(Debug, Clone, Copy, PartialEq, Eq, Structural)]
pub enum TIFR0 {
    TOV0,
    OCF0A,
    OCF0B,
}

impl Register for TIFR0 {
    open spec fn bit_spec(&self) -> u8 {
        match self {
            TIFR0::TOV0 => 0,
            TIFR0::OCF0A => 1,
            TIFR0::OCF0B => 2,
        }
    }

    fn bit(&self) -> (b: u8)
    {
        match self {
            TIFR0::TOV0 => 0,
            TIFR0::OCF0A => 1,
            TIFR0::OCF0B => 2,
        }
    }

    fn bv(&self) -> (r: u8)
    {
        1u8 << self.bit()
    }
}

/// TC0 Control Register B
#[allow(missing_docs)]
#[derive(Debug, Clone, Copy, PartialEq, Eq, Structural)]
pub enum TCCR0A {
    WGM00,
    WGM01,
    COM0B0,
    COM0B1,
    COM0A0,
    COM0A1,
}

impl Register for TCCR0A {
    open spec fn bit_spec(&self) -> u8 {
        match self {
            TCCR0A::WGM00 => 0,
            TCCR0A::WGM01 => 1,
            TCCR0A::COM0B0 => 4,
            TCCR0A::COM0B1 => 5,
            TCCR0A::COM0A0 => 6,
            TCCR0A::COM0A1 => 7,
        }
    }

    fn bit(&self) -> (b: u8)
    {
        match self {
            TCCR0A::WGM00 => 0,
            TCCR0A::WGM01 => 1,
            TCCR0A::COM0B0 => 4,
            TCCR0A::COM0B1 => 5,
            TCCR0A::COM0A0 => 6,
            TCCR0A::COM0A1 => 7,
        }
    }

    fn bv(&self) -> (r: u8)
    {
        1u8 << self.bit()
    }
}

/// TC0 Control Register B
#[allow(missing_docs)]
#[derive(Debug, Clone, Copy, PartialEq, Eq, Structural)]
pub enum TCCR0B {
    CS00,
    CS01,
    CS02,
    WGM02,
    FOC0B,
    FOC0A,
}

impl Register for TCCR0B {
    open spec fn bit_spec(&self) -> u8 {
        match self {
            TCCR0B::CS00 => 0,
            TCCR0B::CS01 => 1,
            TCCR0B::CS02 => 2,
            TCCR0B::WGM02 => 3,
            TCCR0B::FOC0B => 6,
            TCCR0B::FOC0A => 7,
        }
    }

    fn bit(&self) -> (b: u8)
    {
        match self {
            TCCR0B::CS00 => 0,
            TCCR0B::CS01 => 1,
            TCCR0B::CS02 => 2,
            TCCR0B::WGM02 => 3,
            TCCR0B::FOC0B => 6,
            TCCR0B::FOC0A => 7,
        }
    }

    fn bv(&self) -> (r: u8)
    {
        1u8 << self.bit()
    }
}

/// Counter value register
#[allow(missing_docs)]
#[derive(Debug, Clone, Copy, PartialEq, Eq, Structural)]
pub enum TCNT0 {
    TCNT00,
    TCNT01,
    TCNT02,
    TCNT03,
    TCNT04,
    TCNT05,
    TCNT06,
    TCNT07,
}

impl Register for TCNT0 {
    open spec fn bit_spec(&self) -> u8 {
        match self {
            TCNT0::TCNT00 => 0,
            TCNT0::TCNT01 => 1,
            TCNT0::TCNT02 => 2,
            TCNT0::TCNT03 => 3,
            TCNT0::TCNT04 => 4,
            TCNT0::TCNT05 => 5,
            TCNT0::TCNT06 => 6,
            TCNT0::TCNT07 => 7,
        }
    }

    fn bit(&self) -> (b: u8)
    {
        match self {
            TCNT0::TCNT00 => 0,
            TCNT0::TCNT01 => 1,
            TCNT0::TCNT02 => 2,
            TCNT0::TCNT03 => 3,
            TCNT0::TCNT04 => 4,
            TCNT0::TCNT05 => 5,
            TCNT0::TCNT06 => 6,
            TCNT0::TCNT07 => 7,
        }
    }

    fn bv(&self) -> (r: u8)
    {
        1u8 << self.bit()
    }
}

/// Timer/Counter1 Interrupt Flag Register
#[allow(missing_docs)]
#[derive(Debug, Clone, Copy, PartialEq, Eq, Structural)]
pub enum TIFR1 {
    TOV1,
    OCF1A,
    OCF1B,
    ICF1,
}

impl Register for TIFR1 {
    open spec fn bit_spec(&self) -> u8 {
        match self {
            TIFR1::TOV1 => 0,
            TIFR1::OCF1A => 1,
            TIFR1::OCF1B => 2,
            TIFR1::ICF1 => 5,
        }
    }

    fn bit(&self) -> (b: u8)
    {
        match self {
            TIFR1::TOV1 => 0,
            TIFR1::OCF1A => 1,
            TIFR1::OCF1B => 2,
            TIFR1::ICF1 => 5,
        }
    }

    fn bv(&self) -> (r: u8)
    {
        1u8 << self.bit()
    }
}

/// Timer/Counter1 Interrupt Mask Register
#[allow(missing_docs)]
#[derive(Debug, Clone, Copy, PartialEq, Eq, Structural)]
pub enum TIMSK1 {
    TOIE1,
    OCIE1A,
    OCIE1B,
    ICIE1,
}

impl Register for TIMSK1 {
    open spec fn bit_spec(&self) -> u8 {
        match self {
            TIMSK1::TOIE1 => 0,
            TIMSK1::OCIE1A => 1,
            TIMSK1::OCIE1B => 2,
            TIMSK1::ICIE1 => 5,
        }
    }

    fn bit(&self) -> (b: u8)
    {
        match self {
            TIMSK1::TOIE1 => 0,
            TIMSK1::OCIE1A => 1,
            TIMSK1::OCIE1B => 2,
            TIMSK1::ICIE1 => 5,
        }
    }

    fn bv(&self) -> (r: u8)
    {
        1u8 << self.bit()
    }
}

/// Timer/Counter1 Control Register A
#[allow(missing_docs)]
#[derive(Debug, Clone, Copy, PartialEq, Eq, Structural)]
pub enum TCCR1A {
    WGM10,
    WGM11,
    COM1B0,
    COM1B1,
    COM1A0,
    COM1A1,
}

impl Register for TCCR1A {
    open spec fn bit_spec(&self) -> u8 {
        match self {
            TCCR1A::WGM10 => 0,
            TCCR1A::WGM11 => 1,
            TCCR1A::COM1B0 => 4,
            TCCR1A::COM1B1 => 5,
            TCCR1A::COM1A0 => 6,
            TCCR1A::COM1A1 => 7,
        }
    }

    fn bit(&self) -> (b: u8)
    {
        match self {
            TCCR1A::WGM10 => 0,
            TCCR1A::WGM11 => 1,
            TCCR1A::COM1B0 => 4,
            TCCR1A::COM1B1 => 5,
            TCCR1A::COM1A0 => 6,
            TCCR1A::COM1A1 => 7,
        }
    }

    fn bv(&self) -> (r: u8)
    {
        1u8 << self.bit()
    }
}

/// Timer/Counter1 Control Register B
#[allow(missing_docs)]
#[derive(Debug, Clone, Copy, PartialEq, Eq, Structural)]
pub enum TCCR1B {
    CS10,
    CS11,
    CS12,
    WGM12,
    WGM13,
    ICES1,
    ICNC1,
}

impl Register for TCCR1B {
    open spec fn bit_spec(&self) -> u8 {
        match self {
            TCCR1B::CS10 => 0,
            TCCR1B::CS11 => 1,
            TCCR1B::CS12 => 2,
            TCCR1B::WGM12 => 3,
            TCCR1B::WGM13 => 4,
            TCCR1B::ICES1 => 6,
            TCCR1B::ICNC1 => 7,
        }
    }

    fn bit(&self) -> (b: u8)
    {
        match self {
            TCCR1B::CS10 => 0,
            TCCR1B::CS11 => 1,
            TCCR1B::CS12 => 2,
            TCCR1B::WGM12 => 3,
            TCCR1B::WGM13 => 4,
            TCCR1B::ICES1 => 6,
            TCCR1B::ICNC1 => 7,
        }
    }

    fn bv(&self) -> (r: u8)
    {
        1u8 << self.bit()
    }
}

/// Timer/Counter2 Control Register A
#[allow(missing_docs)]
#[derive(Debug, Clone, Copy, PartialEq, Eq, Structural)]
pub enum TCCR2A {
    WGM20,
    WGM21,
    COM2B0,
    COM2B1,
    COM2A0,
    COM2A1,
}

impl Register for TCCR2A {
    open spec fn bit_spec(&self) -> u8 {
        match self {
            TCCR2A::WGM20 => 0,
            TCCR2A::WGM21 => 1,
            TCCR2A::COM2B0 => 4,
            TCCR2A::COM2B1 => 5,
            TCCR2A::COM2A0 => 6,
            TCCR2A::COM2A1 => 7,
        }
    }

    fn bit(&self) -> (b: u8)
    {
        match self {
            TCCR2A::WGM20 => 0,
            TCCR2A::WGM21 => 1,
            TCCR2A::COM2B0 => 4,
            TCCR2A::COM2B1 => 5,
            TCCR2A::COM2A0 => 6,
            TCCR2A::COM2A1 => 7,
        }
    }

    fn bv(&self) -> (r: u8)
    {
        1u8 << self.bit()
    }
}

/// Timer/Counter2 Control Register B
#[allow(missing_docs)]
#[derive(Debug, Clone, Copy, PartialEq, Eq, Structural)]
pub enum TCCR2B {
    CS20,
    CS21,
    CS22,
    WGM22,
    FOC2B,
    FOC2A,
}

impl Register for TCCR2B {
    open spec fn bit_spec(&self) -> u8 {
        match self {
            TCCR2B::CS20 => 0,
            TCCR2B::CS21 => 1,
            TCCR2B::CS22 => 2,
            TCCR2B::WGM22 => 3,
            TCCR2B::FOC2B => 6,
            TCCR2B::FOC2A => 7,
        }
    }

    fn bit(&self) -> (b: u8)
    {
        match self {
            TCCR2B::CS20 => 0,
            TCCR2B::CS21 => 1,
            TCCR2B::CS22 => 2,
            TCCR2B::WGM22 => 3,
            TCCR2B::FOC2B => 6,
            TCCR2B::FOC2A => 7,
        }
    }

    fn bv(&self) -> (r: u8)
    {
        1u8 << self.bit()
    }
}

/// Timer / Counter1
#[allow(missing_docs)]
#[derive(Debug, Clone, Copy, PartialEq, Eq, Structural)]
pub enum TCNT1L {
    TCNT1L0,
    TCNT1L1,
    TCNT1L2,
    TCNT1L3,
    TCNT1L4,
    TCNT1L5,
    TCNT1L6,
    TCNT1L7,
    TCNT1H0,
    TCNT1H1,
    TCNT1H2,
    TCNT1H3,
    TCNT1H4,
    TCNT1H5,
    TCNT1H6,
    TCNT1H7,
}

impl Register for TCNT1L {
    open spec fn bit_spec(&self) -> u8 {
        match self {
            TCNT1L::TCNT1L0 => 0,
            TCNT1L::TCNT1L1 => 1,
            TCNT1L::TCNT1L2 => 2,
            TCNT1L::TCNT1L3 => 3,
            TCNT1L::TCNT1L4 => 4,
            TCNT1L::TCNT1L5 => 5,
            TCNT1L::TCNT1L6 => 6,
            TCNT1L::TCNT1L7 => 7,
            TCNT1L::TCNT1H0 => 0,
            TCNT1L::TCNT1H1 => 0,
            TCNT1L::TCNT1H2 => 0,
            TCNT1L::TCNT1H3 => 0,
            TCNT1L::TCNT1H4 => 0,
            TCNT1L::TCNT1H5 => 0,
            TCNT1L::TCNT1H6 => 0,
            TCNT1L::TCNT1H7 => 0,
        }
    }

    fn bit(&self) -> (b: u8)
    {
        match self {
            TCNT1L::TCNT1L0 => 0,
            TCNT1L::TCNT1L1 => 1,
            TCNT1L::TCNT1L2 => 2,
            TCNT1L::TCNT1L3 => 3,
            TCNT1L::TCNT1L4 => 4,
            TCNT1L::TCNT1L5 => 5,
            TCNT1L::TCNT1L6 => 6,
            TCNT1L::TCNT1L7 => 7,
            TCNT1L::TCNT1H0 => 0,
            TCNT1L::TCNT1H1 => 0,
            TCNT1L::TCNT1H2 => 0,
            TCNT1L::TCNT1H3 => 0,
            TCNT1L::TCNT1H4 => 0,
            TCNT1L::TCNT1H5 => 0,
            TCNT1L::TCNT1H6 => 0,
            TCNT1L::TCNT1H7 => 0,
        }
    }

    fn bv(&self) -> (r: u8)
    {
        1u8 << self.bit()
    }
}

/// Timer 0 Output Compare Register A
#[allow(missing_docs)]
#[derive(Debug, Clone, Copy, PartialEq, Eq, Structural)]
pub enum OCR0A {
    OCR0A0,
    OCR0A1,
    OCR0A2,
    OCR0A3,
    OCR0A4,
    OCR0A5,
    OCR0A6,
    OCR0A7,
}

impl Register for OCR0A {
    open spec fn bit_spec(&self) -> u8 {
        match self {
            OCR0A::OCR0A0 => 0,
            OCR0A::OCR0A1 => 1,
            OCR0A::OCR0A2 => 2,
            OCR0A::OCR0A3 => 3,
            OCR0A::OCR0A4 => 4,
            OCR0A::OCR0A5 => 5,
            OCR0A::OCR0A6 => 6,
            OCR0A::OCR0A7 => 7,
        }
    }

    fn bit(&self) -> (b: u8)
    {
        match self {
            OCR0A::OCR0A0 => 0,
            OCR0A::OCR0A1 => 1,
            OCR0A::OCR0A2 => 2,
            OCR0A::OCR0A3 => 3,
            OCR0A::OCR0A4 => 4,
            OCR0A::OCR0A5 => 5,
            OCR0A::OCR0A6 => 6,
            OCR0A::OCR0A7 => 7,
        }
    }

    fn bv(&self) -> (r: u8)
    {
        1u8 << self.bit()
    }
}

/// Timer 0 Output Compare Register B
#[allow(missing_docs)]
#[derive(Debug, Clone, Copy, PartialEq, Eq, Structural)]
pub enum OCR0B {
    OCR0B0,
    OCR0B1,
    OCR0B2,
    OCR0B3,
    OCR0B4,
    OCR0B5,
    OCR0B6,
    OCR0B7,
}

impl Register for OCR0B {
    open spec fn bit_spec(&self) -> u8 {
        match self {
            OCR0B::OCR0B0 => 0,
            OCR0B::OCR0B1 => 1,
            OCR0B::OCR0B2 => 2,
            OCR0B::OCR0B3 => 3,
            OCR0B::OCR0B4 => 4,
            OCR0B::OCR0B5 => 5,
            OCR0B::OCR0B6 => 6,
            OCR0B::OCR0B7 => 7,
        }
    }

    fn bit(&self) -> (b: u8)
    {
        match self {
            OCR0B::OCR0B0 => 0,
            OCR0B::OCR0B1 => 1,
            OCR0B::OCR0B2 => 2,
            OCR0B::OCR0B3 => 3,
            OCR0B::OCR0B4 => 4,
            OCR0B::OCR0B5 => 5,
            OCR0B::OCR0B6 => 6,
            OCR0B::OCR0B7 => 7,
        }
    }

    fn bv(&self) -> (r: u8)
    {
        1u8 << self.bit()
    }
}

/// Timer 1 Output Compare Register A
#[allow(missing_docs)]
#[derive(Debug, Clone, Copy, PartialEq, Eq, Structural)]
pub enum OCR1A {
    OCR0A0,
    OCR0A1,
    OCR0A2,
    OCR0A3,
    OCR0A4,
    OCR0A5,
    OCR0A6,
    OCR0A7,
    OCR0B8,
    OCR0B9,
    OCR0B10,
    OCR0B11,
    OCR0B12,
    OCR0B13,
    OCR0B14,
    OCR0B15,
}

impl Register for OCR1A {
    open spec fn bit_spec(&self) -> u8 {
        match self {
            OCR1A::OCR0A0 => 0,
            OCR1A::OCR0A1 => 1,
            OCR1A::OCR0A2 => 2,
            OCR1A::OCR0A3 => 3,
            OCR1A::OCR0A4 => 4,
            OCR1A::OCR0A5 => 5,
            OCR1A::OCR0A6 => 6,
            OCR1A::OCR0A7 => 7,
            OCR1A::OCR0B8 => 0,
            OCR1A::OCR0B9 => 0,
            OCR1A::OCR0B10 => 0,
            OCR1A::OCR0B11 => 0,
            OCR1A::OCR0B12 => 0,
            OCR1A::OCR0B13 => 0,
            OCR1A::OCR0B14 => 0,
            OCR1A::OCR0B15 => 0,
        }
    }

    fn bit(&self) -> (b: u8)
    {
        match self {
            OCR1A::OCR0A0 => 0,
            OCR1A::OCR0A1 => 1,
            OCR1A::OCR0A2 => 2,
            OCR1A::OCR0A3 => 3,
            OCR1A::OCR0A4 => 4,
            OCR1A::OCR0A5 => 5,
            OCR1A::OCR0A6 => 6,
            OCR1A::OCR0A7 => 7,
            OCR1A::OCR0B8 => 0,
            OCR1A::OCR0B9 => 0,
            OCR1A::OCR0B10 => 0,
            OCR1A::OCR0B11 => 0,
            OCR1A::OCR0B12 => 0,
            OCR1A::OCR0B13 => 0,
            OCR1A::OCR0B14 => 0,
            OCR1A::OCR0B15 => 0,
        }
    }

    fn bv(&self) -> (r: u8)
    {
        1u8 << self.bit()
    }
}

/// Timer 1 Output Compare Register B
#[allow(missing_docs)]
#[derive(Debug, Clone, Copy, PartialEq, Eq, Structural)]
pub enum OCR1B {
    OCR0A0,
    OCR0A1,
    OCR0A2,
    OCR0A3,
    OCR0A4,
    OCR0A5,
    OCR0A6,
    OCR0A7,
    OCR0B8,
    OCR0B9,
    OCR0B10,
    OCR0B11,
    OCR0B12,
    OCR0B13,
    OCR0B14,
    OCR0B15,
}

impl Register for OCR1B {
    open spec fn bit_spec(&self) -> u8 {
        match self {
            OCR1B::OCR0A0 => 0,
            OCR1B::OCR0A1 => 1,
            OCR1B::OCR0A2 => 2,
            OCR1B::OCR0A3 => 3,
            OCR1B::OCR0A4 => 4,
            OCR1B::OCR0A5 => 5,
            OCR1B::OCR0A6 => 6,
            OCR1B::OCR0A7 => 7,
            OCR1B::OCR0B8 => 0,
            OCR1B::OCR0B9 => 0,
            OCR1B::OCR0B10 => 0,
            OCR1B::OCR0B11 => 0,
            OCR1B::OCR0B12 => 0,
            OCR1B::OCR0B13 => 0,
            OCR1B::OCR0B14 => 0,
            OCR1B::OCR0B15 => 0,
        }
    }

    fn bit(&self) -> (b: u8)
    {
        match self {
            OCR1B::OCR0A0 => 0,
            OCR1B::OCR0A1 => 1,
            OCR1B::OCR0A2 => 2,
            OCR1B::OCR0A3 => 3,
            OCR1B::OCR0A4 => 4,
            OCR1B::OCR0A5 => 5,
            OCR1B::OCR0A6 => 6,
            OCR1B::OCR0A7 => 7,
            OCR1B::OCR0B8 => 0,
            OCR1B::OCR0B9 => 0,
            OCR1B::OCR0B10 => 0,
            OCR1B::OCR0B11 => 0,
            OCR1B::OCR0B12 => 0,
            OCR1B::OCR0B13 => 0,
            OCR1B::OCR0B14 => 0,
            OCR1B::OCR0B15 => 0,
        }
    }

    fn bv(&self) -> (r: u8)
    {
        1u8 << self.bit()
    }
}

/// Timer 2 Output Compare Register A
#[allow(missing_docs)]
#[derive(Debug, Clone, Copy, PartialEq, Eq, Structural)]
pub enum OCR2A {
    OCR2A0,
    OCR2A1,
    OCR2A2,
    OCR2A3,
    OCR2A4,
    OCR2A5,
    OCR2A6,
    OCR2A7,
}

impl Register for OCR2A {
    open spec fn bit_spec(&self) -> u8 {
        match self {
            OCR2A::OCR2A0 => 0,
            OCR2A::OCR2A1 => 1,
            OCR2A::OCR2A2 => 2,
            OCR2A::OCR2A3 => 3,
            OCR2A::OCR2A4 => 4,
            OCR2A::OCR2A5 => 5,
            OCR2A::OCR2A6 => 6,
            OCR2A::OCR2A7 => 7,
        }
    }

    fn bit(&self) -> (b: u8)
    {
        match self {
            OCR2A::OCR2A0 => 0,
            OCR2A::OCR2A1 => 1,
            OCR2A::OCR2A2 => 2,
            OCR2A::OCR2A3 => 3,
            OCR2A::OCR2A4 => 4,
            OCR2A::OCR2A5 => 5,
            OCR2A::OCR2A6 => 6,
            OCR2A::OCR2A7 => 7,
        }
    }

    fn bv(&self) -> (r: u8)
    {
        1u8 << self.bit()
    }
}

/// Timer 2 Output Compare Register B
#[allow(missing_docs)]
#[derive(Debug, Clone, Copy, PartialEq, Eq, Structural)]
pub enum OCR2B {
    OCR2B0,
    OCR2B1,
    OCR2B2,
    OCR2B3,
    OCR2B4,
    OCR2B5,
    OCR2B6,
    OCR2B7,
}

impl Register for OCR2B {
    open spec fn bit_spec(&self) -> u8 {
        match self {
            OCR2B::OCR2B0 => 0,
            OCR2B::OCR2B1 => 1,
            OCR2B::OCR2B2 => 2,
            OCR2B::OCR2B3 => 3,
            OCR2B::OCR2B4 => 4,
            OCR2B::OCR2B5 => 5,
            OCR2B::OCR2B6 => 6,
            OCR2B::OCR2B7 => 7,
        }
    }

    fn bit(&self) -> (b: u8)
    {
        match self {
            OCR2B::OCR2B0 => 0,
            OCR2B::OCR2B1 => 1,
            OCR2B::OCR2B2 => 2,
            OCR2B::OCR2B3 => 3,
            OCR2B::OCR2B4 => 4,
            OCR2B::OCR2B5 => 5,
            OCR2B::OCR2B6 => 6,
            OCR2B::OCR2B7 => 7,
        }
    }

    fn bv(&self) -> (r: u8)
    {
        1u8 << self.bit()
    }
}

/// Timer 0 Interrupt Mask Register
#[allow(missing_docs)]
#[derive(Debug, Clone, Copy, PartialEq, Eq, Structural)]
pub enum TIMSK0 {
    TOIE0,
    OCIEA,
    OCIEB,
}

impl Register for TIMSK0 {
    open spec fn bit_spec(&self) -> u8 {
        match self {
            TIMSK0::TOIE0 => 0,
            TIMSK0::OCIEA => 1,
            TIMSK0::OCIEB => 2,
        }
    }

    fn bit(&self) -> (b: u8)
    {
        match self {
            TIMSK0::TOIE0 => 0,
            TIMSK0::OCIEA => 1,
            TIMSK0::OCIEB => 2,
        }
    }

    fn bv(&self) -> (r: u8)
    {
        1u8 << self.bit()
    }
}

/// USART Baud Rate Register
#[allow(missing_docs)]
#[derive(Debug, Clone, Copy, PartialEq, Eq, Structural)]
pub enum UBRR0 {
    UBRR00,
    UBRR01,
    UBRR02,
    UBRR03,
    UBRR04,
    UBRR05,
    UBRR06,
    UBRR07,
    UBRR08,
    UBRR09,
    UBRR010,
    UBRR011,
}

impl Register for UBRR0 {
    open spec fn bit_spec(&self) -> u8 {
        match self {
            UBRR0::UBRR00 => 0,
            UBRR0::UBRR01 => 1,
            UBRR0::UBRR02 => 2,
            UBRR0::UBRR03 => 3,
            UBRR0::UBRR04 => 4,
            UBRR0::UBRR05 => 5,
            UBRR0::UBRR06 => 6,
            UBRR0::UBRR07 => 7,
            UBRR0::UBRR08 => 0,
            UBRR0::UBRR09 => 0,
            UBRR0::UBRR010 => 0,
            UBRR0::UBRR011 => 0,
        }
    }

    fn bit(&self) -> (b: u8)
    {
        match self {
            UBRR0::UBRR00 => 0,
            UBRR0::UBRR01 => 1,
            UBRR0::UBRR02 => 2,
            UBRR0::UBRR03 => 3,
            UBRR0::UBRR04 => 4,
            UBRR0::UBRR05 => 5,
            UBRR0::UBRR06 => 6,
            UBRR0::UBRR07 => 7,
            UBRR0::UBRR08 => 0,
            UBRR0::UBRR09 => 0,
            UBRR0::UBRR010 => 0,
            UBRR0::UBRR011 => 0,
        }
    }

    fn bv(&self) -> (r: u8)
    {
        1u8 << self.bit()
    }
}

/// USART Control and Status Register 0 A
#[allow(missing_docs)]
#[derive(Debug, Clone, Copy, PartialEq, Eq, Structural)]
pub enum UCSR0A {
    MPCM0,
    U2X0,
    UPE0,
    DOR0,
    FE0,
    UDRE0,
    TXC0,
    RXC0,
}

impl Register for UCSR0A {
    open spec fn bit_spec(&self) -> u8 {
        match self {
            UCSR0A::MPCM0 => 0,
            UCSR0A::U2X0 => 1,
            UCSR0A::UPE0 => 2,
            UCSR0A::DOR0 => 3,
            UCSR0A::FE0 => 4,
            UCSR0A::UDRE0 => 5,
            UCSR0A::TXC0 => 6,
            UCSR0A::RXC0 => 7,
        }
    }

    fn bit(&self) -> (b: u8)
    {
        match self {
            UCSR0A::MPCM0 => 0,
            UCSR0A::U2X0 => 1,
            UCSR0A::UPE0 => 2,
            UCSR0A::DOR0 => 3,
            UCSR0A::FE0 => 4,
            UCSR0A::UDRE0 => 5,
            UCSR0A::TXC0 => 6,
            UCSR0A::RXC0 => 7,
        }
    }

    fn bv(&self) -> (r: u8)
    {
        1u8 << self.bit()
    }
}

/// USART Control and Status Register 0 B
#[allow(missing_docs)]
#[derive(Debug, Clone, Copy, PartialEq, Eq, Structural)]
pub enum UCSR0B {
    TXB80,
    RXB80,
    UCSZ02,
    TXEN0,
    RXEN0,
    UDRIE0,
    TXCIE0,
    RXCIE0,
}

impl Register for UCSR0B {
    open spec fn bit_spec(&self) -> u8 {
        match self {
            UCSR0B::TXB80 => 0,
            UCSR0B::RXB80 => 1,
            UCSR0B::UCSZ02 => 2,
            UCSR0B::TXEN0 => 3,
            UCSR0B::RXEN0 => 4,
            UCSR0B::UDRIE0 => 5,
            UCSR0B::TXCIE0 => 6,
            UCSR0B::RXCIE0 => 7,
        }
    }

    fn bit(&self) -> (b: u8)
    {
        match self {
            UCSR0B::TXB80 => 0,
            UCSR0B::RXB80 => 1,
            UCSR0B::UCSZ02 => 2,
            UCSR0B::TXEN0 => 3,
            UCSR0B::RXEN0 => 4,
            UCSR0B::UDRIE0 => 5,
            UCSR0B::TXCIE0 => 6,
            UCSR0B::RXCIE0 => 7,
        }
    }

    fn bv(&self) -> (r: u8)
    {
        1u8 << self.bit()
    }
}

/// USART Control and Status Register 0 C
#[allow(missing_docs)]
#[derive(Debug, Clone, Copy, PartialEq, Eq, Structural)]
pub enum UCSR0C {
    UCPOL0,
    UCSZ00,
    UCSZ01,
    USBS0,
    UPM00,
    UPM01,
    UMSEL00,
    UMSEL01,
}

impl Register for UCSR0C {
    open spec fn bit_spec(&self) -> u8 {
        match self {
            UCSR0C::UCPOL0 => 0,
            UCSR0C::UCSZ00 => 1,
            UCSR0C::UCSZ01 => 2,
            UCSR0C::USBS0 => 3,
            UCSR0C::UPM00 => 4,
            UCSR0C::UPM01 => 5,
            UCSR0C::UMSEL00 => 6,
            UCSR0C::UMSEL01 => 7,
        }
    }

    fn bit(&self) -> (b: u8)
    {
        match self {
            UCSR0C::UCPOL0 => 0,
            UCSR0C::UCSZ00 => 1,
            UCSR0C::UCSZ01 => 2,
            UCSR0C::USBS0 => 3,
            UCSR0C::UPM00 => 4,
            UCSR0C::UPM01 => 5,
            UCSR0C::UMSEL00 => 6,
            UCSR0C::UMSEL01 => 7,
        }
    }

    fn bv(&self) -> (r: u8)
    {
        1u8 << self.bit()
    }
}

/// USART I/O Data Register 0
#[allow(missing_docs)]
#[derive(Debug, Clone, Copy, PartialEq, Eq, Structural)]
pub enum UDR0 {
    UDR00,
    UDR01,
    UDR02,
    UDR03,
    UDR04,
    UDR05,
    UDR06,
    UDR07,
}

impl Register for UDR0 {
    open spec fn bit_spec(&self) -> u8 {
        match self {
            UDR0::UDR00 => 0,
            UDR0::UDR01 => 1,
            UDR0::UDR02 => 2,
            UDR0::UDR03 => 3,
            UDR0::UDR04 => 4,
            UDR0::UDR05 => 5,
            UDR0::UDR06 => 6,
            UDR0::UDR07 => 7,
        }
    }

    fn bit(&self) -> (b: u8)
    {
        match self {
            UDR0::UDR00 => 0,
            UDR0::UDR01 => 1,
            UDR0::UDR02 => 2,
            UDR0::UDR03 => 3,
            UDR0::UDR04 => 4,
            UDR0::UDR05 => 5,
            UDR0::UDR06 => 6,
            UDR0::UDR07 => 7,
        }
    }

    fn bv(&self) -> (r: u8)
    {
        1u8 << self.bit()
    }
}

/// TWI Status Register
#[allow(missing_docs)]
#[derive(Debug, Clone, Copy, PartialEq, Eq, Structural)]
pub enum TWSR {
    TWPS0,
    TWPS1,
    TWS3,
    TWS4,
    TWS5,
    TWS6,
    TWS7,
}

impl Register for TWSR {
    open spec fn bit_spec(&self) -> u8 {
        match self {
            TWSR::TWPS0 => 0,
            TWSR::TWPS1 => 1,
            TWSR::TWS3 => 3,
            TWSR::TWS4 => 4,
            TWSR::TWS5 => 5,
            TWSR::TWS6 => 6,
            TWSR::TWS7 => 7,
        }
    }

    fn bit(&self) -> (b: u8)
    {
        match self {
            TWSR::TWPS0 => 0,
            TWSR::TWPS1 => 1,
            TWSR::TWS3 => 3,
            TWSR::TWS4 => 4,
            TWSR::TWS5 => 5,
            TWSR::TWS6 => 6,
            TWSR::TWS7 => 7,
        }
    }

    fn bv(&self) -> (r: u8)
    {
        1u8 << self.bit()
    }
}

/// TWI Data Register
#[allow(missing_docs)]
#[derive(Debug, Clone, Copy, PartialEq, Eq, Structural)]
pub enum TWDR {
    TWD0,
    TWD1,
    TWD2,
    TWD3,
    TWD4,
    TWD5,
    TWD6,
    TWD7,
}

impl Register for TWDR {
    open spec fn bit_spec(&self) -> u8 {
        match self {
            TWDR::TWD0 => 0,
            TWDR::TWD1 => 1,
            TWDR::TWD2 => 2,
            TWDR::TWD3 => 3,
            TWDR::TWD4 => 4,
            TWDR::TWD5 => 5,
            TWDR::TWD6 => 6,
            TWDR::TWD7 => 7,
        }
    }

    fn bit(&self) -> (b: u8)
    {
        match self {
            TWDR::TWD0 => 0,
            TWDR::TWD1 => 1,
            TWDR::TWD2 => 2,
            TWDR::TWD3 => 3,
            TWDR::TWD4 => 4,
            TWDR::TWD5 => 5,
            TWDR::TWD6 => 6,
            TWDR::TWD7 => 7,
        }
    }

    fn bv(&self) -> (r: u8)
    {
        1u8 << self.bit()
    }
}

/// TWI Control Register
#[allow(missing_docs)]
#[derive(Debug, Clone, Copy, PartialEq, Eq, Structural)]
pub enum TWCR {
    TWIE,
    TWEN,
    TWWC,
    TWSTO,
    TWSTA,
    TWEA,
    TWINT,
}

impl Register for TWCR {
    open spec fn bit_spec(&self) -> u8 {
        match self {
            TWCR::TWIE => 0,
            TWCR::TWEN => 2,
            TWCR::TWWC => 3,
            TWCR::TWSTO => 4,
            TWCR::TWSTA => 5,
            TWCR::TWEA => 6,
            TWCR::TWINT => 7,
        }
    }

    fn bit(&self) -> (b: u8)
    {
        match self {
            TWCR::TWIE => 0,
            TWCR::TWEN => 2,
            TWCR::TWWC => 3,
            TWCR::TWSTO => 4,
            TWCR::TWSTA => 5,
            TWCR::TWEA => 6,
            TWCR::TWINT => 7,
        }
    }

    fn bv(&self) -> (r: u8)
    {
        1u8 << self.bit()
    }
}

/// TWI Bit Rate Register
#[allow(missing_docs)]
#[derive(Debug, Clone, Copy, PartialEq, Eq, Structural)]
pub enum TWBR {
    TWBR0,
    TWBR1,
    TWBR2,
    TWBR3,
    TWBR4,
    TWBR5,
    TWBR6,
    TWBR7,
}

impl Register for TWBR {
    open spec fn bit_spec(&self) -> u8 {
        match self {
            TWBR::TWBR0 => 0,
            TWBR::TWBR1 => 1,
            TWBR::TWBR2 => 2,
            TWBR::TWBR3 => 3,
            TWBR::TWBR4 => 4,
            TWBR::TWBR5 => 5,
            TWBR::TWBR6 => 6,
            TWBR::TWBR7 => 7,
        }
    }

    fn bit(&self) -> (b: u8)
    {
        match self {
            TWBR::TWBR0 => 0,
            TWBR::TWBR1 => 1,
            TWBR::TWBR2 => 2,
            TWBR::TWBR3 => 3,
            TWBR::TWBR4 => 4,
            TWBR::TWBR5 => 5,
            TWBR::TWBR6 => 6,
            TWBR::TWBR7 => 7,
        }
    }

    fn bv(&self) -> (r: u8)
    {
        1u8 << self.bit()
    }
}

/// TWI (Peripheral) Address Register
#[allow(missing_docs)]
#[derive(Debug, Clone, Copy, PartialEq, Eq, Structural)]
pub enum TWAR {
    TWGCE,
    TWA0,
    TWA1,
    TWA2,
    TWA3,
    TWA4,
    TWA5,
    TWA6,
}

impl Register for TWAR {
    open spec fn bit_spec(&self) -> u8 {
        match self {
            TWAR::TWGCE => 0,
            TWAR::TWA0 => 1,
            TWAR::TWA1 => 2,
            TWAR::TWA2 => 3,
            TWAR::TWA3 => 4,
            TWAR::TWA4 => 5,
            TWAR::TWA5 => 6,
            TWAR::TWA6 => 7,
        }
    }

    fn bit(&self) -> (b: u8)
    {
        match self {
            TWAR::TWGCE => 0,
            TWAR::TWA0 => 1,
            TWAR::TWA1 => 2,
            TWAR::TWA2 => 3,
            TWAR::TWA3 => 4,
            TWAR::TWA4 => 5,
            TWAR::TWA5 => 6,
            TWAR::TWA6 => 7,
        }
    }

    fn bv(&self) -> (r: u8)
    {
        1u8 << self.bit()
    }
}

/// External Interrupt Mask Register
#[allow(missing_docs)]
#[derive(Debug, Clone, Copy, PartialEq, Eq, Structural)]
pub enum EIMSK {
    INT0,
    INT1,
}

impl Register for EIMSK {
    open spec fn bit_spec(&self) -> u8 {
        match self {
            EIMSK::INT0 => 0,
            EIMSK::INT1 => 1,
        }
    }

    fn bit(&self) -> (b: u8)
    {
        match self {
            EIMSK::INT0 => 0,
            EIMSK::INT1 => 1,
        }
    }

    fn bv(&self) -> (r: u8)
    {
        1u8 << self.bit()
    }
}

/// SPI Control Register
#[allow(missing_docs)]
#[derive(Debug, Clone, Copy, PartialEq, Eq, Structural)]
pub enum SPCR {
    SPR0,
    SPR1,
    CPHA,
    CPOL,
    MSTR,
    DORD,
    SPE,
    SPIE,
}

impl Register for SPCR {
    open spec fn bit_spec(&self) -> u8 {
        match self {
            SPCR::SPR0 => 0,
            SPCR::SPR1 => 1,
            SPCR::CPHA => 2,
            SPCR::CPOL => 3,
            SPCR::MSTR => 4,
            SPCR::DORD => 5,
            SPCR::SPE => 6,
            SPCR::SPIE => 7,
        }
    }

    fn bit(&self) -> (b: u8)
    {
        match self {
            SPCR::SPR0 => 0,
            SPCR::SPR1 => 1,
            SPCR::CPHA => 2,
            SPCR::CPOL => 3,
            SPCR::MSTR => 4,
            SPCR::DORD => 5,
            SPCR::SPE => 6,
            SPCR::SPIE => 7,
        }
    }

    fn bv(&self) -> (r: u8)
    {
        1u8 << self.bit()
    }
}

/// SPI Data Register
#[allow(missing_docs)]
#[derive(Debug, Clone, Copy, PartialEq, Eq, Structural)]
pub enum SPDR {
    LSB,
    MSB,
}

impl Register for SPDR {
    open spec fn bit_spec(&self) -> u8 {
        match self {
            SPDR::LSB => 0,
            SPDR::MSB => 7,
        }
    }

    fn bit(&self) -> (b: u8)
    {
        match self {
            SPDR::LSB => 0,
            SPDR::MSB => 7,
        }
    }

    fn bv(&self) -> (r: u8)
    {
        1u8 << self.bit()
    }
}

/// SPI Status Register
#[allow(missing_docs)]
#[derive(Debug, Clone, Copy, PartialEq, Eq, Structural)]
pub enum SPSR {
    SPI2X,
    WCOL,
    SPIF,
}

impl Register for SPSR {
    open spec fn bit_spec(&self) -> u8 {
        match self {
            SPSR::SPI2X => 0,
            SPSR::WCOL => 6,
            SPSR::SPIF => 7,
        }
    }

    fn bit(&self) -> (b: u8)
    {
        match self {
            SPSR::SPI2X => 0,
            SPSR::WCOL => 6,
            SPSR::SPIF => 7,
        }
    }

    fn bv(&self) -> (r: u8)
    {
        1u8 << self.bit()
    }
}

} // verus!
