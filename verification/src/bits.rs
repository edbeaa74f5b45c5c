//! Easy 8-bit operations.

use vstd::prelude::*;

verus! {

/// True when the bit at the given offset in `byte` is one.
pub open spec fn nth_bit(byte: u8, bit: u8) -> bool {
    byte & (1u8 << bit) != 0
}

/// Flips the bit at the given offset.
/// Equivalent to a `not` operation on that bit.
pub fn toggle(byte: u8, bit: u8) -> (r: u8)
    requires
        bit < 8,
    ensures
        nth_bit(r, bit) == !nth_bit(byte, bit),
        forall|j: u8| j < 8 && j != bit ==> nth_bit(r, j) == nth_bit(byte, j),
{
    proof {
        assert((((byte ^ (1u8 << bit)) & (1u8 << bit) != 0) == !(byte & (1u8 << bit) != 0))
            && (forall|j: u8|
            j < 8 && j != bit ==> (((byte ^ (1u8 << bit)) & (1u8 << j) != 0) == (byte & (1u8 << j)
                != 0)))) by (bit_vector)
            requires
                bit < 8,
        ;
    }
    byte ^ (1 << bit)
}

/// Sets the bit at the given offset, changing it to a `1`.
pub fn set(byte: u8, bit: u8) -> (r: u8)
    requires
        bit < 8,
    ensures
        nth_bit(r, bit),
        forall|j: u8| j < 8 && j != bit ==> nth_bit(r, j) == nth_bit(byte, j),
{
    proof {
        assert((((byte | (1u8 << bit)) & (1u8 << bit) != 0)) && (forall|j: u8|
            j < 8 && j != bit ==> (((byte | (1u8 << bit)) & (1u8 << j) != 0) == (byte & (1u8 << j)
                != 0)))) by (bit_vector)
            requires
                bit < 8,
        ;
    }
    byte | (1 << bit)
}

/// Clears the bit at the given offset, changing it to a `0`.
pub fn clear(byte: u8, bit: u8) -> (r: u8)
    requires
        bit < 8,
    ensures
        !nth_bit(r, bit),
        forall|j: u8| j < 8 && j != bit ==> nth_bit(r, j) == nth_bit(byte, j),
{
    proof {
        assert((((byte & !(1u8 << bit)) & (1u8 << bit) == 0)) && (forall|j: u8|
            j < 8 && j != bit ==> (((byte & !(1u8 << bit)) & (1u8 << j) != 0) == (byte & (1u8
                << j) != 0)))) by (bit_vector)
            requires
                bit < 8,
        ;
    }
    byte & !(1 << bit)
}

/// Changes the bit at the given offset to the given value.
pub fn set_value(byte: u8, bit: u8, value: bool) -> (r: u8)
    requires
        bit < 8,
    ensures
        nth_bit(r, bit) == value,
        forall|j: u8| j < 8 && j != bit ==> nth_bit(r, j) == nth_bit(byte, j),
{
    if value {
        set(byte, bit)
    } else {
        clear(byte, bit)
    }
}

/// Reads the bit at the given offset.
pub fn read(byte: u8, bit: u8) -> (r: bool)
    requires
        bit < 8,
    ensures
        r == nth_bit(byte, bit),
{
    let isolated = byte & (1 << bit);
    isolated != 0
}

/// Converts Binary Coded Decimal (BCD) to decimal.
pub fn from_bcd(num: u8) -> (r: u8)
    ensures
        r == (num / 16) * 10 + num % 16,
{
    (num / 16 * 10) + (num % 16)
}

/// Converts decimal to Binary Coded Decimal (BCD).
pub fn from_dec(num: u8) -> (r: u8)
    requires
        num < 160,
    ensures
        r == (num / 10) * 16 + num % 10,
{
    (num / 10 * 16) + (num % 10)
}

} // verus!
