//! A cell for state shared between foreground code and an interrupt
//! handler.
//!
//! On the target part every access disables global interrupts for its
//! duration, so the handler can never observe or mutate the value
//! mid-operation; here that exclusivity is carried by `&mut` access, under
//! which each operation is a plain read or write.

use vstd::prelude::*;

verus! {

/// A mutable cell shared with an interrupt handler; accesses are
/// indivisible with respect to the handler.
#[derive(Debug, Clone, Copy)]
pub struct Volatile<T: Copy>(pub T);

impl<T: Copy> Volatile<T> {
    /// Creates a new cell containing the given value.
    pub fn new(value: T) -> (r: Volatile<T>)
        ensures
            r.0 == value,
    {
        Volatile(value)
    }

    /// Reads the stored value.
    pub fn read(&self) -> (r: T)
        ensures
            r == self.0,
    {
        self.0
    }

    /// Overwrites the stored value.
    pub fn write(&mut self, value: T)
        ensures
            final(self).0 == value,
    {
        self.0 = value;
    }

    /// Consumes the cell and returns the value it contained.
    pub fn into_inner(self) -> (r: T)
        ensures
            r == self.0,
    {
        self.0
    }
}

} // verus!
