//! Printing of values on the console: strings, decimal numbers, and
//! numbers in hexadecimal.

use vstd::prelude::*;

verus! {

/// A value that can be printed on the console.
pub trait Printable {
    /// Prints the value.
    fn print(self);
}

/// A value that prints in hexadecimal as a 32 bit number.
pub trait HexPrintable: Sized {
    /// The 32 bit number of the value.
    spec fn spec_to_u32(self) -> u32;

    /// Returns the 32 bit number of the value.
    fn to_u32(self) -> (v: u32)
        ensures
            v == self.spec_to_u32(),
    ;
}

impl HexPrintable for u32 {
    open spec fn spec_to_u32(self) -> u32 {
        self
    }

    fn to_u32(self) -> (v: u32) {
        self
    }
}

impl HexPrintable for usize {
    /// The low 32 bits.
    open spec fn spec_to_u32(self) -> u32 {
        self as u32
    }

    fn to_u32(self) -> (v: u32) {
        self as u32
    }
}

/// A number to print in hexadecimal.
pub struct Hex {
    value: u32,
}

impl Hex {
    /// The number.
    pub closed spec fn spec_value(&self) -> u32 {
        self.value
    }

    /// Returns the number.
    pub fn value(&self) -> (v: u32)
        ensures
            v == self.spec_value(),
    {
        self.value
    }
}

/// Wraps a value so that it prints in hexadecimal.
pub fn hex<T: HexPrintable>(value: T) -> (h: Hex)
    ensures
        h.spec_value() == value.spec_to_u32(),
{
    Hex { value: value.to_u32() }
}

} // verus!
