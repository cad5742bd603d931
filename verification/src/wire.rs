//! Wire-format traits shared by the protocol messages.
//!
//! A message type reads itself from a [`Read`] with [`FromWire`] and writes
//! itself to a [`Write`] with [`ToWire`]. Each implementation states, in its
//! own contract, the exact bytes it reads or writes.

use vstd::prelude::*;
use crate::io::{Error, Read, Write};

verus! {

/// An error that can occur while reading a message.
#[derive(Copy, Clone, Debug, PartialEq, Eq)]
pub enum FromWireError {
    /// Something went wrong in an `io` operation.
    Io(Error),
    /// Some field was outside of its valid range.
    OutOfRange,
}

/// An error that can occur while writing a message.
#[derive(Copy, Clone, Debug, PartialEq, Eq)]
pub enum ToWireError {
    /// Something went wrong in an `io` operation.
    Io(Error),
    /// The value to write was not in a writable state.
    InvalidData,
}

/// The error of a read that ran out of bytes.
pub open spec fn exhausted() -> FromWireError {
    FromWireError::Io(Error::BufferExhausted)
}

/// The error of a write that ran out of room.
pub open spec fn no_room() -> ToWireError {
    ToWireError::Io(Error::BufferExhausted)
}

impl FromWireError {
    /// Wraps an `io` error.
    pub fn from_io(e: Error) -> (r: Self)
        ensures
            r == FromWireError::Io(e),
    {
        FromWireError::Io(e)
    }
}

impl ToWireError {
    /// Wraps an `io` error.
    pub fn from_io(e: Error) -> (r: Self)
        ensures
            r == ToWireError::Io(e),
    {
        ToWireError::Io(e)
    }
}

/// Reading `w` bytes at offset `k` of `s`: they are the bytes `k..k + w` and
/// what remains is `s` from `k + w` on.
pub proof fn lemma_advance(s: Seq<u8>, k: int, w: int)
    requires
        0 <= k,
        0 <= w,
        k + w <= s.len(),
    ensures
        s.skip(k).take(w) == s.subrange(k, k + w),
        s.skip(k).skip(w) == s.skip(k + w),
{
    assert(s.skip(k).take(w) =~= s.subrange(k, k + w));
    assert(s.skip(k).skip(w) =~= s.skip(k + w));
}

/// A type that can be read from the wire.
pub trait FromWire<'a>: Sized {
    /// Deserializes a `Self` from `r`.
    fn from_wire<R: Read<'a>>(r: &mut R) -> Result<Self, FromWireError>;
}

/// A type that can be written to the wire.
pub trait ToWire {
    /// Serializes `self` into `w`.
    fn to_wire<W: Write>(&self, w: &mut W) -> Result<(), ToWireError>
        requires
            old(w).can_write(),
    ;
}

/// An enum whose variants are each encoded as a single byte.
pub trait WireEnum: Sized + Copy {
    /// The byte that encodes `self`.
    spec fn spec_to_wire_value(self) -> u8;

    /// The variant that `wire` encodes, if any.
    spec fn spec_from_wire_value(wire: u8) -> Option<Self>;

    /// Returns the byte that encodes `self`.
    fn to_wire_value(self) -> (r: u8)
        ensures
            r == self.spec_to_wire_value(),
    ;

    /// Returns the variant that `wire` encodes, or `None` for a byte that
    /// encodes none.
    fn from_wire_value(wire: u8) -> (r: Option<Self>)
        ensures
            r == Self::spec_from_wire_value(wire),
    ;

    /// Every variant is decoded back from its byte.
    proof fn lemma_wire_value_roundtrip(self)
        ensures
            Self::spec_from_wire_value(self.spec_to_wire_value()) == Some(self),
    ;

    /// A byte that decodes to a variant is that variant's byte.
    proof fn lemma_wire_value_canonical(wire: u8)
        ensures
            Self::spec_from_wire_value(wire) matches Some(e) ==> e.spec_to_wire_value() == wire,
    ;
}

} // verus!
