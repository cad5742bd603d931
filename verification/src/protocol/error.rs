//! Error protocol messages.

use vstd::prelude::*;
use crate::endian::{be_bytes, be_value};
use crate::io::{Read, ReadInt, Write, WriteInt};
use crate::wire::{exhausted, no_room, FromWire, FromWireError, ToWire, ToWireError, WireEnum};

verus! {

/// The content type of an error message.
#[derive(Clone, Copy, PartialEq, Eq, Hash, Debug)]
pub enum ContentType {
    /// Unknown message type.
    Unknown,
    /// The checksum on the message was invalid.
    BadChecksum,
    /// The content type on the message is not supported.
    ContentTypeNotSupported,
}

impl WireEnum for ContentType {
    open spec fn spec_to_wire_value(self) -> u8 {
        match self {
            ContentType::Unknown => 0xff,
            ContentType::BadChecksum => 0x01,
            ContentType::ContentTypeNotSupported => 0x02,
        }
    }

    open spec fn spec_from_wire_value(wire: u8) -> Option<Self> {
        if wire == 0xff {
            Some(ContentType::Unknown)
        } else if wire == 0x01 {
            Some(ContentType::BadChecksum)
        } else if wire == 0x02 {
            Some(ContentType::ContentTypeNotSupported)
        } else {
            None
        }
    }

    fn to_wire_value(self) -> (r: u8) {
        match self {
            ContentType::Unknown => 0xff,
            ContentType::BadChecksum => 0x01,
            ContentType::ContentTypeNotSupported => 0x02,
        }
    }

    fn from_wire_value(wire: u8) -> (r: Option<Self>) {
        match wire {
            0xff => Some(ContentType::Unknown),
            0x01 => Some(ContentType::BadChecksum),
            0x02 => Some(ContentType::ContentTypeNotSupported),
            _ => None,
        }
    }

    proof fn lemma_wire_value_roundtrip(self) {
    }

    proof fn lemma_wire_value_canonical(wire: u8) {
    }
}

/// A parsed header.
#[derive(Clone, Copy, PartialEq, Eq, Hash, Debug)]
pub struct Header {
    /// The content type following the header.
    pub content: ContentType,
}

/// The length of an error header on the wire, in bytes.
pub const HEADER_LEN: usize = 1;

impl Header {
    /// The header's bytes on the wire.
    pub open spec fn wire_bytes(self) -> Seq<u8> {
        seq![self.content.spec_to_wire_value()]
    }

    /// What reading a header from `s` gives.
    pub open spec fn parse(s: Seq<u8>) -> Result<(Header, nat), FromWireError> {
        if s.len() < 1 {
            Err(exhausted())
        } else {
            match ContentType::spec_from_wire_value(s[0]) {
                None => Err(FromWireError::OutOfRange),
                Some(c) => Ok((Header { content: c }, 1)),
            }
        }
    }
}

impl<'a> FromWire<'a> for Header {
    fn from_wire<R: Read<'a>>(r: &mut R) -> (res: Result<Self, FromWireError>)
        ensures
            match Self::parse(old(r)@) {
                Ok((v, n)) => res == Ok::<Header, FromWireError>(v) && final(r)@ == old(r)@.skip(
                    n as int,
                ),
                Err(e) => res == Err::<Header, FromWireError>(e),
            },
    {
        let content_u8 = match r.read_be::<u8>() {
            Ok(v) => v,
            Err(e) => return Err(FromWireError::from_io(e)),
        };
        proof {
            reveal_with_fuel(be_value, 2);
        }
        let content = match ContentType::from_wire_value(content_u8) {
            Some(c) => c,
            None => return Err(FromWireError::OutOfRange),
        };
        Ok(Self { content })
    }
}

impl ToWire for Header {
    fn to_wire<W: Write>(&self, w: &mut W) -> (res: Result<(), ToWireError>)
        ensures
            final(w).can_write(),
            self.wire_bytes().len() <= old(w).room() ==> res == Ok::<(), ToWireError>(())
                && final(w).written() == old(w).written() + self.wire_bytes()
                && final(w).room() == old(w).room() - self.wire_bytes().len(),
            self.wire_bytes().len() > old(w).room() ==> res == Err::<(), ToWireError>(no_room()),
    {
        proof {
            reveal_with_fuel(be_bytes, 2);
        }
        match w.write_be(self.content.to_wire_value()) {
            Ok(()) => Ok(()),
            Err(e) => Err(ToWireError::from_io(e)),
        }
    }
}

/// An error header survives a trip over the wire.
pub proof fn lemma_header_roundtrip(v: Header, rest: Seq<u8>)
    ensures
        Header::parse(v.wire_bytes() + rest) == Ok::<(Header, nat), FromWireError>((v, 1)),
{
    v.content.lemma_wire_value_roundtrip();
    assert((v.wire_bytes() + rest)[0] == v.content.spec_to_wire_value());
}

/// Reading an error header is exact.
pub proof fn lemma_header_canonical(s: Seq<u8>)
    ensures
        Header::parse(s) matches Ok((v, n)) ==> v.wire_bytes() == s.take(n as int),
{
    if s.len() >= 1 {
        ContentType::lemma_wire_value_canonical(s[0]);
        if let Ok((v, n)) = Header::parse(s) {
            assert(v.wire_bytes() =~= s.take(1));
        }
    }
}

// ----------------------------------------------------------------------------

/// A message, identified by a [`ContentType`].
pub trait Message<'req>: FromWire<'req> + ToWire {
    /// The unique [`ContentType`] for this `Message`.
    fn message_type() -> ContentType;
}

// ----------------------------------------------------------------------------

/// A parsed `bad checksum` message.
#[derive(Clone, Copy, PartialEq, Eq, Hash, Debug)]
pub struct BadChecksum {}

/// The length of this message on the wire, in bytes.
pub const BAD_CHECKSUM_LEN: usize = 0;

impl Message<'_> for BadChecksum {
    fn message_type() -> (t: ContentType)
        ensures
            t == ContentType::BadChecksum,
    {
        ContentType::BadChecksum
    }
}

impl<'a> FromWire<'a> for BadChecksum {
    fn from_wire<R: Read<'a>>(r: &mut R) -> (res: Result<Self, FromWireError>)
        ensures
            res == Ok::<BadChecksum, FromWireError>(BadChecksum {  }),
            final(r)@ == old(r)@,
    {
        Ok(Self {})
    }
}

impl ToWire for BadChecksum {
    fn to_wire<W: Write>(&self, w: &mut W) -> (res: Result<(), ToWireError>)
        ensures
            res == Ok::<(), ToWireError>(()),
            *final(w) == *old(w),
    {
        Ok(())
    }
}

/// A parsed `ContentTypeNotSupported` message.
#[derive(Clone, Copy, PartialEq, Eq, Hash, Debug)]
pub struct ContentTypeNotSupported {}

/// The length of this message on the wire, in bytes.
pub const CONTENT_TYPE_NOT_SUPPORTED_LEN: usize = 0;

impl Message<'_> for ContentTypeNotSupported {
    fn message_type() -> (t: ContentType)
        ensures
            t == ContentType::ContentTypeNotSupported,
    {
        ContentType::ContentTypeNotSupported
    }
}

impl<'a> FromWire<'a> for ContentTypeNotSupported {
    fn from_wire<R: Read<'a>>(r: &mut R) -> (res: Result<Self, FromWireError>)
        ensures
            res == Ok::<ContentTypeNotSupported, FromWireError>(ContentTypeNotSupported {  }),
            final(r)@ == old(r)@,
    {
        Ok(Self {})
    }
}

impl ToWire for ContentTypeNotSupported {
    fn to_wire<W: Write>(&self, w: &mut W) -> (res: Result<(), ToWireError>)
        ensures
            res == Ok::<(), ToWireError>(()),
            *final(w) == *old(w),
    {
        Ok(())
    }
}


/// The protocol's bytes for the error message types: Unknown 0xff, BadChecksum 0x01, ContentTypeNotSupported 0x02; no other byte names one.
pub proof fn lemma_content_type_wire_values(wire: u8)
    ensures
        ContentType::Unknown.spec_to_wire_value() == 0xffu8,
        ContentType::BadChecksum.spec_to_wire_value() == 0x01u8,
        ContentType::ContentTypeNotSupported.spec_to_wire_value() == 0x02u8,
        ContentType::spec_from_wire_value(wire) is Some <==> (wire == 0xffu8 || wire == 0x01u8 || wire == 0x02u8),
        ContentType::spec_from_wire_value(wire) matches Some(v) ==> v.spec_to_wire_value() == wire,
{
    ContentType::lemma_wire_value_canonical(wire);
}

} // verus!
