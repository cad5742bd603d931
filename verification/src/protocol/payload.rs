//! SPI flash protocol payload: the header that frames every message and the
//! CRC-8 checksum that protects it.

use vstd::prelude::*;
use crate::endian::{be_bytes, be_value, be_write_u16, lemma_be_bytes_len, lemma_be_bytes_of_value, lemma_be_value_bound, lemma_be_value_of_bytes, lemma_byte_pow_values};
use crate::io::{Error, Read, ReadInt, Write, WriteInt};
use crate::wire::{exhausted, no_room, FromWire, FromWireError, ToWire, ToWireError, WireEnum};

verus! {

broadcast use vstd::slice::group_slice_axioms;

// ----------------------------------------------------------------------------
// CRC-8
// ----------------------------------------------------------------------------

/// One step of the bitwise CRC-8 register update (polynomial x^8+x^2+x+1).
pub open spec fn crc_bit(c: u16) -> u16 {
    if c & 0x8000u16 != 0 {
        (c ^ 0x8380u16) << 1u16
    } else {
        c << 1u16
    }
}

/// `k` steps of [`crc_bit`].
pub open spec fn crc_bits(c: u16, k: nat) -> u16
    decreases k,
{
    if k == 0 {
        c
    } else {
        crc_bits(crc_bit(c), (k - 1) as nat)
    }
}

/// The register after one byte is added.
pub open spec fn crc_byte(c: u16, b: u8) -> u16 {
    crc_bits(c ^ ((b as u16) << 8u16), 8)
}

/// The register after the bytes of `s` are added in order.
pub open spec fn crc_update(c: u16, s: Seq<u8>) -> u16
    decreases s.len(),
{
    if s.len() == 0 {
        c
    } else {
        crc_byte(crc_update(c, s.drop_last()), s.last())
    }
}

/// The checksum that a register holds.
pub open spec fn crc_value(c: u16) -> u8 {
    (c >> 8u16) as u8
}

/// The CRC-8 checksum of `s`, starting from a zero register.
pub open spec fn crc8(s: Seq<u8>) -> u8 {
    crc_value(crc_update(0, s))
}

/// Adding bytes is incremental: adding `a` and then `b` is adding `a + b`.
pub proof fn lemma_crc_update_append(c: u16, a: Seq<u8>, b: Seq<u8>)
    ensures
        crc_update(crc_update(c, a), b) == crc_update(c, a + b),
    decreases b.len(),
{
    if b.len() > 0 {
        lemma_crc_update_append(c, a, b.drop_last());
        assert((a + b).drop_last() =~= a + b.drop_last());
    } else {
        assert(a + b =~= a);
    }
}

/// Data for the CRC-8 computation.
pub struct Crc8 {
    crc: u16,
}

impl Crc8 {
    /// The register of the computation.
    pub closed spec fn register(&self) -> u16 {
        self.crc
    }

    /// Initialize CRC8 data to 0.
    pub fn init() -> (c: Self)
        ensures
            c.register() == 0,
    {
        Self { crc: 0 }
    }

    /// Get the calculated CRC8 checksum.
    pub fn get(&self) -> (v: u8)
        ensures
            v == crc_value(self.register()),
    {
        let c = self.crc;
        assert(((c >> 8u16) & 0xffu16) as u8 == (c >> 8u16) as u8) by (bit_vector);
        (c >> 8 & 0xff) as u8
    }

    /// Adds the specified data to the CRC8 checksum and returns the
    /// checksum, so that additions can be chained.
    /// Uses the x^8+x^2+x+1 polynomial.
    pub fn add(&mut self, data: &[u8]) -> (r: &mut Self)
        ensures
            r.register() == crc_update(old(self).register(), data@),
            *final(self) == *final(r),
    {
        self.add_bytes(data);
        self
    }

    /// Adds `data` to the checksum.
    fn add_bytes(&mut self, data: &[u8])
        ensures
            final(self).register() == crc_update(old(self).register(), data@),
    {
        let mut i: usize = 0;
        while i < data.len()
            invariant
                i <= data@.len(),
                self.crc == crc_update(old(self).crc, data@.take(i as int)),
            decreases data@.len() - i,
        {
            let byte = data[i];
            let ghost start = self.crc ^ ((byte as u16) << 8u16);
            self.crc = self.crc ^ ((byte as u16) << 8u16);
            let mut k: usize = 0;
            while k < 8
                invariant
                    k <= 8,
                    crc_bits(start, 8) == crc_bits(self.crc, (8 - k) as nat),
                decreases 8 - k,
            {
                let ghost before = self.crc;
                assert(0x1070u16 << 3u16 == 0x8380u16) by (bit_vector);
                if self.crc & 0x8000 != 0 {
                    self.crc = self.crc ^ (0x1070u16 << 3u16);
                }
                self.crc = self.crc << 1u16;
                assert(self.crc == crc_bit(before));
                assert(crc_bits(before, (8 - k) as nat) == crc_bits(crc_bit(before), (8 - k - 1) as nat));
                k = k + 1;
            }
            assert(data@.take((i + 1) as int).drop_last() =~= data@.take(i as int));
            i = i + 1;
        }
        assert(data@.take(data@.len() as int) =~= data@);
    }
}

/// Compute the checksum of the given header and payload buffer: the CRC-8 of
/// the content type, the big-endian content length and the first
/// `content_len` bytes of the payload.
pub fn compute_checksum(header: &Header, payload: &[u8]) -> (c: u8)
    requires
        header.content_len <= payload@.len(),
    ensures
        c == crc8(header.checksummed_bytes(payload@)),
{
    let kind = [header.content.to_wire_value()];
    let len = be_write_u16(header.content_len);
    let (body, _) = payload.split_at(header.content_len as usize);
    let mut crc = Crc8::init();
    let c = crc.add(kind.as_slice()).add(len.as_slice()).add(body).get();
    proof {
        lemma_crc_update_append(0, kind@, len@);
        lemma_crc_update_append(0, kind@ + len@, body@);
        assert(header.checksummed_bytes(payload@) =~= kind@ + len@ + body@);
    }
    c
}

// ----------------------------------------------------------------------------
// Content type
// ----------------------------------------------------------------------------

/// The content type.
#[derive(Clone, Copy, PartialEq, Eq, Hash, Debug)]
pub enum ContentType {
    /// Unknown message type.
    Unknown,
    /// Error
    Error,
    /// Manticore
    Manticore,
    /// Firmware
    Firmware,
}

impl WireEnum for ContentType {
    open spec fn spec_to_wire_value(self) -> u8 {
        match self {
            ContentType::Unknown => 0xff,
            ContentType::Error => 0x00,
            ContentType::Manticore => 0x01,
            ContentType::Firmware => 0x02,
        }
    }

    open spec fn spec_from_wire_value(wire: u8) -> Option<Self> {
        if wire == 0xff {
            Some(ContentType::Unknown)
        } else if wire == 0x00 {
            Some(ContentType::Error)
        } else if wire == 0x01 {
            Some(ContentType::Manticore)
        } else if wire == 0x02 {
            Some(ContentType::Firmware)
        } else {
            None
        }
    }

    fn to_wire_value(self) -> (r: u8) {
        match self {
            ContentType::Unknown => 0xff,
            ContentType::Error => 0x00,
            ContentType::Manticore => 0x01,
            ContentType::Firmware => 0x02,
        }
    }

    fn from_wire_value(wire: u8) -> (r: Option<Self>) {
        match wire {
            0xff => Some(ContentType::Unknown),
            0x00 => Some(ContentType::Error),
            0x01 => Some(ContentType::Manticore),
            0x02 => Some(ContentType::Firmware),
            _ => None,
        }
    }

    proof fn lemma_wire_value_roundtrip(self) {
    }

    proof fn lemma_wire_value_canonical(wire: u8) {
    }
}

// ----------------------------------------------------------------------------
// Header
// ----------------------------------------------------------------------------

/// A parsed header.
#[derive(Clone, Copy, PartialEq, Eq, Hash, Debug)]
pub struct Header {
    /// The content type following the header.
    pub content: ContentType,
    /// The length of the content following the header.
    pub content_len: u16,
    /// A checksum including the header (excluding this field) and the content
    /// following the header.
    pub checksum: u8,
}

/// The length of a payload header on the wire, in bytes.
pub const HEADER_LEN: usize = 4;

impl Header {
    /// The header's bytes on the wire.
    pub open spec fn wire_bytes(self) -> Seq<u8> {
        seq![self.content.spec_to_wire_value()] + be_bytes(self.content_len as nat, 2)
            + seq![self.checksum]
    }

    /// What reading a header from `s` gives: the header and the number of
    /// bytes it took, or the error.
    pub open spec fn parse(s: Seq<u8>) -> Result<(Header, nat), FromWireError> {
        if s.len() < 1 {
            Err(exhausted())
        } else if ContentType::spec_from_wire_value(s[0]) is None {
            Err(FromWireError::OutOfRange)
        } else if s.len() < 4 {
            Err(exhausted())
        } else {
            Ok(
                (
                    Header {
                        content: ContentType::spec_from_wire_value(s[0]).unwrap(),
                        content_len: be_value(s.subrange(1, 3)) as u16,
                        checksum: s[3],
                    },
                    4,
                ),
            )
        }
    }

    /// The bytes that the checksum covers: the header without its checksum,
    /// then the first `content_len` bytes of `payload`.
    pub open spec fn checksummed_bytes(self, payload: Seq<u8>) -> Seq<u8> {
        seq![self.content.spec_to_wire_value()] + be_bytes(self.content_len as nat, 2)
            + payload.take(self.content_len as int)
    }

    /// Deserializes a `Header` from `r`.
    pub fn from_wire<'a, R: Read<'a>>(r: &mut R) -> (res: Result<Self, FromWireError>)
        ensures
            match Self::parse(old(r)@) {
                Ok((h, n)) => res == Ok::<Header, FromWireError>(h) && final(r)@ == old(r)@.skip(
                    n as int,
                ),
                Err(e) => res == Err::<Header, FromWireError>(e),
            },
    {
        let ghost s = r@;
        let content_u8 = match r.read_be::<u8>() {
            Ok(v) => v,
            Err(e) => return Err(FromWireError::from_io(e)),
        };
        proof {
            reveal_with_fuel(be_value, 2);
        }
        let content = match ContentType::from_wire_value(content_u8) {
            Some(c) => c,
            None => return Err(FromWireError::OutOfRange),
        };
        let content_len = match r.read_be::<u16>() {
            Ok(v) => v,
            Err(e) => return Err(FromWireError::from_io(e)),
        };
        let checksum = match r.read_be::<u8>() {
            Ok(v) => v,
            Err(e) => return Err(FromWireError::from_io(e)),
        };
        proof {
            assert(s.skip(1).take(2) =~= s.subrange(1, 3));
            assert(s.skip(1).skip(2) =~= s.skip(3));
            assert(s.skip(3).take(1)[0] == s[3]);
            assert(s.skip(3).skip(1) =~= s.skip(4));
        }
        Ok(Self { content, content_len, checksum })
    }

    /// Serializes `self` into `w`.
    pub fn to_wire<W: Write>(&self, w: &mut W) -> (res: Result<(), ToWireError>)
        requires
            old(w).can_write(),
        ensures
            final(w).can_write(),
            self.wire_bytes().len() <= old(w).room() ==> res == Ok::<(), ToWireError>(())
                && final(w).written() == old(w).written() + self.wire_bytes()
                && final(w).room() == old(w).room() - self.wire_bytes().len(),
            self.wire_bytes().len() > old(w).room() ==> res == Err::<(), ToWireError>(no_room()),
    {
        proof {
            lemma_be_bytes_len(self.content_len as nat, 2);
            reveal_with_fuel(be_bytes, 2);
        }
        let ghost start = w.written();
        if let Err(e) = w.write_be(self.content.to_wire_value()) {
            return Err(ToWireError::from_io(e));
        }
        if let Err(e) = w.write_be(self.content_len) {
            return Err(ToWireError::from_io(e));
        }
        if let Err(e) = w.write_be(self.checksum) {
            return Err(ToWireError::from_io(e));
        }
        proof {
            assert(w.written() =~= start + self.wire_bytes());
        }
        Ok(())
    }
}

impl<'a> FromWire<'a> for Header {
    fn from_wire<R: Read<'a>>(r: &mut R) -> (res: Result<Self, FromWireError>)
        ensures
            match Self::parse(old(r)@) {
                Ok((h, n)) => res == Ok::<Header, FromWireError>(h) && final(r)@ == old(r)@.skip(
                    n as int,
                ),
                Err(e) => res == Err::<Header, FromWireError>(e),
            },
    {
        Header::from_wire(r)
    }
}

impl ToWire for Header {
    fn to_wire<W: Write>(&self, w: &mut W) -> (res: Result<(), ToWireError>)
        ensures
            final(w).can_write(),
            self.wire_bytes().len() <= old(w).room() ==> res == Ok::<(), ToWireError>(())
                && final(w).written() == old(w).written() + self.wire_bytes()
                && final(w).room() == old(w).room() - self.wire_bytes().len(),
            self.wire_bytes().len() > old(w).room() ==> res == Err::<(), ToWireError>(no_room()),
    {
        Header::to_wire(self, w)
    }
}

/// A header survives a trip over the wire: reading what was written gives the
/// same header back and takes exactly its bytes, whatever follows.
pub proof fn lemma_header_roundtrip(h: Header, rest: Seq<u8>)
    ensures
        h.wire_bytes().len() == HEADER_LEN,
        Header::parse(h.wire_bytes() + rest) == Ok::<(Header, nat), FromWireError>((h, 4)),
{
    h.content.lemma_wire_value_roundtrip();
    lemma_be_bytes_len(h.content_len as nat, 2);
    lemma_byte_pow_values();
    lemma_be_value_of_bytes(h.content_len as nat, 2);
    let s = h.wire_bytes() + rest;
    assert(s.subrange(1, 3) =~= be_bytes(h.content_len as nat, 2));
}

/// Reading is exact: the bytes that a header was read from are the bytes that
/// the header writes.
pub proof fn lemma_header_canonical(s: Seq<u8>)
    ensures
        Header::parse(s) matches Ok((h, n)) ==> h.wire_bytes() == s.take(n as int),
{
    if let Ok((h, n)) = Header::parse(s) {
        ContentType::lemma_wire_value_canonical(s[0]);
        lemma_be_value_bound(s.subrange(1, 3));
        lemma_byte_pow_values();
        lemma_be_bytes_of_value(s.subrange(1, 3));
        assert(h.wire_bytes() =~= s.take(4));
    }
}


/// The protocol's bytes for the payload content types: Unknown 0xff, Error 0x00, Manticore 0x01, Firmware 0x02; no other byte names one.
pub proof fn lemma_content_type_wire_values(wire: u8)
    ensures
        ContentType::Unknown.spec_to_wire_value() == 0xffu8,
        ContentType::Error.spec_to_wire_value() == 0x00u8,
        ContentType::Manticore.spec_to_wire_value() == 0x01u8,
        ContentType::Firmware.spec_to_wire_value() == 0x02u8,
        ContentType::spec_from_wire_value(wire) is Some <==> (wire == 0xffu8 || wire == 0x00u8 || wire == 0x01u8 || wire == 0x02u8),
        ContentType::spec_from_wire_value(wire) matches Some(v) ==> v.spec_to_wire_value() == wire,
{
    ContentType::lemma_wire_value_canonical(wire);
}


/// The payload header on the wire is four bytes: the content type's byte,
/// the content length's high byte, then its low byte, then the checksum;
/// and a header read from four such bytes has that content length and
/// checksum.
pub proof fn lemma_payload_header_layout(h: Header, s: Seq<u8>)
    ensures
        h.wire_bytes().len() == 4,
        h.wire_bytes()[0] == h.content.spec_to_wire_value(),
        h.wire_bytes()[1] == h.content_len / 256,
        h.wire_bytes()[2] == h.content_len % 256,
        h.wire_bytes()[3] == h.checksum,
        Header::parse(s) matches Ok((p, n)) ==> n == 4 && p.content_len == s[1] * 256 + s[2] && p.checksum
            == s[3] && p.content.spec_to_wire_value() == s[0],
{
    reveal_with_fuel(be_bytes, 3);
    reveal_with_fuel(be_value, 3);
    if s.len() >= 4 {
        let l = s.subrange(1, 3);
        assert(l.drop_last() =~= s.subrange(1, 2));
        assert(l.drop_last().drop_last() =~= Seq::<u8>::empty());
        ContentType::lemma_wire_value_canonical(s[0]);
    }
}

} // verus!
