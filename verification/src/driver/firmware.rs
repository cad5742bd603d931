//! Firmware kernel interface: where each firmware segment lives.

use vstd::prelude::*;
use crate::driver::{be_u32_at, lemma_be_u32_at, lemma_be_u32_at_canonical, lemma_be_u32_at_digits, msb_first_at};
use crate::endian::{be_bytes, lemma_be_bytes_digits, lemma_be_bytes_len, msb_first4};
use crate::io::{Read, ReadInt, Write, WriteInt};
use crate::protocol::firmware::SegmentAndLocation;
use crate::wire::{exhausted, lemma_advance, no_room, FromWire, FromWireError, ToWire, ToWireError, WireEnum};

verus! {

/// The length of a SegmentInfo on the wire, in bytes.
pub const SEGMENT_INFO_LEN: usize = 17;

/// Information about a segment.
#[derive(Clone, Copy, PartialEq, Eq, Hash, Debug)]
pub struct SegmentInfo {
    /// The segment and location this info struct pertains to.
    pub identifier: SegmentAndLocation,
    /// The start address of the segment.
    pub address: u32,
    /// The size of the segment.
    pub size: u32,
    /// The start page of the segment.
    pub start_page: u32,
    /// The number of pages in the segment.
    pub page_count: u32,
}

/// The "unknown" segment.
pub fn unknown_segment() -> (s: SegmentInfo)
    ensures
        s == (SegmentInfo {
            identifier: SegmentAndLocation::Unknown,
            address: 0,
            size: 0,
            start_page: 0,
            page_count: 0,
        }),
{
    SegmentInfo {
        identifier: SegmentAndLocation::Unknown,
        address: 0,
        size: 0,
        start_page: 0,
        page_count: 0,
    }
}

impl SegmentInfo {
    /// The segment information's bytes on the wire.
    pub open spec fn wire_bytes(self) -> Seq<u8> {
        seq![self.identifier.spec_to_wire_value()] + be_bytes(self.address as nat, 4) + be_bytes(
            self.size as nat,
            4,
        ) + be_bytes(self.start_page as nat, 4) + be_bytes(self.page_count as nat, 4)
    }

    /// What reading segment information from `s` gives.
    pub open spec fn parse(s: Seq<u8>) -> Result<(SegmentInfo, nat), FromWireError> {
        if s.len() < 1 {
            Err(exhausted())
        } else if SegmentAndLocation::spec_from_wire_value(s[0]) is None {
            Err(FromWireError::OutOfRange)
        } else if s.len() < 17 {
            Err(exhausted())
        } else {
            Ok(
                (
                    SegmentInfo {
                        identifier: SegmentAndLocation::spec_from_wire_value(s[0]).unwrap(),
                        address: be_u32_at(s, 1),
                        size: be_u32_at(s, 5),
                        start_page: be_u32_at(s, 9),
                        page_count: be_u32_at(s, 13),
                    },
                    17,
                ),
            )
        }
    }
}

impl<'a> FromWire<'a> for SegmentInfo {
    fn from_wire<R: Read<'a>>(r: &mut R) -> (res: Result<Self, FromWireError>)
        ensures
            match Self::parse(old(r)@) {
                Ok((v, n)) => res == Ok::<SegmentInfo, FromWireError>(v) && final(r)@ == old(
                    r,
                )@.skip(n as int),
                Err(e) => res == Err::<SegmentInfo, FromWireError>(e),
            },
    {
        let ghost s = r@;
        let sal_u8 = match r.read_be::<u8>() {
            Ok(v) => v,
            Err(e) => return Err(FromWireError::from_io(e)),
        };
        proof {
            reveal_with_fuel(crate::endian::be_value, 2);
            lemma_advance(s, 0, 1);
        }
        let identifier = match SegmentAndLocation::from_wire_value(sal_u8) {
            Some(v) => v,
            None => return Err(FromWireError::OutOfRange),
        };
        let address = match r.read_be::<u32>() {
            Ok(v) => v,
            Err(e) => return Err(FromWireError::from_io(e)),
        };
        proof { lemma_advance(s, 1, 4); }
        let size = match r.read_be::<u32>() {
            Ok(v) => v,
            Err(e) => return Err(FromWireError::from_io(e)),
        };
        proof { lemma_advance(s, 5, 4); }
        let start_page = match r.read_be::<u32>() {
            Ok(v) => v,
            Err(e) => return Err(FromWireError::from_io(e)),
        };
        proof { lemma_advance(s, 9, 4); }
        let page_count = match r.read_be::<u32>() {
            Ok(v) => v,
            Err(e) => return Err(FromWireError::from_io(e)),
        };
        proof { lemma_advance(s, 13, 4); }
        Ok(Self { identifier, address, size, start_page, page_count })
    }
}

impl ToWire for SegmentInfo {
    fn to_wire<W: Write>(&self, w: &mut W) -> (res: Result<(), ToWireError>)
        ensures
            final(w).can_write(),
            self.wire_bytes().len() <= old(w).room() ==> res == Ok::<(), ToWireError>(())
                && final(w).written() == old(w).written() + self.wire_bytes()
                && final(w).room() == old(w).room() - self.wire_bytes().len(),
            self.wire_bytes().len() > old(w).room() ==> res == Err::<(), ToWireError>(no_room()),
    {
        proof {
            lemma_be_bytes_len(self.address as nat, 4);
            lemma_be_bytes_len(self.size as nat, 4);
            lemma_be_bytes_len(self.start_page as nat, 4);
            lemma_be_bytes_len(self.page_count as nat, 4);
            reveal_with_fuel(be_bytes, 2);
        }
        let ghost start = w.written();
        if let Err(e) = w.write_be(self.identifier.to_wire_value()) {
            return Err(ToWireError::from_io(e));
        }
        if let Err(e) = w.write_be(self.address) {
            return Err(ToWireError::from_io(e));
        }
        if let Err(e) = w.write_be(self.size) {
            return Err(ToWireError::from_io(e));
        }
        if let Err(e) = w.write_be(self.start_page) {
            return Err(ToWireError::from_io(e));
        }
        if let Err(e) = w.write_be(self.page_count) {
            return Err(ToWireError::from_io(e));
        }
        proof {
            assert(w.written() =~= start + self.wire_bytes());
        }
        Ok(())
    }
}

/// Segment information survives a trip over the wire.
pub proof fn lemma_segment_info_roundtrip(v: SegmentInfo, rest: Seq<u8>)
    ensures
        v.wire_bytes().len() == SEGMENT_INFO_LEN,
        SegmentInfo::parse(v.wire_bytes() + rest) == Ok::<(SegmentInfo, nat), FromWireError>(
            (v, 17),
        ),
{
    v.identifier.lemma_wire_value_roundtrip();
    lemma_be_bytes_len(v.address as nat, 4);
    lemma_be_bytes_len(v.size as nat, 4);
    lemma_be_bytes_len(v.start_page as nat, 4);
    lemma_be_bytes_len(v.page_count as nat, 4);
    let s = v.wire_bytes() + rest;
    assert(s.subrange(1, 5) =~= be_bytes(v.address as nat, 4));
    assert(s.subrange(5, 9) =~= be_bytes(v.size as nat, 4));
    assert(s.subrange(9, 13) =~= be_bytes(v.start_page as nat, 4));
    assert(s.subrange(13, 17) =~= be_bytes(v.page_count as nat, 4));
    lemma_be_u32_at(s, 1, v.address);
    lemma_be_u32_at(s, 5, v.size);
    lemma_be_u32_at(s, 9, v.start_page);
    lemma_be_u32_at(s, 13, v.page_count);
}

/// Reading segment information is exact: the bytes it was read from are the
/// bytes it writes.
pub proof fn lemma_segment_info_canonical(s: Seq<u8>)
    ensures
        SegmentInfo::parse(s) matches Ok((v, n)) ==> v.wire_bytes() == s.take(n as int),
{
    if let Ok((v, n)) = SegmentInfo::parse(s) {
        SegmentAndLocation::lemma_wire_value_canonical(s[0]);
        lemma_be_u32_at_canonical(s, 1);
        lemma_be_u32_at_canonical(s, 5);
        lemma_be_u32_at_canonical(s, 9);
        lemma_be_u32_at_canonical(s, 13);
        assert(v.wire_bytes() =~= s.take(17));
    }
}

// ----------------------------------------------------------------------------

/// The length of a RuntimeSegmentInfo on the wire, in bytes.
pub const RUNTIME_SEGMENT_INFO_LEN: usize = 68;

/// Information about segments at runtime.
#[derive(Clone, Copy, PartialEq, Eq, Hash, Debug)]
pub struct RuntimeSegmentInfo {
    /// The active RO.
    pub active_ro: SegmentInfo,
    /// The active RW.
    pub active_rw: SegmentInfo,
    /// The inactive RO.
    pub inactive_ro: SegmentInfo,
    /// The inactive RW.
    pub inactive_rw: SegmentInfo,
}

/// The "unknown" runtime segment information: every segment unknown.
pub fn unknown_runtime_segment_info() -> (s: RuntimeSegmentInfo)
    ensures
        s.active_ro == unknown_segment_spec(),
        s.active_rw == unknown_segment_spec(),
        s.inactive_ro == unknown_segment_spec(),
        s.inactive_rw == unknown_segment_spec(),
{
    RuntimeSegmentInfo {
        active_ro: unknown_segment(),
        active_rw: unknown_segment(),
        inactive_ro: unknown_segment(),
        inactive_rw: unknown_segment(),
    }
}

/// The value of the "unknown" segment.
pub open spec fn unknown_segment_spec() -> SegmentInfo {
    SegmentInfo {
        identifier: SegmentAndLocation::Unknown,
        address: 0,
        size: 0,
        start_page: 0,
        page_count: 0,
    }
}

impl RuntimeSegmentInfo {
    /// The four segments' bytes on the wire, in field order.
    pub open spec fn wire_bytes(self) -> Seq<u8> {
        self.active_ro.wire_bytes() + self.active_rw.wire_bytes() + self.inactive_ro.wire_bytes()
            + self.inactive_rw.wire_bytes()
    }

    /// What reading runtime segment information from `s` gives.
    pub open spec fn parse(s: Seq<u8>) -> Result<(RuntimeSegmentInfo, nat), FromWireError> {
        match SegmentInfo::parse(s) {
            Err(e) => Err(e),
            Ok((a, _)) => match SegmentInfo::parse(s.skip(17)) {
                Err(e) => Err(e),
                Ok((b, _)) => match SegmentInfo::parse(s.skip(34)) {
                    Err(e) => Err(e),
                    Ok((c, _)) => match SegmentInfo::parse(s.skip(51)) {
                        Err(e) => Err(e),
                        Ok((d, _)) => Ok(
                            (
                                RuntimeSegmentInfo {
                                    active_ro: a,
                                    active_rw: b,
                                    inactive_ro: c,
                                    inactive_rw: d,
                                },
                                68,
                            ),
                        ),
                    },
                },
            },
        }
    }
}

impl<'a> FromWire<'a> for RuntimeSegmentInfo {
    fn from_wire<R: Read<'a>>(r: &mut R) -> (res: Result<Self, FromWireError>)
        ensures
            match Self::parse(old(r)@) {
                Ok((v, n)) => res == Ok::<RuntimeSegmentInfo, FromWireError>(v) && final(r)@
                    == old(r)@.skip(n as int),
                Err(e) => res == Err::<RuntimeSegmentInfo, FromWireError>(e),
            },
    {
        let ghost s = r@;
        let active_ro = match SegmentInfo::from_wire(r) {
            Ok(v) => v,
            Err(e) => return Err(e),
        };
        let active_rw = match SegmentInfo::from_wire(r) {
            Ok(v) => v,
            Err(e) => return Err(e),
        };
        proof { assert(s.skip(17).skip(17) =~= s.skip(34)); }
        let inactive_ro = match SegmentInfo::from_wire(r) {
            Ok(v) => v,
            Err(e) => return Err(e),
        };
        proof { assert(s.skip(34).skip(17) =~= s.skip(51)); }
        let inactive_rw = match SegmentInfo::from_wire(r) {
            Ok(v) => v,
            Err(e) => return Err(e),
        };
        proof { assert(s.skip(51).skip(17) =~= s.skip(68)); }
        Ok(Self { active_ro, active_rw, inactive_ro, inactive_rw })
    }
}

impl ToWire for RuntimeSegmentInfo {
    fn to_wire<W: Write>(&self, w: &mut W) -> (res: Result<(), ToWireError>)
        ensures
            final(w).can_write(),
            self.wire_bytes().len() <= old(w).room() ==> res == Ok::<(), ToWireError>(())
                && final(w).written() == old(w).written() + self.wire_bytes()
                && final(w).room() == old(w).room() - self.wire_bytes().len(),
            self.wire_bytes().len() > old(w).room() ==> res == Err::<(), ToWireError>(no_room()),
    {
        proof {
            lemma_segment_info_roundtrip(self.active_ro, Seq::empty());
            lemma_segment_info_roundtrip(self.active_rw, Seq::empty());
            lemma_segment_info_roundtrip(self.inactive_ro, Seq::empty());
            lemma_segment_info_roundtrip(self.inactive_rw, Seq::empty());
        }
        let ghost start = w.written();
        if let Err(e) = self.active_ro.to_wire(w) {
            return Err(e);
        }
        if let Err(e) = self.active_rw.to_wire(w) {
            return Err(e);
        }
        if let Err(e) = self.inactive_ro.to_wire(w) {
            return Err(e);
        }
        if let Err(e) = self.inactive_rw.to_wire(w) {
            return Err(e);
        }
        proof {
            assert(w.written() =~= start + self.wire_bytes());
        }
        Ok(())
    }
}

/// Runtime segment information survives a trip over the wire.
pub proof fn lemma_runtime_segment_info_roundtrip(v: RuntimeSegmentInfo, rest: Seq<u8>)
    ensures
        v.wire_bytes().len() == RUNTIME_SEGMENT_INFO_LEN,
        RuntimeSegmentInfo::parse(v.wire_bytes() + rest) == Ok::<
            (RuntimeSegmentInfo, nat),
            FromWireError,
        >((v, 68)),
{
    let a = v.active_ro.wire_bytes();
    let b = v.active_rw.wire_bytes();
    let c = v.inactive_ro.wire_bytes();
    let d = v.inactive_rw.wire_bytes();
    let s = v.wire_bytes() + rest;
    lemma_segment_info_roundtrip(v.active_ro, b + c + d + rest);
    lemma_segment_info_roundtrip(v.active_rw, c + d + rest);
    lemma_segment_info_roundtrip(v.inactive_ro, d + rest);
    lemma_segment_info_roundtrip(v.inactive_rw, rest);
    assert(s =~= a + (b + c + d + rest));
    assert(s.skip(17) =~= b + (c + d + rest));
    assert(s.skip(34) =~= c + (d + rest));
    assert(s.skip(51) =~= d + rest);
}

/// Reading runtime segment information is exact.
pub proof fn lemma_runtime_segment_info_canonical(s: Seq<u8>)
    ensures
        RuntimeSegmentInfo::parse(s) matches Ok((v, n)) ==> v.wire_bytes() == s.take(n as int),
{
    if let Ok((v, n)) = RuntimeSegmentInfo::parse(s) {
        lemma_segment_info_canonical(s);
        lemma_segment_info_canonical(s.skip(17));
        lemma_segment_info_canonical(s.skip(34));
        lemma_segment_info_canonical(s.skip(51));
        assert(v.wire_bytes() =~= s.take(68));
    }
}


/// Segment information on the wire is the segment's byte, then address,
/// size, start page and page count, each most significant byte first;
/// reading it takes each number from its four bytes the same way.
pub proof fn lemma_segment_info_layout(v: SegmentInfo, s: Seq<u8>)
    ensures
        v.wire_bytes() == seq![v.identifier.spec_to_wire_value()] + msb_first4(v.address) + msb_first4(v.size)
            + msb_first4(v.start_page) + msb_first4(v.page_count),
        SegmentInfo::parse(s) matches Ok((p, _)) ==> p.address == msb_first_at(s, 1) && p.size
            == msb_first_at(s, 5) && p.start_page == msb_first_at(s, 9) && p.page_count == msb_first_at(s, 13),
{
    lemma_be_bytes_digits(v.address, 0);
    lemma_be_bytes_digits(v.size, 0);
    lemma_be_bytes_digits(v.start_page, 0);
    lemma_be_bytes_digits(v.page_count, 0);
    if s.len() >= 17 {
        lemma_be_u32_at_digits(s, 1);
        lemma_be_u32_at_digits(s, 5);
        lemma_be_u32_at_digits(s, 9);
        lemma_be_u32_at_digits(s, 13);
    }
}

} // verus!
