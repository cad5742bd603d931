//! Firmware update protocol messages.

use vstd::prelude::*;
use crate::compat::firmware::{lemma_build_info_canonical, lemma_build_info_roundtrip, BuildInfo, BUILD_INFO_LEN};
use crate::driver::{be_u32_at, lemma_be_u32_at, lemma_be_u32_at_canonical};
use crate::driver::firmware::{lemma_segment_info_canonical, lemma_segment_info_roundtrip, SegmentInfo, SEGMENT_INFO_LEN};
use crate::endian::{be_bytes, be_value, lemma_be_bytes_digits, lemma_be_bytes_len, lemma_be_bytes_of_value, lemma_be_value_bound, lemma_be_value_digits, lemma_be_value_of_bytes, lemma_byte_pow_values, msb_first2, msb_first4};
use crate::io::{Read, ReadInt, Write, WriteInt};
use crate::wire::{exhausted, lemma_advance, no_room, FromWire, FromWireError, ToWire, ToWireError, WireEnum};

verus! {

/// The content type of a firmware message.
#[derive(Clone, Copy, PartialEq, Eq, Hash, Debug)]
pub enum ContentType {
    /// Request to prepare for an update
    UpdatePrepareRequest,
    /// Response to PrepareRequest
    UpdatePrepareResponse,
    /// Request to write a chunk of firmware
    WriteChunkRequest,
    /// Response to WriteChunkRequest
    WriteChunkResponse,
    /// Request information on inactive segments
    InactiveSegmentsInfoRequest,
    /// Response to InactiveSegmentsInfoRequest
    InactiveSegmentsInfoResponse,
    /// Request to reboot
    RebootRequest,
    /// Response to RebootRequest
    RebootResponse,
}

impl WireEnum for ContentType {
    open spec fn spec_to_wire_value(self) -> u8 {
        match self {
            ContentType::UpdatePrepareRequest => 0x01,
            ContentType::UpdatePrepareResponse => 0x02,
            ContentType::WriteChunkRequest => 0x03,
            ContentType::WriteChunkResponse => 0x04,
            ContentType::InactiveSegmentsInfoRequest => 0x05,
            ContentType::InactiveSegmentsInfoResponse => 0x06,
            ContentType::RebootRequest => 0x07,
            ContentType::RebootResponse => 0x08,
        }
    }

    open spec fn spec_from_wire_value(wire: u8) -> Option<Self> {
        if wire == 0x01 {
            Some(ContentType::UpdatePrepareRequest)
        } else if wire == 0x02 {
            Some(ContentType::UpdatePrepareResponse)
        } else if wire == 0x03 {
            Some(ContentType::WriteChunkRequest)
        } else if wire == 0x04 {
            Some(ContentType::WriteChunkResponse)
        } else if wire == 0x05 {
            Some(ContentType::InactiveSegmentsInfoRequest)
        } else if wire == 0x06 {
            Some(ContentType::InactiveSegmentsInfoResponse)
        } else if wire == 0x07 {
            Some(ContentType::RebootRequest)
        } else if wire == 0x08 {
            Some(ContentType::RebootResponse)
        } else {
            None
        }
    }

    fn to_wire_value(self) -> (r: u8) {
        match self {
            ContentType::UpdatePrepareRequest => 0x01,
            ContentType::UpdatePrepareResponse => 0x02,
            ContentType::WriteChunkRequest => 0x03,
            ContentType::WriteChunkResponse => 0x04,
            ContentType::InactiveSegmentsInfoRequest => 0x05,
            ContentType::InactiveSegmentsInfoResponse => 0x06,
            ContentType::RebootRequest => 0x07,
            ContentType::RebootResponse => 0x08,
        }
    }

    fn from_wire_value(wire: u8) -> (r: Option<Self>) {
        match wire {
            0x01 => Some(ContentType::UpdatePrepareRequest),
            0x02 => Some(ContentType::UpdatePrepareResponse),
            0x03 => Some(ContentType::WriteChunkRequest),
            0x04 => Some(ContentType::WriteChunkResponse),
            0x05 => Some(ContentType::InactiveSegmentsInfoRequest),
            0x06 => Some(ContentType::InactiveSegmentsInfoResponse),
            0x07 => Some(ContentType::RebootRequest),
            0x08 => Some(ContentType::RebootResponse),
            _ => None,
        }
    }

    proof fn lemma_wire_value_roundtrip(self) {
    }

    proof fn lemma_wire_value_canonical(wire: u8) {
    }
}

/// Identifier for a segment and location.
#[derive(Clone, Copy, PartialEq, Eq, Hash, Debug)]
pub enum SegmentAndLocation {
    /// Unknown segment.
    Unknown,
    /// RO in location A
    RoA,
    /// RO in location B
    RoB,
    /// RW in location A
    RwA,
    /// RW in location B
    RwB,
}

impl WireEnum for SegmentAndLocation {
    open spec fn spec_to_wire_value(self) -> u8 {
        match self {
            SegmentAndLocation::Unknown => 0xff,
            SegmentAndLocation::RoA => 0x01,
            SegmentAndLocation::RoB => 0x02,
            SegmentAndLocation::RwA => 0x03,
            SegmentAndLocation::RwB => 0x04,
        }
    }

    open spec fn spec_from_wire_value(wire: u8) -> Option<Self> {
        if wire == 0xff {
            Some(SegmentAndLocation::Unknown)
        } else if wire == 0x01 {
            Some(SegmentAndLocation::RoA)
        } else if wire == 0x02 {
            Some(SegmentAndLocation::RoB)
        } else if wire == 0x03 {
            Some(SegmentAndLocation::RwA)
        } else if wire == 0x04 {
            Some(SegmentAndLocation::RwB)
        } else {
            None
        }
    }

    fn to_wire_value(self) -> (r: u8) {
        match self {
            SegmentAndLocation::Unknown => 0xff,
            SegmentAndLocation::RoA => 0x01,
            SegmentAndLocation::RoB => 0x02,
            SegmentAndLocation::RwA => 0x03,
            SegmentAndLocation::RwB => 0x04,
        }
    }

    fn from_wire_value(wire: u8) -> (r: Option<Self>) {
        match wire {
            0xff => Some(SegmentAndLocation::Unknown),
            0x01 => Some(SegmentAndLocation::RoA),
            0x02 => Some(SegmentAndLocation::RoB),
            0x03 => Some(SegmentAndLocation::RwA),
            0x04 => Some(SegmentAndLocation::RwB),
            _ => None,
        }
    }

    proof fn lemma_wire_value_roundtrip(self) {
    }

    proof fn lemma_wire_value_canonical(wire: u8) {
    }
}

/// The result of an update prepare request.
#[derive(Clone, Copy, PartialEq, Eq, Hash, Debug)]
pub enum UpdatePrepareResult {
    /// Success
    Success,
    /// Unspecified error
    Error,
    /// Invalid segment and/or location
    InvalidSegmentAndLocation,
}

impl WireEnum for UpdatePrepareResult {
    open spec fn spec_to_wire_value(self) -> u8 {
        match self {
            UpdatePrepareResult::Success => 0x00,
            UpdatePrepareResult::Error => 0x01,
            UpdatePrepareResult::InvalidSegmentAndLocation => 0x02,
        }
    }

    open spec fn spec_from_wire_value(wire: u8) -> Option<Self> {
        if wire == 0x00 {
            Some(UpdatePrepareResult::Success)
        } else if wire == 0x01 {
            Some(UpdatePrepareResult::Error)
        } else if wire == 0x02 {
            Some(UpdatePrepareResult::InvalidSegmentAndLocation)
        } else {
            None
        }
    }

    fn to_wire_value(self) -> (r: u8) {
        match self {
            UpdatePrepareResult::Success => 0x00,
            UpdatePrepareResult::Error => 0x01,
            UpdatePrepareResult::InvalidSegmentAndLocation => 0x02,
        }
    }

    fn from_wire_value(wire: u8) -> (r: Option<Self>) {
        match wire {
            0x00 => Some(UpdatePrepareResult::Success),
            0x01 => Some(UpdatePrepareResult::Error),
            0x02 => Some(UpdatePrepareResult::InvalidSegmentAndLocation),
            _ => None,
        }
    }

    proof fn lemma_wire_value_roundtrip(self) {
    }

    proof fn lemma_wire_value_canonical(wire: u8) {
    }
}

/// The result of a write chunk request.
#[derive(Clone, Copy, PartialEq, Eq, Hash, Debug)]
pub enum WriteChunkResult {
    /// Success
    Success,
    /// Unspecified error
    Error,
    /// Invalid segment and/or location
    InvalidSegmentAndLocation,
    /// Invalid offset
    InvalidOffset,
    /// Too much data
    DataTooLong,
    /// Post-write compare failed
    CompareFailed,
}

impl WireEnum for WriteChunkResult {
    open spec fn spec_to_wire_value(self) -> u8 {
        match self {
            WriteChunkResult::Success => 0x00,
            WriteChunkResult::Error => 0x01,
            WriteChunkResult::InvalidSegmentAndLocation => 0x02,
            WriteChunkResult::InvalidOffset => 0x03,
            WriteChunkResult::DataTooLong => 0x04,
            WriteChunkResult::CompareFailed => 0x05,
        }
    }

    open spec fn spec_from_wire_value(wire: u8) -> Option<Self> {
        if wire == 0x00 {
            Some(WriteChunkResult::Success)
        } else if wire == 0x01 {
            Some(WriteChunkResult::Error)
        } else if wire == 0x02 {
            Some(WriteChunkResult::InvalidSegmentAndLocation)
        } else if wire == 0x03 {
            Some(WriteChunkResult::InvalidOffset)
        } else if wire == 0x04 {
            Some(WriteChunkResult::DataTooLong)
        } else if wire == 0x05 {
            Some(WriteChunkResult::CompareFailed)
        } else {
            None
        }
    }

    fn to_wire_value(self) -> (r: u8) {
        match self {
            WriteChunkResult::Success => 0x00,
            WriteChunkResult::Error => 0x01,
            WriteChunkResult::InvalidSegmentAndLocation => 0x02,
            WriteChunkResult::InvalidOffset => 0x03,
            WriteChunkResult::DataTooLong => 0x04,
            WriteChunkResult::CompareFailed => 0x05,
        }
    }

    fn from_wire_value(wire: u8) -> (r: Option<Self>) {
        match wire {
            0x00 => Some(WriteChunkResult::Success),
            0x01 => Some(WriteChunkResult::Error),
            0x02 => Some(WriteChunkResult::InvalidSegmentAndLocation),
            0x03 => Some(WriteChunkResult::InvalidOffset),
            0x04 => Some(WriteChunkResult::DataTooLong),
            0x05 => Some(WriteChunkResult::CompareFailed),
            _ => None,
        }
    }

    proof fn lemma_wire_value_roundtrip(self) {
    }

    proof fn lemma_wire_value_canonical(wire: u8) {
    }
}

/// When to perform the reboot.
#[derive(Clone, Copy, PartialEq, Eq, Hash, Debug)]
pub enum RebootTime {
    /// Reboot immediately
    Immediate,
    /// Reboot after a delay or when the BMC resets.
    Delayed,
}

impl WireEnum for RebootTime {
    open spec fn spec_to_wire_value(self) -> u8 {
        match self {
            RebootTime::Immediate => 0x00,
            RebootTime::Delayed => 0x01,
        }
    }

    open spec fn spec_from_wire_value(wire: u8) -> Option<Self> {
        if wire == 0x00 {
            Some(RebootTime::Immediate)
        } else if wire == 0x01 {
            Some(RebootTime::Delayed)
        } else {
            None
        }
    }

    fn to_wire_value(self) -> (r: u8) {
        match self {
            RebootTime::Immediate => 0x00,
            RebootTime::Delayed => 0x01,
        }
    }

    fn from_wire_value(wire: u8) -> (r: Option<Self>) {
        match wire {
            0x00 => Some(RebootTime::Immediate),
            0x01 => Some(RebootTime::Delayed),
            _ => None,
        }
    }

    proof fn lemma_wire_value_roundtrip(self) {
    }

    proof fn lemma_wire_value_canonical(wire: u8) {
    }
}

/// The result of a reboot request.
#[derive(Clone, Copy, PartialEq, Eq, Hash, Debug)]
pub enum RebootResult {
    /// Success
    Success,
    /// Unspecified error
    Error,
}

impl WireEnum for RebootResult {
    open spec fn spec_to_wire_value(self) -> u8 {
        match self {
            RebootResult::Success => 0x00,
            RebootResult::Error => 0x01,
        }
    }

    open spec fn spec_from_wire_value(wire: u8) -> Option<Self> {
        if wire == 0x00 {
            Some(RebootResult::Success)
        } else if wire == 0x01 {
            Some(RebootResult::Error)
        } else {
            None
        }
    }

    fn to_wire_value(self) -> (r: u8) {
        match self {
            RebootResult::Success => 0x00,
            RebootResult::Error => 0x01,
        }
    }

    fn from_wire_value(wire: u8) -> (r: Option<Self>) {
        match wire {
            0x00 => Some(RebootResult::Success),
            0x01 => Some(RebootResult::Error),
            _ => None,
        }
    }

    proof fn lemma_wire_value_roundtrip(self) {
    }

    proof fn lemma_wire_value_canonical(wire: u8) {
    }
}

/// The `WireEnum` value that byte `k` of `s` encodes.
pub open spec fn sal_at(s: Seq<u8>, k: int) -> Option<SegmentAndLocation> {
    SegmentAndLocation::spec_from_wire_value(s[k])
}

// ----------------------------------------------------------------------------

/// A parsed header.
#[derive(Clone, Copy, PartialEq, Eq, Hash, Debug)]
pub struct Header {
    /// The content type following the header.
    pub content: ContentType,
}

/// The length of a firmware header on the wire, in bytes.
pub const HEADER_LEN: usize = 1;

impl Header {
    /// The header's bytes on the wire.
    pub open spec fn wire_bytes(self) -> Seq<u8> {
        seq![self.content.spec_to_wire_value()]
    }

    /// What reading a header from `s` gives.
    pub open spec fn parse(s: Seq<u8>) -> Result<(Header, nat), FromWireError> {
        if s.len() < 1 {
            Err(exhausted())
        } else {
            match ContentType::spec_from_wire_value(s[0]) {
                None => Err(FromWireError::OutOfRange),
                Some(c) => Ok((Header { content: c }, 1)),
            }
        }
    }
}

impl<'a> FromWire<'a> for Header {
    fn from_wire<R: Read<'a>>(r: &mut R) -> (res: Result<Self, FromWireError>)
        ensures
            match Self::parse(old(r)@) {
                Ok((v, n)) => res == Ok::<Header, FromWireError>(v) && final(r)@ == old(r)@.skip(
                    n as int,
                ),
                Err(e) => res == Err::<Header, FromWireError>(e),
            },
    {
        let content_u8 = match r.read_be::<u8>() {
            Ok(v) => v,
            Err(e) => return Err(FromWireError::from_io(e)),
        };
        proof {
            reveal_with_fuel(be_value, 2);
        }
        let content = match ContentType::from_wire_value(content_u8) {
            Some(c) => c,
            None => return Err(FromWireError::OutOfRange),
        };
        Ok(Self { content })
    }
}

impl ToWire for Header {
    fn to_wire<W: Write>(&self, w: &mut W) -> (res: Result<(), ToWireError>)
        ensures
            final(w).can_write(),
            self.wire_bytes().len() <= old(w).room() ==> res == Ok::<(), ToWireError>(())
                && final(w).written() == old(w).written() + self.wire_bytes()
                && final(w).room() == old(w).room() - self.wire_bytes().len(),
            self.wire_bytes().len() > old(w).room() ==> res == Err::<(), ToWireError>(no_room()),
    {
        proof {
            reveal_with_fuel(be_bytes, 2);
        }
        match w.write_be(self.content.to_wire_value()) {
            Ok(()) => Ok(()),
            Err(e) => Err(ToWireError::from_io(e)),
        }
    }
}

/// A header survives a trip over the wire.
pub proof fn lemma_header_roundtrip(v: Header, rest: Seq<u8>)
    ensures
        Header::parse(v.wire_bytes() + rest) == Ok::<(Header, nat), FromWireError>((v, 1)),
{
    v.content.lemma_wire_value_roundtrip();
    assert((v.wire_bytes() + rest)[0] == v.content.spec_to_wire_value());
}

/// Reading a header is exact.
pub proof fn lemma_header_canonical(s: Seq<u8>)
    ensures
        Header::parse(s) matches Ok((v, n)) ==> v.wire_bytes() == s.take(n as int),
{
    if s.len() >= 1 {
        ContentType::lemma_wire_value_canonical(s[0]);
        if let Ok((v, n)) = Header::parse(s) {
            assert(v.wire_bytes() =~= s.take(1));
        }
    }
}

// ----------------------------------------------------------------------------

/// A message, identified by a [`ContentType`].
pub trait Message<'req>: FromWire<'req> + ToWire {
    /// The unique [`ContentType`] for this `Message`.
    fn message_type() -> ContentType;
}

// ----------------------------------------------------------------------------

/// A parsed inactive segments info request.
#[derive(Clone, Copy, PartialEq, Eq, Hash, Debug)]
pub struct InactiveSegmentsInfoRequest {}

/// The length of an inactive segments info request on the wire, in bytes.
pub const INACTIVE_SEGMENTS_INFO_REQUEST_LEN: usize = 0;

impl Message<'_> for InactiveSegmentsInfoRequest {
    fn message_type() -> (t: ContentType)
        ensures
            t == ContentType::InactiveSegmentsInfoRequest,
    {
        ContentType::InactiveSegmentsInfoRequest
    }
}

impl<'a> FromWire<'a> for InactiveSegmentsInfoRequest {
    fn from_wire<R: Read<'a>>(r: &mut R) -> (res: Result<Self, FromWireError>)
        ensures
            res == Ok::<InactiveSegmentsInfoRequest, FromWireError>(InactiveSegmentsInfoRequest {  }),
            final(r)@ == old(r)@,
    {
        Ok(Self {})
    }
}

impl ToWire for InactiveSegmentsInfoRequest {
    fn to_wire<W: Write>(&self, w: &mut W) -> (res: Result<(), ToWireError>)
        ensures
            res == Ok::<(), ToWireError>(()),
            *final(w) == *old(w),
    {
        Ok(())
    }
}

// ----------------------------------------------------------------------------

/// A parsed inactive segments info response.
#[derive(Clone, Copy, PartialEq, Eq, Hash, Debug)]
pub struct InactiveSegmentsInfoResponse {
    /// The inactive RO.
    pub ro: SegmentInfo,
    /// The inactive RW.
    pub rw: SegmentInfo,
}

/// The length of an inactive segments info response on the wire, in bytes.
pub const INACTIVE_SEGMENTS_INFO_RESPONSE_LEN: usize = 34;

impl Message<'_> for InactiveSegmentsInfoResponse {
    fn message_type() -> (t: ContentType)
        ensures
            t == ContentType::InactiveSegmentsInfoResponse,
    {
        ContentType::InactiveSegmentsInfoResponse
    }
}

impl InactiveSegmentsInfoResponse {
    /// The response's bytes on the wire.
    pub open spec fn wire_bytes(self) -> Seq<u8> {
        self.ro.wire_bytes() + self.rw.wire_bytes()
    }

    /// What reading a response from `s` gives.
    pub open spec fn parse(s: Seq<u8>) -> Result<(InactiveSegmentsInfoResponse, nat), FromWireError> {
        match SegmentInfo::parse(s) {
            Err(e) => Err(e),
            Ok((ro, _)) => match SegmentInfo::parse(s.skip(17)) {
                Err(e) => Err(e),
                Ok((rw, _)) => Ok((InactiveSegmentsInfoResponse { ro, rw }, 34)),
            },
        }
    }
}

impl<'a> FromWire<'a> for InactiveSegmentsInfoResponse {
    fn from_wire<R: Read<'a>>(r: &mut R) -> (res: Result<Self, FromWireError>)
        ensures
            match Self::parse(old(r)@) {
                Ok((v, n)) => res == Ok::<InactiveSegmentsInfoResponse, FromWireError>(v)
                    && final(r)@ == old(r)@.skip(n as int),
                Err(e) => res == Err::<InactiveSegmentsInfoResponse, FromWireError>(e),
            },
    {
        let ghost s = r@;
        let ro = match SegmentInfo::from_wire(r) {
            Ok(v) => v,
            Err(e) => return Err(e),
        };
        let rw = match SegmentInfo::from_wire(r) {
            Ok(v) => v,
            Err(e) => return Err(e),
        };
        proof { assert(s.skip(17).skip(17) =~= s.skip(34)); }
        Ok(Self { ro, rw })
    }
}

impl ToWire for InactiveSegmentsInfoResponse {
    fn to_wire<W: Write>(&self, w: &mut W) -> (res: Result<(), ToWireError>)
        ensures
            final(w).can_write(),
            self.wire_bytes().len() <= old(w).room() ==> res == Ok::<(), ToWireError>(())
                && final(w).written() == old(w).written() + self.wire_bytes()
                && final(w).room() == old(w).room() - self.wire_bytes().len(),
            self.wire_bytes().len() > old(w).room() ==> res == Err::<(), ToWireError>(no_room()),
    {
        proof {
            lemma_segment_info_roundtrip(self.ro, Seq::empty());
            lemma_segment_info_roundtrip(self.rw, Seq::empty());
        }
        let ghost start = w.written();
        if let Err(e) = self.ro.to_wire(w) {
            return Err(e);
        }
        if let Err(e) = self.rw.to_wire(w) {
            return Err(e);
        }
        proof {
            assert(w.written() =~= start + self.wire_bytes());
        }
        Ok(())
    }
}

/// An inactive segments info response survives a trip over the wire.
pub proof fn lemma_inactive_segments_info_response_roundtrip(
    v: InactiveSegmentsInfoResponse,
    rest: Seq<u8>,
)
    ensures
        v.wire_bytes().len() == INACTIVE_SEGMENTS_INFO_RESPONSE_LEN,
        InactiveSegmentsInfoResponse::parse(v.wire_bytes() + rest) == Ok::<
            (InactiveSegmentsInfoResponse, nat),
            FromWireError,
        >((v, 34)),
{
    let a = v.ro.wire_bytes();
    let b = v.rw.wire_bytes();
    lemma_segment_info_roundtrip(v.ro, b + rest);
    lemma_segment_info_roundtrip(v.rw, rest);
    assert(v.wire_bytes() + rest =~= a + (b + rest));
    assert((v.wire_bytes() + rest).skip(17) =~= b + rest);
}

/// Reading an inactive segments info response is exact.
pub proof fn lemma_inactive_segments_info_response_canonical(s: Seq<u8>)
    ensures
        InactiveSegmentsInfoResponse::parse(s) matches Ok((v, n)) ==> v.wire_bytes() == s.take(
            n as int,
        ),
{
    if let Ok((v, n)) = InactiveSegmentsInfoResponse::parse(s) {
        lemma_segment_info_canonical(s);
        lemma_segment_info_canonical(s.skip(17));
        assert(v.wire_bytes() =~= s.take(34));
    }
}

// ----------------------------------------------------------------------------

/// A parsed firmware info message.
#[derive(Clone, Copy, PartialEq, Eq, Hash, Debug)]
pub struct FirmwareInfo {
    /// The segment and location.
    pub segment_and_location: SegmentAndLocation,
    /// The build information.
    pub build_info: BuildInfo,
}

/// The length of a firmware info struct on the wire, in bytes.
pub const FIRMWARE_INFO_LEN: usize = 21;

impl FirmwareInfo {
    /// The message's bytes on the wire.
    pub open spec fn wire_bytes(self) -> Seq<u8> {
        seq![self.segment_and_location.spec_to_wire_value()] + self.build_info.wire_bytes()
    }

    /// What reading a firmware info message from `s` gives.
    pub open spec fn parse(s: Seq<u8>) -> Result<(FirmwareInfo, nat), FromWireError> {
        if s.len() < 1 {
            Err(exhausted())
        } else {
            match sal_at(s, 0) {
                None => Err(FromWireError::OutOfRange),
                Some(sal) => match BuildInfo::parse(s.skip(1)) {
                    Err(e) => Err(e),
                    Ok((b, _)) => Ok(
                        (FirmwareInfo { segment_and_location: sal, build_info: b }, 21),
                    ),
                },
            }
        }
    }
}

impl<'a> FromWire<'a> for FirmwareInfo {
    fn from_wire<R: Read<'a>>(r: &mut R) -> (res: Result<Self, FromWireError>)
        ensures
            match Self::parse(old(r)@) {
                Ok((v, n)) => res == Ok::<FirmwareInfo, FromWireError>(v) && final(r)@ == old(
                    r,
                )@.skip(n as int),
                Err(e) => res == Err::<FirmwareInfo, FromWireError>(e),
            },
    {
        let ghost s = r@;
        let sal_u8 = match r.read_be::<u8>() {
            Ok(v) => v,
            Err(e) => return Err(FromWireError::from_io(e)),
        };
        proof {
            reveal_with_fuel(be_value, 2);
        }
        let segment_and_location = match SegmentAndLocation::from_wire_value(sal_u8) {
            Some(v) => v,
            None => return Err(FromWireError::OutOfRange),
        };
        let build_info = match BuildInfo::from_wire(r) {
            Ok(v) => v,
            Err(e) => return Err(e),
        };
        proof { assert(s.skip(1).skip(20) =~= s.skip(21)); }
        Ok(Self { segment_and_location, build_info })
    }
}

impl ToWire for FirmwareInfo {
    fn to_wire<W: Write>(&self, w: &mut W) -> (res: Result<(), ToWireError>)
        ensures
            final(w).can_write(),
            self.wire_bytes().len() <= old(w).room() ==> res == Ok::<(), ToWireError>(())
                && final(w).written() == old(w).written() + self.wire_bytes()
                && final(w).room() == old(w).room() - self.wire_bytes().len(),
            self.wire_bytes().len() > old(w).room() ==> res == Err::<(), ToWireError>(no_room()),
    {
        proof {
            reveal_with_fuel(be_bytes, 2);
            lemma_build_info_roundtrip(self.build_info, Seq::empty());
        }
        let ghost start = w.written();
        if let Err(e) = w.write_be(self.segment_and_location.to_wire_value()) {
            return Err(ToWireError::from_io(e));
        }
        if let Err(e) = self.build_info.to_wire(w) {
            return Err(e);
        }
        proof {
            assert(w.written() =~= start + self.wire_bytes());
        }
        Ok(())
    }
}

/// A firmware info message survives a trip over the wire.
pub proof fn lemma_firmware_info_roundtrip(v: FirmwareInfo, rest: Seq<u8>)
    ensures
        v.wire_bytes().len() == FIRMWARE_INFO_LEN,
        FirmwareInfo::parse(v.wire_bytes() + rest) == Ok::<(FirmwareInfo, nat), FromWireError>(
            (v, 21),
        ),
{
    v.segment_and_location.lemma_wire_value_roundtrip();
    lemma_build_info_roundtrip(v.build_info, rest);
    let s = v.wire_bytes() + rest;
    assert(s.skip(1) =~= v.build_info.wire_bytes() + rest);
    assert(s[0] == v.segment_and_location.spec_to_wire_value());
}

/// Reading a firmware info message is exact.
pub proof fn lemma_firmware_info_canonical(s: Seq<u8>)
    ensures
        FirmwareInfo::parse(s) matches Ok((v, n)) ==> v.wire_bytes() == s.take(n as int),
{
    if let Ok((v, n)) = FirmwareInfo::parse(s) {
        SegmentAndLocation::lemma_wire_value_canonical(s[0]);
        lemma_build_info_canonical(s.skip(1));
        assert(v.wire_bytes() =~= s.take(21));
    }
}

// ----------------------------------------------------------------------------

/// A parsed update prepare request.
#[derive(Clone, Copy, PartialEq, Eq, Hash, Debug)]
pub struct UpdatePrepareRequest {
    /// The segment and location.
    pub segment_and_location: SegmentAndLocation,
}

/// The length of a update prepare request on the wire, in bytes.
pub const UPDATE_PREPARE_REQUEST_LEN: usize = 1;

impl Message<'_> for UpdatePrepareRequest {
    fn message_type() -> (t: ContentType)
        ensures
            t == ContentType::UpdatePrepareRequest,
    {
        ContentType::UpdatePrepareRequest
    }
}

impl UpdatePrepareRequest {
    /// The request's bytes on the wire.
    pub open spec fn wire_bytes(self) -> Seq<u8> {
        seq![self.segment_and_location.spec_to_wire_value()]
    }

    /// What reading a request from `s` gives.
    pub open spec fn parse(s: Seq<u8>) -> Result<(UpdatePrepareRequest, nat), FromWireError> {
        if s.len() < 1 {
            Err(exhausted())
        } else {
            match sal_at(s, 0) {
                None => Err(FromWireError::OutOfRange),
                Some(sal) => Ok((UpdatePrepareRequest { segment_and_location: sal }, 1)),
            }
        }
    }
}

impl<'a> FromWire<'a> for UpdatePrepareRequest {
    fn from_wire<R: Read<'a>>(r: &mut R) -> (res: Result<Self, FromWireError>)
        ensures
            match Self::parse(old(r)@) {
                Ok((v, n)) => res == Ok::<UpdatePrepareRequest, FromWireError>(v) && final(r)@
                    == old(r)@.skip(n as int),
                Err(e) => res == Err::<UpdatePrepareRequest, FromWireError>(e),
            },
    {
        let sal_u8 = match r.read_be::<u8>() {
            Ok(v) => v,
            Err(e) => return Err(FromWireError::from_io(e)),
        };
        proof {
            reveal_with_fuel(be_value, 2);
        }
        let segment_and_location = match SegmentAndLocation::from_wire_value(sal_u8) {
            Some(v) => v,
            None => return Err(FromWireError::OutOfRange),
        };
        Ok(Self { segment_and_location })
    }
}

impl ToWire for UpdatePrepareRequest {
    fn to_wire<W: Write>(&self, w: &mut W) -> (res: Result<(), ToWireError>)
        ensures
            final(w).can_write(),
            self.wire_bytes().len() <= old(w).room() ==> res == Ok::<(), ToWireError>(())
                && final(w).written() == old(w).written() + self.wire_bytes()
                && final(w).room() == old(w).room() - self.wire_bytes().len(),
            self.wire_bytes().len() > old(w).room() ==> res == Err::<(), ToWireError>(no_room()),
    {
        proof {
            reveal_with_fuel(be_bytes, 2);
        }
        match w.write_be(self.segment_and_location.to_wire_value()) {
            Ok(()) => Ok(()),
            Err(e) => Err(ToWireError::from_io(e)),
        }
    }
}

/// An update prepare request survives a trip over the wire.
pub proof fn lemma_update_prepare_request_roundtrip(v: UpdatePrepareRequest, rest: Seq<u8>)
    ensures
        UpdatePrepareRequest::parse(v.wire_bytes() + rest) == Ok::<
            (UpdatePrepareRequest, nat),
            FromWireError,
        >((v, 1)),
{
    v.segment_and_location.lemma_wire_value_roundtrip();
    assert((v.wire_bytes() + rest)[0] == v.segment_and_location.spec_to_wire_value());
}

/// Reading an update prepare request is exact.
pub proof fn lemma_update_prepare_request_canonical(s: Seq<u8>)
    ensures
        UpdatePrepareRequest::parse(s) matches Ok((v, n)) ==> v.wire_bytes() == s.take(n as int),
{
    if s.len() >= 1 {
        SegmentAndLocation::lemma_wire_value_canonical(s[0]);
        if let Ok((v, n)) = UpdatePrepareRequest::parse(s) {
            assert(v.wire_bytes() =~= s.take(1));
        }
    }
}

// ----------------------------------------------------------------------------

/// A parsed update prepare response.
#[derive(Clone, Copy, PartialEq, Eq, Hash, Debug)]
pub struct UpdatePrepareResponse {
    /// The segment and location.
    pub segment_and_location: SegmentAndLocation,
    /// The maximum chunk length per write.
    pub max_chunk_length: u16,
    /// The result of the update prepare request.
    pub result: UpdatePrepareResult,
}

/// The length of a update prepare response on the wire, in bytes.
pub const UPDATE_PREPARE_RESPONSE_LEN: usize = 4;

impl Message<'_> for UpdatePrepareResponse {
    fn message_type() -> (t: ContentType)
        ensures
            t == ContentType::UpdatePrepareResponse,
    {
        ContentType::UpdatePrepareResponse
    }
}

impl UpdatePrepareResponse {
    /// The response's bytes on the wire.
    pub open spec fn wire_bytes(self) -> Seq<u8> {
        seq![self.segment_and_location.spec_to_wire_value()] + be_bytes(
            self.max_chunk_length as nat,
            2,
        ) + seq![self.result.spec_to_wire_value()]
    }

    /// What reading a response from `s` gives.
    pub open spec fn parse(s: Seq<u8>) -> Result<(UpdatePrepareResponse, nat), FromWireError> {
        if s.len() < 1 {
            Err(exhausted())
        } else if sal_at(s, 0) is None {
            Err(FromWireError::OutOfRange)
        } else if s.len() < 4 {
            Err(exhausted())
        } else {
            match UpdatePrepareResult::spec_from_wire_value(s[3]) {
                None => Err(FromWireError::OutOfRange),
                Some(res) => Ok(
                    (
                        UpdatePrepareResponse {
                            segment_and_location: sal_at(s, 0).unwrap(),
                            max_chunk_length: be_value(s.subrange(1, 3)) as u16,
                            result: res,
                        },
                        4,
                    ),
                ),
            }
        }
    }
}

impl<'a> FromWire<'a> for UpdatePrepareResponse {
    fn from_wire<R: Read<'a>>(r: &mut R) -> (res: Result<Self, FromWireError>)
        ensures
            match Self::parse(old(r)@) {
                Ok((v, n)) => res == Ok::<UpdatePrepareResponse, FromWireError>(v) && final(r)@
                    == old(r)@.skip(n as int),
                Err(e) => res == Err::<UpdatePrepareResponse, FromWireError>(e),
            },
    {
        let ghost s = r@;
        let sal_u8 = match r.read_be::<u8>() {
            Ok(v) => v,
            Err(e) => return Err(FromWireError::from_io(e)),
        };
        proof {
            reveal_with_fuel(be_value, 2);
            lemma_advance(s, 0, 1);
        }
        let segment_and_location = match SegmentAndLocation::from_wire_value(sal_u8) {
            Some(v) => v,
            None => return Err(FromWireError::OutOfRange),
        };
        let max_chunk_length = match r.read_be::<u16>() {
            Ok(v) => v,
            Err(e) => return Err(FromWireError::from_io(e)),
        };
        proof { lemma_advance(s, 1, 2); }
        let result_u8 = match r.read_be::<u8>() {
            Ok(v) => v,
            Err(e) => return Err(FromWireError::from_io(e)),
        };
        proof { lemma_advance(s, 3, 1); }
        let result = match UpdatePrepareResult::from_wire_value(result_u8) {
            Some(v) => v,
            None => return Err(FromWireError::OutOfRange),
        };
        Ok(Self { segment_and_location, max_chunk_length, result })
    }
}

impl ToWire for UpdatePrepareResponse {
    fn to_wire<W: Write>(&self, w: &mut W) -> (res: Result<(), ToWireError>)
        ensures
            final(w).can_write(),
            self.wire_bytes().len() <= old(w).room() ==> res == Ok::<(), ToWireError>(())
                && final(w).written() == old(w).written() + self.wire_bytes()
                && final(w).room() == old(w).room() - self.wire_bytes().len(),
            self.wire_bytes().len() > old(w).room() ==> res == Err::<(), ToWireError>(no_room()),
    {
        proof {
            reveal_with_fuel(be_bytes, 2);
            lemma_be_bytes_len(self.max_chunk_length as nat, 2);
        }
        let ghost start = w.written();
        if let Err(e) = w.write_be(self.segment_and_location.to_wire_value()) {
            return Err(ToWireError::from_io(e));
        }
        if let Err(e) = w.write_be(self.max_chunk_length) {
            return Err(ToWireError::from_io(e));
        }
        if let Err(e) = w.write_be(self.result.to_wire_value()) {
            return Err(ToWireError::from_io(e));
        }
        proof {
            assert(w.written() =~= start + self.wire_bytes());
        }
        Ok(())
    }
}

/// The big-endian `u16` at offset `k` of `s`, as read from the wire.
pub proof fn lemma_be_u16_at(s: Seq<u8>, k: int, v: u16)
    requires
        0 <= k,
        k + 2 <= s.len(),
        s.subrange(k, k + 2) == be_bytes(v as nat, 2),
    ensures
        be_value(s.subrange(k, k + 2)) as u16 == v,
{
    lemma_byte_pow_values();
    lemma_be_value_of_bytes(v as nat, 2);
}

/// Encoding the `u16` read at offset `k` gives back the bytes it was read from.
pub proof fn lemma_be_u16_at_canonical(s: Seq<u8>, k: int)
    requires
        0 <= k,
        k + 2 <= s.len(),
    ensures
        be_bytes((be_value(s.subrange(k, k + 2)) as u16) as nat, 2) == s.subrange(k, k + 2),
{
    lemma_be_value_bound(s.subrange(k, k + 2));
    lemma_byte_pow_values();
    lemma_be_bytes_of_value(s.subrange(k, k + 2));
}

/// An update prepare response survives a trip over the wire.
pub proof fn lemma_update_prepare_response_roundtrip(v: UpdatePrepareResponse, rest: Seq<u8>)
    ensures
        v.wire_bytes().len() == UPDATE_PREPARE_RESPONSE_LEN,
        UpdatePrepareResponse::parse(v.wire_bytes() + rest) == Ok::<
            (UpdatePrepareResponse, nat),
            FromWireError,
        >((v, 4)),
{
    v.segment_and_location.lemma_wire_value_roundtrip();
    v.result.lemma_wire_value_roundtrip();
    lemma_be_bytes_len(v.max_chunk_length as nat, 2);
    let s = v.wire_bytes() + rest;
    assert(s.subrange(1, 3) =~= be_bytes(v.max_chunk_length as nat, 2));
    lemma_be_u16_at(s, 1, v.max_chunk_length);
    assert(s[0] == v.segment_and_location.spec_to_wire_value());
    assert(s[3] == v.result.spec_to_wire_value());
}

/// Reading an update prepare response is exact.
pub proof fn lemma_update_prepare_response_canonical(s: Seq<u8>)
    ensures
        UpdatePrepareResponse::parse(s) matches Ok((v, n)) ==> v.wire_bytes() == s.take(n as int),
{
    if let Ok((v, n)) = UpdatePrepareResponse::parse(s) {
        SegmentAndLocation::lemma_wire_value_canonical(s[0]);
        UpdatePrepareResult::lemma_wire_value_canonical(s[3]);
        lemma_be_u16_at_canonical(s, 1);
        assert(v.wire_bytes() =~= s.take(4));
    }
}

// ----------------------------------------------------------------------------

/// A parsed write chunk request.
#[derive(Clone, Copy, PartialEq, Eq, Hash, Debug)]
pub struct WriteChunkRequest<'a> {
    /// The segment and location.
    pub segment_and_location: SegmentAndLocation,
    /// The offset within the segment.
    pub offset: u32,
    /// The data to write
    pub data: &'a [u8],
}

/// The length of a write chunk request on the wire, in bytes, without data.
pub const WRITE_CHUNK_REQUEST_LEN: usize = 5;

impl<'a> Message<'a> for WriteChunkRequest<'a> {
    fn message_type() -> (t: ContentType)
        ensures
            t == ContentType::WriteChunkRequest,
    {
        ContentType::WriteChunkRequest
    }
}

/// The bytes of a write chunk request on the wire.
pub open spec fn write_chunk_request_bytes(
    segment_and_location: SegmentAndLocation,
    offset: u32,
    data: Seq<u8>,
) -> Seq<u8> {
    seq![segment_and_location.spec_to_wire_value()] + be_bytes(offset as nat, 4) + data
}

/// What reading a write chunk request from `s` gives: the segment, the offset
/// and the data, which is everything after the first five bytes.
pub open spec fn write_chunk_request_parse(s: Seq<u8>) -> Result<
    (SegmentAndLocation, u32, Seq<u8>),
    FromWireError,
> {
    if s.len() < 1 {
        Err(exhausted())
    } else if sal_at(s, 0) is None {
        Err(FromWireError::OutOfRange)
    } else if s.len() < 5 {
        Err(exhausted())
    } else {
        Ok((sal_at(s, 0).unwrap(), be_u32_at(s, 1), s.skip(5)))
    }
}

impl<'a> FromWire<'a> for WriteChunkRequest<'a> {
    fn from_wire<R: Read<'a>>(r: &mut R) -> (res: Result<Self, FromWireError>)
        ensures
            match write_chunk_request_parse(old(r)@) {
                Ok((sal, offset, data)) => (res matches Ok(v) && v.segment_and_location == sal
                    && v.offset == offset && v.data@ == data) && final(r)@.len() == 0,
                Err(e) => res matches Err(e2) && e2 == e,
            },
    {
        let ghost s = r@;
        let sal_u8 = match r.read_be::<u8>() {
            Ok(v) => v,
            Err(e) => return Err(FromWireError::from_io(e)),
        };
        proof {
            reveal_with_fuel(be_value, 2);
            lemma_advance(s, 0, 1);
        }
        let segment_and_location = match SegmentAndLocation::from_wire_value(sal_u8) {
            Some(v) => v,
            None => return Err(FromWireError::OutOfRange),
        };
        let offset = match r.read_be::<u32>() {
            Ok(v) => v,
            Err(e) => return Err(FromWireError::from_io(e)),
        };
        proof { lemma_advance(s, 1, 4); }
        let data_len = r.remaining_data();
        let data = match r.read_bytes(data_len) {
            Ok(d) => d,
            Err(e) => return Err(FromWireError::from_io(e)),
        };
        proof { assert(s.skip(5).take(data_len as int) =~= s.skip(5)); }
        Ok(Self { segment_and_location, offset, data })
    }
}

impl ToWire for WriteChunkRequest<'_> {
    fn to_wire<W: Write>(&self, w: &mut W) -> (res: Result<(), ToWireError>)
        ensures
            final(w).can_write(),
            ({
                let bytes = write_chunk_request_bytes(
                    self.segment_and_location,
                    self.offset,
                    self.data@,
                );
                &&& bytes.len() <= old(w).room() ==> res == Ok::<(), ToWireError>(())
                    && final(w).written() == old(w).written() + bytes && final(w).room() == old(
                    w,
                ).room() - bytes.len()
                &&& bytes.len() > old(w).room() ==> res == Err::<(), ToWireError>(no_room())
            }),
    {
        proof {
            reveal_with_fuel(be_bytes, 2);
            lemma_be_bytes_len(self.offset as nat, 4);
        }
        let ghost start = w.written();
        if let Err(e) = w.write_be(self.segment_and_location.to_wire_value()) {
            return Err(ToWireError::from_io(e));
        }
        if let Err(e) = w.write_be(self.offset) {
            return Err(ToWireError::from_io(e));
        }
        if let Err(e) = w.write_bytes(self.data) {
            return Err(ToWireError::from_io(e));
        }
        proof {
            assert(w.written() =~= start + write_chunk_request_bytes(
                self.segment_and_location,
                self.offset,
                self.data@,
            ));
        }
        Ok(())
    }
}

/// A write chunk request survives a trip over the wire; its data is all that
/// follows its first five bytes.
pub proof fn lemma_write_chunk_request_roundtrip(
    segment_and_location: SegmentAndLocation,
    offset: u32,
    data: Seq<u8>,
)
    ensures
        write_chunk_request_parse(write_chunk_request_bytes(segment_and_location, offset, data))
            == Ok::<(SegmentAndLocation, u32, Seq<u8>), FromWireError>(
            (segment_and_location, offset, data),
        ),
{
    segment_and_location.lemma_wire_value_roundtrip();
    lemma_be_bytes_len(offset as nat, 4);
    let s = write_chunk_request_bytes(segment_and_location, offset, data);
    assert(s.subrange(1, 5) =~= be_bytes(offset as nat, 4));
    lemma_be_u32_at(s, 1, offset);
    assert(s.skip(5) =~= data);
    assert(s[0] == segment_and_location.spec_to_wire_value());
}

/// Reading a write chunk request is exact.
pub proof fn lemma_write_chunk_request_canonical(s: Seq<u8>)
    ensures
        write_chunk_request_parse(s) matches Ok((sal, offset, data)) ==> write_chunk_request_bytes(
            sal,
            offset,
            data,
        ) == s,
{
    if let Ok((sal, offset, data)) = write_chunk_request_parse(s) {
        SegmentAndLocation::lemma_wire_value_canonical(s[0]);
        lemma_be_u32_at_canonical(s, 1);
        assert(write_chunk_request_bytes(sal, offset, data) =~= s);
    }
}

// ----------------------------------------------------------------------------

/// A parsed write chunk response.
#[derive(Clone, Copy, PartialEq, Eq, Hash, Debug)]
pub struct WriteChunkResponse {
    /// The segment and location.
    pub segment_and_location: SegmentAndLocation,
    /// The offset within the segment,
    pub offset: u32,
    /// The result of the write chunk request.
    pub result: WriteChunkResult,
}

/// The length of an write chunk response on the wire, in bytes.
pub const WRITE_CHUNK_RESPONSE_LEN: usize = 6;

impl Message<'_> for WriteChunkResponse {
    fn message_type() -> (t: ContentType)
        ensures
            t == ContentType::WriteChunkResponse,
    {
        ContentType::WriteChunkResponse
    }
}

impl WriteChunkResponse {
    /// The response's bytes on the wire.
    pub open spec fn wire_bytes(self) -> Seq<u8> {
        seq![self.segment_and_location.spec_to_wire_value()] + be_bytes(self.offset as nat, 4)
            + seq![self.result.spec_to_wire_value()]
    }

    /// What reading a response from `s` gives.
    pub open spec fn parse(s: Seq<u8>) -> Result<(WriteChunkResponse, nat), FromWireError> {
        if s.len() < 1 {
            Err(exhausted())
        } else if sal_at(s, 0) is None {
            Err(FromWireError::OutOfRange)
        } else if s.len() < 6 {
            Err(exhausted())
        } else {
            match WriteChunkResult::spec_from_wire_value(s[5]) {
                None => Err(FromWireError::OutOfRange),
                Some(res) => Ok(
                    (
                        WriteChunkResponse {
                            segment_and_location: sal_at(s, 0).unwrap(),
                            offset: be_u32_at(s, 1),
                            result: res,
                        },
                        6,
                    ),
                ),
            }
        }
    }
}

impl<'a> FromWire<'a> for WriteChunkResponse {
    fn from_wire<R: Read<'a>>(r: &mut R) -> (res: Result<Self, FromWireError>)
        ensures
            match Self::parse(old(r)@) {
                Ok((v, n)) => res == Ok::<WriteChunkResponse, FromWireError>(v) && final(r)@
                    == old(r)@.skip(n as int),
                Err(e) => res == Err::<WriteChunkResponse, FromWireError>(e),
            },
    {
        let ghost s = r@;
        let sal_u8 = match r.read_be::<u8>() {
            Ok(v) => v,
            Err(e) => return Err(FromWireError::from_io(e)),
        };
        proof {
            reveal_with_fuel(be_value, 2);
            lemma_advance(s, 0, 1);
        }
        let segment_and_location = match SegmentAndLocation::from_wire_value(sal_u8) {
            Some(v) => v,
            None => return Err(FromWireError::OutOfRange),
        };
        let offset = match r.read_be::<u32>() {
            Ok(v) => v,
            Err(e) => return Err(FromWireError::from_io(e)),
        };
        proof { lemma_advance(s, 1, 4); }
        let result_u8 = match r.read_be::<u8>() {
            Ok(v) => v,
            Err(e) => return Err(FromWireError::from_io(e)),
        };
        proof { lemma_advance(s, 5, 1); }
        let result = match WriteChunkResult::from_wire_value(result_u8) {
            Some(v) => v,
            None => return Err(FromWireError::OutOfRange),
        };
        Ok(Self { segment_and_location, offset, result })
    }
}

impl ToWire for WriteChunkResponse {
    fn to_wire<W: Write>(&self, w: &mut W) -> (res: Result<(), ToWireError>)
        ensures
            final(w).can_write(),
            self.wire_bytes().len() <= old(w).room() ==> res == Ok::<(), ToWireError>(())
                && final(w).written() == old(w).written() + self.wire_bytes()
                && final(w).room() == old(w).room() - self.wire_bytes().len(),
            self.wire_bytes().len() > old(w).room() ==> res == Err::<(), ToWireError>(no_room()),
    {
        proof {
            reveal_with_fuel(be_bytes, 2);
            lemma_be_bytes_len(self.offset as nat, 4);
        }
        let ghost start = w.written();
        if let Err(e) = w.write_be(self.segment_and_location.to_wire_value()) {
            return Err(ToWireError::from_io(e));
        }
        if let Err(e) = w.write_be(self.offset) {
            return Err(ToWireError::from_io(e));
        }
        if let Err(e) = w.write_be(self.result.to_wire_value()) {
            return Err(ToWireError::from_io(e));
        }
        proof {
            assert(w.written() =~= start + self.wire_bytes());
        }
        Ok(())
    }
}

/// A write chunk response survives a trip over the wire.
pub proof fn lemma_write_chunk_response_roundtrip(v: WriteChunkResponse, rest: Seq<u8>)
    ensures
        v.wire_bytes().len() == WRITE_CHUNK_RESPONSE_LEN,
        WriteChunkResponse::parse(v.wire_bytes() + rest) == Ok::<
            (WriteChunkResponse, nat),
            FromWireError,
        >((v, 6)),
{
    v.segment_and_location.lemma_wire_value_roundtrip();
    v.result.lemma_wire_value_roundtrip();
    lemma_be_bytes_len(v.offset as nat, 4);
    let s = v.wire_bytes() + rest;
    assert(s.subrange(1, 5) =~= be_bytes(v.offset as nat, 4));
    lemma_be_u32_at(s, 1, v.offset);
    assert(s[0] == v.segment_and_location.spec_to_wire_value());
    assert(s[5] == v.result.spec_to_wire_value());
}

/// Reading a write chunk response is exact.
pub proof fn lemma_write_chunk_response_canonical(s: Seq<u8>)
    ensures
        WriteChunkResponse::parse(s) matches Ok((v, n)) ==> v.wire_bytes() == s.take(n as int),
{
    if let Ok((v, n)) = WriteChunkResponse::parse(s) {
        SegmentAndLocation::lemma_wire_value_canonical(s[0]);
        WriteChunkResult::lemma_wire_value_canonical(s[5]);
        lemma_be_u32_at_canonical(s, 1);
        assert(v.wire_bytes() =~= s.take(6));
    }
}

// ----------------------------------------------------------------------------

/// A parsed reboot request.
#[derive(Clone, Copy, PartialEq, Eq, Hash, Debug)]
pub struct RebootRequest {
    /// When to reboot.
    pub time: RebootTime,
}

/// The length of a reboot request on the wire, in bytes.
pub const REBOOT_REQUEST_LEN: usize = 1;

impl Message<'_> for RebootRequest {
    fn message_type() -> (t: ContentType)
        ensures
            t == ContentType::RebootRequest,
    {
        ContentType::RebootRequest
    }
}

impl RebootRequest {
    /// The request's bytes on the wire.
    pub open spec fn wire_bytes(self) -> Seq<u8> {
        seq![self.time.spec_to_wire_value()]
    }

    /// What reading a request from `s` gives.
    pub open spec fn parse(s: Seq<u8>) -> Result<(RebootRequest, nat), FromWireError> {
        if s.len() < 1 {
            Err(exhausted())
        } else {
            match RebootTime::spec_from_wire_value(s[0]) {
                None => Err(FromWireError::OutOfRange),
                Some(t) => Ok((RebootRequest { time: t }, 1)),
            }
        }
    }
}

impl<'a> FromWire<'a> for RebootRequest {
    fn from_wire<R: Read<'a>>(r: &mut R) -> (res: Result<Self, FromWireError>)
        ensures
            match Self::parse(old(r)@) {
                Ok((v, n)) => res == Ok::<RebootRequest, FromWireError>(v) && final(r)@ == old(
                    r,
                )@.skip(n as int),
                Err(e) => res == Err::<RebootRequest, FromWireError>(e),
            },
    {
        let time_u8 = match r.read_be::<u8>() {
            Ok(v) => v,
            Err(e) => return Err(FromWireError::from_io(e)),
        };
        proof {
            reveal_with_fuel(be_value, 2);
        }
        let time = match RebootTime::from_wire_value(time_u8) {
            Some(v) => v,
            None => return Err(FromWireError::OutOfRange),
        };
        Ok(Self { time })
    }
}

impl ToWire for RebootRequest {
    fn to_wire<W: Write>(&self, w: &mut W) -> (res: Result<(), ToWireError>)
        ensures
            final(w).can_write(),
            self.wire_bytes().len() <= old(w).room() ==> res == Ok::<(), ToWireError>(())
                && final(w).written() == old(w).written() + self.wire_bytes()
                && final(w).room() == old(w).room() - self.wire_bytes().len(),
            self.wire_bytes().len() > old(w).room() ==> res == Err::<(), ToWireError>(no_room()),
    {
        proof {
            reveal_with_fuel(be_bytes, 2);
        }
        match w.write_be(self.time.to_wire_value()) {
            Ok(()) => Ok(()),
            Err(e) => Err(ToWireError::from_io(e)),
        }
    }
}

/// A reboot request survives a trip over the wire.
pub proof fn lemma_reboot_request_roundtrip(v: RebootRequest, rest: Seq<u8>)
    ensures
        RebootRequest::parse(v.wire_bytes() + rest) == Ok::<(RebootRequest, nat), FromWireError>(
            (v, 1),
        ),
{
    v.time.lemma_wire_value_roundtrip();
    assert((v.wire_bytes() + rest)[0] == v.time.spec_to_wire_value());
}

/// Reading a reboot request is exact.
pub proof fn lemma_reboot_request_canonical(s: Seq<u8>)
    ensures
        RebootRequest::parse(s) matches Ok((v, n)) ==> v.wire_bytes() == s.take(n as int),
{
    if s.len() >= 1 {
        RebootTime::lemma_wire_value_canonical(s[0]);
        if let Ok((v, n)) = RebootRequest::parse(s) {
            assert(v.wire_bytes() =~= s.take(1));
        }
    }
}

// ----------------------------------------------------------------------------

/// A parsed reboot response.
#[derive(Clone, Copy, PartialEq, Eq, Hash, Debug)]
pub struct RebootResponse {
    /// When to reboot from the request.
    pub time: RebootTime,
    /// The result of the reboot request.
    pub result: RebootResult,
}

/// The length of a reboot response on the wire, in bytes.
pub const REBOOT_RESPONSE_LEN: usize = 2;

impl Message<'_> for RebootResponse {
    fn message_type() -> (t: ContentType)
        ensures
            t == ContentType::RebootResponse,
    {
        ContentType::RebootResponse
    }
}

impl RebootResponse {
    /// The response's bytes on the wire.
    pub open spec fn wire_bytes(self) -> Seq<u8> {
        seq![self.time.spec_to_wire_value(), self.result.spec_to_wire_value()]
    }

    /// What reading a response from `s` gives.
    pub open spec fn parse(s: Seq<u8>) -> Result<(RebootResponse, nat), FromWireError> {
        if s.len() < 1 {
            Err(exhausted())
        } else if RebootTime::spec_from_wire_value(s[0]) is None {
            Err(FromWireError::OutOfRange)
        } else if s.len() < 2 {
            Err(exhausted())
        } else {
            match RebootResult::spec_from_wire_value(s[1]) {
                None => Err(FromWireError::OutOfRange),
                Some(res) => Ok(
                    (
                        RebootResponse {
                            time: RebootTime::spec_from_wire_value(s[0]).unwrap(),
                            result: res,
                        },
                        2,
                    ),
                ),
            }
        }
    }
}

impl<'a> FromWire<'a> for RebootResponse {
    fn from_wire<R: Read<'a>>(r: &mut R) -> (res: Result<Self, FromWireError>)
        ensures
            match Self::parse(old(r)@) {
                Ok((v, n)) => res == Ok::<RebootResponse, FromWireError>(v) && final(r)@ == old(
                    r,
                )@.skip(n as int),
                Err(e) => res == Err::<RebootResponse, FromWireError>(e),
            },
    {
        let ghost s = r@;
        let time_u8 = match r.read_be::<u8>() {
            Ok(v) => v,
            Err(e) => return Err(FromWireError::from_io(e)),
        };
        proof {
            reveal_with_fuel(be_value, 2);
            lemma_advance(s, 0, 1);
        }
        let time = match RebootTime::from_wire_value(time_u8) {
            Some(v) => v,
            None => return Err(FromWireError::OutOfRange),
        };
        let result_u8 = match r.read_be::<u8>() {
            Ok(v) => v,
            Err(e) => return Err(FromWireError::from_io(e)),
        };
        proof { lemma_advance(s, 1, 1); }
        let result = match RebootResult::from_wire_value(result_u8) {
            Some(v) => v,
            None => return Err(FromWireError::OutOfRange),
        };
        Ok(Self { time, result })
    }
}

impl ToWire for RebootResponse {
    fn to_wire<W: Write>(&self, w: &mut W) -> (res: Result<(), ToWireError>)
        ensures
            final(w).can_write(),
            self.wire_bytes().len() <= old(w).room() ==> res == Ok::<(), ToWireError>(())
                && final(w).written() == old(w).written() + self.wire_bytes()
                && final(w).room() == old(w).room() - self.wire_bytes().len(),
            self.wire_bytes().len() > old(w).room() ==> res == Err::<(), ToWireError>(no_room()),
    {
        proof {
            reveal_with_fuel(be_bytes, 2);
        }
        let ghost start = w.written();
        if let Err(e) = w.write_be(self.time.to_wire_value()) {
            return Err(ToWireError::from_io(e));
        }
        if let Err(e) = w.write_be(self.result.to_wire_value()) {
            return Err(ToWireError::from_io(e));
        }
        proof {
            assert(w.written() =~= start + self.wire_bytes());
        }
        Ok(())
    }
}

/// A reboot response survives a trip over the wire.
pub proof fn lemma_reboot_response_roundtrip(v: RebootResponse, rest: Seq<u8>)
    ensures
        RebootResponse::parse(v.wire_bytes() + rest) == Ok::<(RebootResponse, nat), FromWireError>(
            (v, 2),
        ),
{
    v.time.lemma_wire_value_roundtrip();
    v.result.lemma_wire_value_roundtrip();
    let s = v.wire_bytes() + rest;
    assert(s[0] == v.time.spec_to_wire_value());
    assert(s[1] == v.result.spec_to_wire_value());
}

/// Reading a reboot response is exact.
pub proof fn lemma_reboot_response_canonical(s: Seq<u8>)
    ensures
        RebootResponse::parse(s) matches Ok((v, n)) ==> v.wire_bytes() == s.take(n as int),
{
    if let Ok((v, n)) = RebootResponse::parse(s) {
        RebootTime::lemma_wire_value_canonical(s[0]);
        RebootResult::lemma_wire_value_canonical(s[1]);
        assert(v.wire_bytes() =~= s.take(2));
    }
}


/// The protocol's bytes for the firmware message types: UpdatePrepareRequest 0x01, UpdatePrepareResponse 0x02, WriteChunkRequest 0x03, WriteChunkResponse 0x04, InactiveSegmentsInfoRequest 0x05, InactiveSegmentsInfoResponse 0x06, RebootRequest 0x07, RebootResponse 0x08; no other byte names one.
pub proof fn lemma_firmware_content_type_wire_values(wire: u8)
    ensures
        ContentType::UpdatePrepareRequest.spec_to_wire_value() == 0x01u8,
        ContentType::UpdatePrepareResponse.spec_to_wire_value() == 0x02u8,
        ContentType::WriteChunkRequest.spec_to_wire_value() == 0x03u8,
        ContentType::WriteChunkResponse.spec_to_wire_value() == 0x04u8,
        ContentType::InactiveSegmentsInfoRequest.spec_to_wire_value() == 0x05u8,
        ContentType::InactiveSegmentsInfoResponse.spec_to_wire_value() == 0x06u8,
        ContentType::RebootRequest.spec_to_wire_value() == 0x07u8,
        ContentType::RebootResponse.spec_to_wire_value() == 0x08u8,
        ContentType::spec_from_wire_value(wire) is Some <==> (wire == 0x01u8 || wire == 0x02u8 || wire == 0x03u8 || wire == 0x04u8 || wire == 0x05u8 || wire == 0x06u8 || wire == 0x07u8 || wire == 0x08u8),
        ContentType::spec_from_wire_value(wire) matches Some(v) ==> v.spec_to_wire_value() == wire,
{
    ContentType::lemma_wire_value_canonical(wire);
}

/// The protocol's bytes for the segment and location: Unknown 0xff, RoA 0x01, RoB 0x02, RwA 0x03, RwB 0x04; no other byte names one.
pub proof fn lemma_segment_and_location_wire_values(wire: u8)
    ensures
        SegmentAndLocation::Unknown.spec_to_wire_value() == 0xffu8,
        SegmentAndLocation::RoA.spec_to_wire_value() == 0x01u8,
        SegmentAndLocation::RoB.spec_to_wire_value() == 0x02u8,
        SegmentAndLocation::RwA.spec_to_wire_value() == 0x03u8,
        SegmentAndLocation::RwB.spec_to_wire_value() == 0x04u8,
        SegmentAndLocation::spec_from_wire_value(wire) is Some <==> (wire == 0xffu8 || wire == 0x01u8 || wire == 0x02u8 || wire == 0x03u8 || wire == 0x04u8),
        SegmentAndLocation::spec_from_wire_value(wire) matches Some(v) ==> v.spec_to_wire_value() == wire,
{
    SegmentAndLocation::lemma_wire_value_canonical(wire);
}

/// The protocol's bytes for the update prepare results: Success 0x00, Error 0x01, InvalidSegmentAndLocation 0x02; no other byte names one.
pub proof fn lemma_update_prepare_result_wire_values(wire: u8)
    ensures
        UpdatePrepareResult::Success.spec_to_wire_value() == 0x00u8,
        UpdatePrepareResult::Error.spec_to_wire_value() == 0x01u8,
        UpdatePrepareResult::InvalidSegmentAndLocation.spec_to_wire_value() == 0x02u8,
        UpdatePrepareResult::spec_from_wire_value(wire) is Some <==> (wire == 0x00u8 || wire == 0x01u8 || wire == 0x02u8),
        UpdatePrepareResult::spec_from_wire_value(wire) matches Some(v) ==> v.spec_to_wire_value() == wire,
{
    UpdatePrepareResult::lemma_wire_value_canonical(wire);
}

/// The protocol's bytes for the write chunk results: Success 0x00, Error 0x01, InvalidSegmentAndLocation 0x02, InvalidOffset 0x03, DataTooLong 0x04, CompareFailed 0x05; no other byte names one.
pub proof fn lemma_write_chunk_result_wire_values(wire: u8)
    ensures
        WriteChunkResult::Success.spec_to_wire_value() == 0x00u8,
        WriteChunkResult::Error.spec_to_wire_value() == 0x01u8,
        WriteChunkResult::InvalidSegmentAndLocation.spec_to_wire_value() == 0x02u8,
        WriteChunkResult::InvalidOffset.spec_to_wire_value() == 0x03u8,
        WriteChunkResult::DataTooLong.spec_to_wire_value() == 0x04u8,
        WriteChunkResult::CompareFailed.spec_to_wire_value() == 0x05u8,
        WriteChunkResult::spec_from_wire_value(wire) is Some <==> (wire == 0x00u8 || wire == 0x01u8 || wire == 0x02u8 || wire == 0x03u8 || wire == 0x04u8 || wire == 0x05u8),
        WriteChunkResult::spec_from_wire_value(wire) matches Some(v) ==> v.spec_to_wire_value() == wire,
{
    WriteChunkResult::lemma_wire_value_canonical(wire);
}

/// The protocol's bytes for the reboot times: Immediate 0x00, Delayed 0x01; no other byte names one.
pub proof fn lemma_reboot_time_wire_values(wire: u8)
    ensures
        RebootTime::Immediate.spec_to_wire_value() == 0x00u8,
        RebootTime::Delayed.spec_to_wire_value() == 0x01u8,
        RebootTime::spec_from_wire_value(wire) is Some <==> (wire == 0x00u8 || wire == 0x01u8),
        RebootTime::spec_from_wire_value(wire) matches Some(v) ==> v.spec_to_wire_value() == wire,
{
    RebootTime::lemma_wire_value_canonical(wire);
}

/// The protocol's bytes for the reboot results: Success 0x00, Error 0x01; no other byte names one.
pub proof fn lemma_reboot_result_wire_values(wire: u8)
    ensures
        RebootResult::Success.spec_to_wire_value() == 0x00u8,
        RebootResult::Error.spec_to_wire_value() == 0x01u8,
        RebootResult::spec_from_wire_value(wire) is Some <==> (wire == 0x00u8 || wire == 0x01u8),
        RebootResult::spec_from_wire_value(wire) matches Some(v) ==> v.spec_to_wire_value() == wire,
{
    RebootResult::lemma_wire_value_canonical(wire);
}


/// The firmware messages with numbers lay them out most significant byte
/// first: an update prepare response is the segment byte, the maximum chunk
/// length's high then low byte, and the result byte; a write chunk request
/// is the segment byte, the offset's four bytes from the most significant
/// one, then the data; a write chunk response is the segment byte, the
/// offset likewise, and the result byte. Reading them weighs the earlier
/// byte of a number more.
pub proof fn lemma_firmware_number_layout(
    prep: UpdatePrepareResponse,
    chunk: WriteChunkResponse,
    sal: SegmentAndLocation,
    offset: u32,
    data: Seq<u8>,
    s: Seq<u8>,
)
    ensures
        prep.wire_bytes() == seq![prep.segment_and_location.spec_to_wire_value()] + msb_first2(
            prep.max_chunk_length,
        ) + seq![prep.result.spec_to_wire_value()],
        chunk.wire_bytes() == seq![chunk.segment_and_location.spec_to_wire_value()] + msb_first4(chunk.offset)
            + seq![chunk.result.spec_to_wire_value()],
        write_chunk_request_bytes(sal, offset, data) == seq![sal.spec_to_wire_value()] + msb_first4(offset)
            + data,
        UpdatePrepareResponse::parse(s) matches Ok((r, _)) ==> r.max_chunk_length == s[1] * 0x100 + s[2],
        WriteChunkResponse::parse(s) matches Ok((r, _)) ==> r.offset == s[1] * 0x100_0000 + s[2] * 0x1_0000
            + s[3] * 0x100 + s[4],
        write_chunk_request_parse(s) matches Ok((_, off, d)) ==> off == s[1] * 0x100_0000 + s[2] * 0x1_0000
            + s[3] * 0x100 + s[4] && d == s.skip(5),
{
    lemma_be_bytes_digits(chunk.offset, prep.max_chunk_length);
    lemma_be_bytes_digits(offset, 0);
    if s.len() >= 5 {
        lemma_be_value_digits(s.subrange(1, 5));
    }
    if s.len() >= 3 {
        lemma_be_value_digits(s.subrange(1, 3));
    }
}

} // verus!
