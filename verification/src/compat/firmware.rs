//! Data structures related to firmware images.

use vstd::prelude::*;
use crate::endian::{le_bytes, le_value, lemma_byte_pow_values, lemma_le_bytes_digits, lemma_le_bytes_len, lemma_le_bytes_of_value, lemma_le_value_bound, lemma_le_value_digits, lemma_le_value_of_bytes, lsb_first4};
use crate::io::{Read, ReadLe, Write, WriteLe};
use crate::wire::{exhausted, lemma_advance, no_room, FromWire, FromWireError, ToWire, ToWireError};

verus! {

/// The offset of the BuildInfo from the start of the firmware segment.
/// This offset must match the `SignedHeader` C-struct used in firmware images.
pub const BUILD_INFO_OFFSET: usize = 860;

/// The length of a BuildInfo on the wire, in bytes.
pub const BUILD_INFO_LEN: usize = 20;

/// Firmware build information. The fields and their little-endian layout
/// match the `SignedHeader` C-struct used in firmware images.
#[derive(Clone, Copy, PartialEq, Eq, Hash, Debug)]
pub struct BuildInfo {
    /// Time epoch
    pub epoch: u32,
    /// Major version
    pub major: u32,
    /// Minor version
    pub minor: u32,
    /// Timestamp
    pub timestamp: u64,
}

/// The `u32` stored little-endian at offset `k` of `s`.
pub open spec fn le_u32_at(s: Seq<u8>, k: int) -> u32 {
    le_value(s.subrange(k, k + 4)) as u32
}

/// The `u64` stored little-endian at offset `k` of `s`.
pub open spec fn le_u64_at(s: Seq<u8>, k: int) -> u64 {
    le_value(s.subrange(k, k + 8)) as u64
}

impl BuildInfo {
    /// The build information's bytes on the wire, little-endian.
    pub open spec fn wire_bytes(self) -> Seq<u8> {
        le_bytes(self.epoch as nat, 4) + le_bytes(self.major as nat, 4) + le_bytes(
            self.minor as nat,
            4,
        ) + le_bytes(self.timestamp as nat, 8)
    }

    /// What reading build information from `s` gives.
    pub open spec fn parse(s: Seq<u8>) -> Result<(BuildInfo, nat), FromWireError> {
        if s.len() < 20 {
            Err(exhausted())
        } else {
            Ok(
                (
                    BuildInfo {
                        epoch: le_u32_at(s, 0),
                        major: le_u32_at(s, 4),
                        minor: le_u32_at(s, 8),
                        timestamp: le_u64_at(s, 12),
                    },
                    20,
                ),
            )
        }
    }
}

impl<'a> FromWire<'a> for BuildInfo {
    fn from_wire<R: Read<'a>>(r: &mut R) -> (res: Result<Self, FromWireError>)
        ensures
            match Self::parse(old(r)@) {
                Ok((v, n)) => res == Ok::<BuildInfo, FromWireError>(v) && final(r)@ == old(
                    r,
                )@.skip(n as int),
                Err(e) => res == Err::<BuildInfo, FromWireError>(e),
            },
    {
        let ghost s = r@;
        let epoch = match r.read_le::<u32>() {
            Ok(v) => v,
            Err(e) => return Err(FromWireError::from_io(e)),
        };
        proof { lemma_advance(s, 0, 4); }
        let major = match r.read_le::<u32>() {
            Ok(v) => v,
            Err(e) => return Err(FromWireError::from_io(e)),
        };
        proof { lemma_advance(s, 4, 4); }
        let minor = match r.read_le::<u32>() {
            Ok(v) => v,
            Err(e) => return Err(FromWireError::from_io(e)),
        };
        proof { lemma_advance(s, 8, 4); }
        let timestamp = match r.read_le::<u64>() {
            Ok(v) => v,
            Err(e) => return Err(FromWireError::from_io(e)),
        };
        proof { lemma_advance(s, 12, 8); }
        Ok(Self { epoch, major, minor, timestamp })
    }
}

impl ToWire for BuildInfo {
    fn to_wire<W: Write>(&self, w: &mut W) -> (res: Result<(), ToWireError>)
        ensures
            final(w).can_write(),
            self.wire_bytes().len() <= old(w).room() ==> res == Ok::<(), ToWireError>(())
                && final(w).written() == old(w).written() + self.wire_bytes()
                && final(w).room() == old(w).room() - self.wire_bytes().len(),
            self.wire_bytes().len() > old(w).room() ==> res == Err::<(), ToWireError>(no_room()),
    {
        proof {
            lemma_le_bytes_len(self.epoch as nat, 4);
            lemma_le_bytes_len(self.major as nat, 4);
            lemma_le_bytes_len(self.minor as nat, 4);
            lemma_le_bytes_len(self.timestamp as nat, 8);
        }
        let ghost start = w.written();
        if let Err(e) = w.write_le(self.epoch) {
            return Err(ToWireError::from_io(e));
        }
        if let Err(e) = w.write_le(self.major) {
            return Err(ToWireError::from_io(e));
        }
        if let Err(e) = w.write_le(self.minor) {
            return Err(ToWireError::from_io(e));
        }
        if let Err(e) = w.write_le(self.timestamp) {
            return Err(ToWireError::from_io(e));
        }
        proof {
            assert(w.written() =~= start + self.wire_bytes());
        }
        Ok(())
    }
}

/// Build information survives a trip over the wire.
pub proof fn lemma_build_info_roundtrip(v: BuildInfo, rest: Seq<u8>)
    ensures
        v.wire_bytes().len() == BUILD_INFO_LEN,
        BuildInfo::parse(v.wire_bytes() + rest) == Ok::<(BuildInfo, nat), FromWireError>((v, 20)),
{
    lemma_byte_pow_values();
    lemma_le_bytes_len(v.epoch as nat, 4);
    lemma_le_bytes_len(v.major as nat, 4);
    lemma_le_bytes_len(v.minor as nat, 4);
    lemma_le_bytes_len(v.timestamp as nat, 8);
    let s = v.wire_bytes() + rest;
    assert(s.subrange(0, 4) =~= le_bytes(v.epoch as nat, 4));
    assert(s.subrange(4, 8) =~= le_bytes(v.major as nat, 4));
    assert(s.subrange(8, 12) =~= le_bytes(v.minor as nat, 4));
    assert(s.subrange(12, 20) =~= le_bytes(v.timestamp as nat, 8));
    lemma_le_value_of_bytes(v.epoch as nat, 4);
    lemma_le_value_of_bytes(v.major as nat, 4);
    lemma_le_value_of_bytes(v.minor as nat, 4);
    lemma_le_value_of_bytes(v.timestamp as nat, 8);
}

/// Reading build information is exact: the bytes it was read from are the
/// bytes it writes.
pub proof fn lemma_build_info_canonical(s: Seq<u8>)
    ensures
        BuildInfo::parse(s) matches Ok((v, n)) ==> v.wire_bytes() == s.take(n as int),
{
    if s.len() >= 20 {
        lemma_byte_pow_values();
        lemma_le_value_bound(s.subrange(0, 4));
        lemma_le_value_bound(s.subrange(4, 8));
        lemma_le_value_bound(s.subrange(8, 12));
        lemma_le_value_bound(s.subrange(12, 20));
        lemma_le_bytes_of_value(s.subrange(0, 4));
        lemma_le_bytes_of_value(s.subrange(4, 8));
        lemma_le_bytes_of_value(s.subrange(8, 12));
        lemma_le_bytes_of_value(s.subrange(12, 20));
        let (v, n) = BuildInfo::parse(s).unwrap();
        assert(v.wire_bytes() =~= s.take(20));
    }
}


/// Build information on the wire is epoch, major and minor version and
/// timestamp, each least significant byte first; reading it takes the
/// versions from their four bytes the same way.
pub proof fn lemma_build_info_layout(v: BuildInfo, s: Seq<u8>)
    ensures
        v.wire_bytes().subrange(0, 12) == lsb_first4(v.epoch) + lsb_first4(v.major) + lsb_first4(v.minor),
        BuildInfo::parse(s) matches Ok((p, _)) ==> p.epoch == s[0] + s[1] * 0x100 + s[2] * 0x1_0000 + s[3]
            * 0x100_0000 && p.major == s[4] + s[5] * 0x100 + s[6] * 0x1_0000 + s[7] * 0x100_0000 && p.minor
            == s[8] + s[9] * 0x100 + s[10] * 0x1_0000 + s[11] * 0x100_0000,
{
    lemma_le_bytes_digits(v.epoch);
    lemma_le_bytes_digits(v.major);
    lemma_le_bytes_digits(v.minor);
    lemma_le_bytes_len(v.timestamp as nat, 8);
    assert(v.wire_bytes().subrange(0, 12) =~= lsb_first4(v.epoch) + lsb_first4(v.major) + lsb_first4(v.minor));
    if s.len() >= 20 {
        lemma_le_value_digits(s.subrange(0, 4));
        lemma_le_value_digits(s.subrange(4, 8));
        lemma_le_value_digits(s.subrange(8, 12));
        lemma_le_value_bound(s.subrange(0, 4));
        lemma_le_value_bound(s.subrange(4, 8));
        lemma_le_value_bound(s.subrange(8, 12));
    }
}

} // verus!
