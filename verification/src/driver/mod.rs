//! Kernel interface: handler modes and the SPI device address configuration.

use vstd::prelude::*;
use crate::endian::{be_bytes, be_value, lemma_be_bytes_digits, lemma_be_bytes_len, lemma_be_bytes_of_value, lemma_be_value_bound, lemma_be_value_digits, lemma_be_value_of_bytes, lemma_byte_pow_values, msb_first2, msb_first4};
use crate::io::{Read, ReadInt, Write, WriteInt};
use crate::wire::{exhausted, lemma_advance, no_room, FromWire, FromWireError, ToWire, ToWireError};

pub mod firmware;
pub mod reset;

verus! {

/// Handler mode.
#[derive(Clone, Copy, PartialEq, Eq, Hash, Debug)]
pub enum HandlerMode {
    /// Do not handle request.
    Disabled,
    /// Handle request in user space.
    UserSpace,
    /// Handle request in kernel space.
    KernelSpace,
}

impl HandlerMode {
    /// The number of the mode: 0 for `Disabled`, 1 for `UserSpace`, 2 for
    /// `KernelSpace`.
    pub open spec fn spec_number(self) -> usize {
        match self {
            HandlerMode::Disabled => 0,
            HandlerMode::UserSpace => 1,
            HandlerMode::KernelSpace => 2,
        }
    }

    /// Returns the number of the mode.
    pub fn number(self) -> (n: usize)
        ensures
            n == self.spec_number(),
    {
        match self {
            HandlerMode::Disabled => 0,
            HandlerMode::UserSpace => 1,
            HandlerMode::KernelSpace => 2,
        }
    }

    /// Converts a number into a mode; numbers above 2 are refused.
    pub fn try_from(item: usize) -> (r: Result<HandlerMode, InvalidHandlerMode>)
        ensures
            item <= 2 ==> (r matches Ok(m) && m.spec_number() == item),
            item > 2 ==> r is Err,
    {
        match item {
            0 => Ok(HandlerMode::Disabled),
            1 => Ok(HandlerMode::UserSpace),
            2 => Ok(HandlerMode::KernelSpace),
            _ => Err(InvalidHandlerMode),
        }
    }
}

impl Default for HandlerMode {
    fn default() -> (m: Self)
        ensures
            m == HandlerMode::Disabled,
    {
        HandlerMode::Disabled
    }
}

/// Error for invalid handler mode conversion.
pub struct InvalidHandlerMode;

/// Address configuration for SPI device hardware.
#[derive(Clone, Copy, PartialEq, Eq, Hash, Debug)]
pub struct AddressConfig {
    /// The address on the SPI device bus that the external flash is accessible at.
    pub flash_virtual_base: u32,
    /// The base address in the external flash device on the SPI host bus.
    pub flash_physical_base: u32,
    /// The size of the external flash device. This must be a 2^N.
    pub flash_physical_size: u32,
    /// The address on the SPI device bus that the RAM (mailbox) is accessible at.
    pub ram_virtual_base: u32,
    /// The total size available on the SPI device bus. This must be a 2^N.
    pub virtual_size: u32,
}

/// The length of an `AddressConfig` on the wire, in bytes.
pub const ADDRESS_CONFIG_LEN: usize = 20;

/// The `u32` stored big-endian at offset `k` of `s`.
pub open spec fn be_u32_at(s: Seq<u8>, k: int) -> u32 {
    be_value(s.subrange(k, k + 4)) as u32
}

impl AddressConfig {
    /// The configuration's bytes on the wire: the five fields, big-endian, in
    /// order.
    pub open spec fn wire_bytes(self) -> Seq<u8> {
        be_bytes(self.flash_virtual_base as nat, 4) + be_bytes(self.flash_physical_base as nat, 4)
            + be_bytes(self.flash_physical_size as nat, 4) + be_bytes(
            self.ram_virtual_base as nat,
            4,
        ) + be_bytes(self.virtual_size as nat, 4)
    }

    /// What reading a configuration from `s` gives.
    pub open spec fn parse(s: Seq<u8>) -> Result<(AddressConfig, nat), FromWireError> {
        if s.len() < 20 {
            Err(exhausted())
        } else {
            Ok(
                (
                    AddressConfig {
                        flash_virtual_base: be_u32_at(s, 0),
                        flash_physical_base: be_u32_at(s, 4),
                        flash_physical_size: be_u32_at(s, 8),
                        ram_virtual_base: be_u32_at(s, 12),
                        virtual_size: be_u32_at(s, 16),
                    },
                    20,
                ),
            )
        }
    }

    /// Deserializes an `AddressConfig` from `r`.
    pub fn from_wire<'a, R: Read<'a>>(r: &mut R) -> (res: Result<Self, FromWireError>)
        ensures
            match Self::parse(old(r)@) {
                Ok((v, n)) => res == Ok::<AddressConfig, FromWireError>(v) && final(r)@ == old(
                    r,
                )@.skip(n as int),
                Err(e) => res == Err::<AddressConfig, FromWireError>(e),
            },
    {
        let ghost s = r@;
        let flash_virtual_base = match r.read_be::<u32>() {
            Ok(v) => v,
            Err(e) => return Err(FromWireError::from_io(e)),
        };
        proof { lemma_advance(s, 0, 4); }
        let flash_physical_base = match r.read_be::<u32>() {
            Ok(v) => v,
            Err(e) => return Err(FromWireError::from_io(e)),
        };
        proof { lemma_advance(s, 4, 4); }
        let flash_physical_size = match r.read_be::<u32>() {
            Ok(v) => v,
            Err(e) => return Err(FromWireError::from_io(e)),
        };
        proof { lemma_advance(s, 8, 4); }
        let ram_virtual_base = match r.read_be::<u32>() {
            Ok(v) => v,
            Err(e) => return Err(FromWireError::from_io(e)),
        };
        proof { lemma_advance(s, 12, 4); }
        let virtual_size = match r.read_be::<u32>() {
            Ok(v) => v,
            Err(e) => return Err(FromWireError::from_io(e)),
        };
        proof { lemma_advance(s, 16, 4); }
        Ok(
            Self {
                flash_virtual_base,
                flash_physical_base,
                flash_physical_size,
                ram_virtual_base,
                virtual_size,
            },
        )
    }

    /// Serializes `self` into `w`.
    pub fn to_wire<W: Write>(&self, w: &mut W) -> (res: Result<(), ToWireError>)
        requires
            old(w).can_write(),
        ensures
            final(w).can_write(),
            self.wire_bytes().len() <= old(w).room() ==> res == Ok::<(), ToWireError>(())
                && final(w).written() == old(w).written() + self.wire_bytes()
                && final(w).room() == old(w).room() - self.wire_bytes().len(),
            self.wire_bytes().len() > old(w).room() ==> res == Err::<(), ToWireError>(no_room()),
    {
        proof {
            lemma_be_bytes_len(self.flash_virtual_base as nat, 4);
            lemma_be_bytes_len(self.flash_physical_base as nat, 4);
            lemma_be_bytes_len(self.flash_physical_size as nat, 4);
            lemma_be_bytes_len(self.ram_virtual_base as nat, 4);
            lemma_be_bytes_len(self.virtual_size as nat, 4);
        }
        let ghost start = w.written();
        if let Err(e) = w.write_be(self.flash_virtual_base) {
            return Err(ToWireError::from_io(e));
        }
        if let Err(e) = w.write_be(self.flash_physical_base) {
            return Err(ToWireError::from_io(e));
        }
        if let Err(e) = w.write_be(self.flash_physical_size) {
            return Err(ToWireError::from_io(e));
        }
        if let Err(e) = w.write_be(self.ram_virtual_base) {
            return Err(ToWireError::from_io(e));
        }
        if let Err(e) = w.write_be(self.virtual_size) {
            return Err(ToWireError::from_io(e));
        }
        proof {
            assert(w.written() =~= start + self.wire_bytes());
        }
        Ok(())
    }
}

impl<'a> FromWire<'a> for AddressConfig {
    fn from_wire<R: Read<'a>>(r: &mut R) -> (res: Result<Self, FromWireError>)
        ensures
            match Self::parse(old(r)@) {
                Ok((v, n)) => res == Ok::<AddressConfig, FromWireError>(v) && final(r)@ == old(
                    r,
                )@.skip(n as int),
                Err(e) => res == Err::<AddressConfig, FromWireError>(e),
            },
    {
        AddressConfig::from_wire(r)
    }
}

impl ToWire for AddressConfig {
    fn to_wire<W: Write>(&self, w: &mut W) -> (res: Result<(), ToWireError>)
        ensures
            final(w).can_write(),
            self.wire_bytes().len() <= old(w).room() ==> res == Ok::<(), ToWireError>(())
                && final(w).written() == old(w).written() + self.wire_bytes()
                && final(w).room() == old(w).room() - self.wire_bytes().len(),
            self.wire_bytes().len() > old(w).room() ==> res == Err::<(), ToWireError>(no_room()),
    {
        AddressConfig::to_wire(self, w)
    }
}

/// The big-endian `u32` at offset `k` of `bytes + rest` is `v` when `bytes`
/// holds the encoding of `v` there.
pub proof fn lemma_be_u32_at(s: Seq<u8>, k: int, v: u32)
    requires
        0 <= k,
        k + 4 <= s.len(),
        s.subrange(k, k + 4) == be_bytes(v as nat, 4),
    ensures
        be_u32_at(s, k) == v,
{
    lemma_byte_pow_values();
    lemma_be_value_of_bytes(v as nat, 4);
}

/// Encoding the `u32` read at offset `k` gives back the bytes it was read from.
pub proof fn lemma_be_u32_at_canonical(s: Seq<u8>, k: int)
    requires
        0 <= k,
        k + 4 <= s.len(),
    ensures
        be_bytes(be_u32_at(s, k) as nat, 4) == s.subrange(k, k + 4),
{
    lemma_be_value_bound(s.subrange(k, k + 4));
    lemma_byte_pow_values();
    lemma_be_bytes_of_value(s.subrange(k, k + 4));
}

/// An address configuration survives a trip over the wire.
pub proof fn lemma_address_config_roundtrip(v: AddressConfig, rest: Seq<u8>)
    ensures
        v.wire_bytes().len() == ADDRESS_CONFIG_LEN,
        AddressConfig::parse(v.wire_bytes() + rest) == Ok::<(AddressConfig, nat), FromWireError>(
            (v, 20),
        ),
{
    lemma_be_bytes_len(v.flash_virtual_base as nat, 4);
    lemma_be_bytes_len(v.flash_physical_base as nat, 4);
    lemma_be_bytes_len(v.flash_physical_size as nat, 4);
    lemma_be_bytes_len(v.ram_virtual_base as nat, 4);
    lemma_be_bytes_len(v.virtual_size as nat, 4);
    let s = v.wire_bytes() + rest;
    assert(s.subrange(0, 4) =~= be_bytes(v.flash_virtual_base as nat, 4));
    assert(s.subrange(4, 8) =~= be_bytes(v.flash_physical_base as nat, 4));
    assert(s.subrange(8, 12) =~= be_bytes(v.flash_physical_size as nat, 4));
    assert(s.subrange(12, 16) =~= be_bytes(v.ram_virtual_base as nat, 4));
    assert(s.subrange(16, 20) =~= be_bytes(v.virtual_size as nat, 4));
    lemma_be_u32_at(s, 0, v.flash_virtual_base);
    lemma_be_u32_at(s, 4, v.flash_physical_base);
    lemma_be_u32_at(s, 8, v.flash_physical_size);
    lemma_be_u32_at(s, 12, v.ram_virtual_base);
    lemma_be_u32_at(s, 16, v.virtual_size);
}

/// Reading an address configuration is exact: the bytes it was read from are
/// the bytes it writes.
pub proof fn lemma_address_config_canonical(s: Seq<u8>)
    ensures
        AddressConfig::parse(s) matches Ok((v, n)) ==> v.wire_bytes() == s.take(n as int),
{
    if s.len() >= 20 {
        lemma_be_u32_at_canonical(s, 0);
        lemma_be_u32_at_canonical(s, 4);
        lemma_be_u32_at_canonical(s, 8);
        lemma_be_u32_at_canonical(s, 12);
        lemma_be_u32_at_canonical(s, 16);
        let (v, n) = AddressConfig::parse(s).unwrap();
        assert(v.wire_bytes() =~= s.take(20));
    }
}


/// The number that bytes `k` to `k + 3` of `s` spell, the first weighing
/// most.
pub open spec fn msb_first_at(s: Seq<u8>, k: int) -> int {
    s[k] * 0x100_0000 + s[k + 1] * 0x1_0000 + s[k + 2] * 0x100 + s[k + 3]
}

/// A big-endian `u32` read at `k` is the number its four bytes spell, the
/// first weighing most.
pub proof fn lemma_be_u32_at_digits(s: Seq<u8>, k: int)
    requires
        0 <= k,
        k + 4 <= s.len(),
    ensures
        be_u32_at(s, k) == msb_first_at(s, k),
{
    lemma_be_value_digits(s.subrange(k, k + 4));
}

/// An address configuration on the wire is its five fields in order, each
/// most significant byte first; reading one takes each field from its four
/// bytes the same way.
pub proof fn lemma_address_config_layout(c: AddressConfig, s: Seq<u8>)
    ensures
        c.wire_bytes() == msb_first4(c.flash_virtual_base) + msb_first4(c.flash_physical_base) + msb_first4(
            c.flash_physical_size,
        ) + msb_first4(c.ram_virtual_base) + msb_first4(c.virtual_size),
        AddressConfig::parse(s) matches Ok((p, _)) ==> p.flash_virtual_base == msb_first_at(s, 0)
            && p.flash_physical_base == msb_first_at(s, 4) && p.flash_physical_size == msb_first_at(s, 8)
            && p.ram_virtual_base == msb_first_at(s, 12) && p.virtual_size == msb_first_at(s, 16),
{
    lemma_be_bytes_digits(c.flash_virtual_base, 0);
    lemma_be_bytes_digits(c.flash_physical_base, 0);
    lemma_be_bytes_digits(c.flash_physical_size, 0);
    lemma_be_bytes_digits(c.ram_virtual_base, 0);
    lemma_be_bytes_digits(c.virtual_size, 0);
    if s.len() >= 20 {
        lemma_be_u32_at_digits(s, 0);
        lemma_be_u32_at_digits(s, 4);
        lemma_be_u32_at_digits(s, 8);
        lemma_be_u32_at_digits(s, 12);
        lemma_be_u32_at_digits(s, 16);
    }
}

} // verus!
