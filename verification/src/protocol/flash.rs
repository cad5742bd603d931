//! SPI flash protocol: op codes, address modes and the command header.

use vstd::prelude::*;
use crate::endian::{be_bytes, be_value, byte_pow, lemma_be_bytes_len, lemma_be_bytes_of_value, lemma_be_value_bound, lemma_be_value_of_bytes, lemma_byte_pow_values};
use crate::io::{BeInt, Read, ReadInt, U24, Write, WriteInt};
use crate::wire::{exhausted, lemma_advance, no_room, FromWire, FromWireError, ToWire, ToWireError, WireEnum};

verus! {

/// SPI flash address modes.
#[derive(Clone, Copy, PartialEq, Eq, Hash, Debug)]
pub enum AddressMode {
    /// Address is represented by 3 bytes.
    ThreeByte,
    /// Address is represented by 4 bytes.
    FourByte,
}

/// Error for invalid address mode conversion.
pub struct InvalidAddressMode;

impl AddressMode {
    /// The number of the mode: 0 for three-byte and 1 for four-byte addresses.
    pub open spec fn spec_number(self) -> usize {
        match self {
            AddressMode::ThreeByte => 0,
            AddressMode::FourByte => 1,
        }
    }

    /// Converts a number into a mode; numbers above 1 are refused.
    pub fn try_from(item: usize) -> (r: Result<AddressMode, InvalidAddressMode>)
        ensures
            item <= 1 ==> (r matches Ok(m) && m.spec_number() == item),
            item > 1 ==> r is Err,
    {
        match item {
            0 => Ok(AddressMode::ThreeByte),
            1 => Ok(AddressMode::FourByte),
            _ => Err(InvalidAddressMode),
        }
    }
}

impl From<AddressMode> for usize {
    fn from(item: AddressMode) -> (n: usize) {
        match item {
            AddressMode::ThreeByte => 0,
            AddressMode::FourByte => 1,
        }
    }
}

impl vstd::std_specs::convert::FromSpecImpl<AddressMode> for usize {
    open spec fn obeys_from_spec() -> bool {
        true
    }

    open spec fn from_spec(item: AddressMode) -> usize {
        item.spec_number()
    }
}

/// SPI flash op codes.
#[derive(Clone, Copy, PartialEq, Eq, Hash, Debug)]
pub enum OpCode {
    /// No operation
    Nop,
    /// Write to eeprom_status register.
    WriteStatusRegister,
    /// Returns contents of eeprom_status register. Implemented in hardware.
    ReadStatusRegister,
    /// Disables writes to device, sets WEL = 0 in hardware.
    WriteDisable,
    /// Enables writes to device, sets WEL = 1 in hardware.
    WriteEnable,
    /// Suspend write. Software should set WSP or WSE = 1.
    WriteSuspend,
    /// Resumes write. Software should set WSP or WSE = 0.
    WriteResume,
    /// Clears bits of a particular 4KB sector to '1'. HW sets BUSY bit.
    SectorErase,
    /// Clears bits of a particular 32KB block to '1'. HW sets BUSY bit.
    BlockErase32KB,
    /// Clears bits of a particular 64KB block to '1'. HW sets BUSY bit.
    BlockErase64KB,
    /// Clears all bits to '1'. HW sets BUSY bit.
    ChipErase,
    /// Alternative op code for ChipErase. HW sets BUSY bit.
    ChipErase2,
    /// Programs up to 256 bytes of memory. HW sets BUSY bit.
    PageProgram,
    /// Retrieves JEDEC-ID as configured in jedec_id registers.
    ReadJedec,
    /// Retrieves SFDP as configured in sfdp registers.
    ReadSfdp,
    /// Retrieves data; the behavior depends on the selected mode.
    NormalRead,
    /// Retrieves data with a one-byte delay after the address.
    FastRead,
    /// Similar to FastRead but uses explicit 4 byte addressing.
    FastRead4B,
    /// Similar to FastRead with output on both MISO and MOSI.
    FastReadDualOutput,
    /// Enable 4 byte address mode.
    Enter4ByteAddressMode,
    /// Disable 4 byte address mode and revert to 3 byte address mode.
    Exit4ByteAddressMode,
}

impl WireEnum for OpCode {
    open spec fn spec_to_wire_value(self) -> u8 {
        match self {
            OpCode::Nop => 0x00,
            OpCode::WriteStatusRegister => 0x01,
            OpCode::ReadStatusRegister => 0x05,
            OpCode::WriteDisable => 0x04,
            OpCode::WriteEnable => 0x06,
            OpCode::WriteSuspend => 0xb0,
            OpCode::WriteResume => 0x30,
            OpCode::SectorErase => 0x20,
            OpCode::BlockErase32KB => 0x52,
            OpCode::BlockErase64KB => 0xd8,
            OpCode::ChipErase => 0xc7,
            OpCode::ChipErase2 => 0x60,
            OpCode::PageProgram => 0x02,
            OpCode::ReadJedec => 0x9f,
            OpCode::ReadSfdp => 0x5a,
            OpCode::NormalRead => 0x03,
            OpCode::FastRead => 0x0b,
            OpCode::FastRead4B => 0x0c,
            OpCode::FastReadDualOutput => 0x3b,
            OpCode::Enter4ByteAddressMode => 0xb7,
            OpCode::Exit4ByteAddressMode => 0xe9,
        }
    }

    open spec fn spec_from_wire_value(wire: u8) -> Option<Self> {
        if wire == 0x00 {
            Some(OpCode::Nop)
        } else if wire == 0x01 {
            Some(OpCode::WriteStatusRegister)
        } else if wire == 0x05 {
            Some(OpCode::ReadStatusRegister)
        } else if wire == 0x04 {
            Some(OpCode::WriteDisable)
        } else if wire == 0x06 {
            Some(OpCode::WriteEnable)
        } else if wire == 0xb0 {
            Some(OpCode::WriteSuspend)
        } else if wire == 0x30 {
            Some(OpCode::WriteResume)
        } else if wire == 0x20 {
            Some(OpCode::SectorErase)
        } else if wire == 0x52 {
            Some(OpCode::BlockErase32KB)
        } else if wire == 0xd8 {
            Some(OpCode::BlockErase64KB)
        } else if wire == 0xc7 {
            Some(OpCode::ChipErase)
        } else if wire == 0x60 {
            Some(OpCode::ChipErase2)
        } else if wire == 0x02 {
            Some(OpCode::PageProgram)
        } else if wire == 0x9f {
            Some(OpCode::ReadJedec)
        } else if wire == 0x5a {
            Some(OpCode::ReadSfdp)
        } else if wire == 0x03 {
            Some(OpCode::NormalRead)
        } else if wire == 0x0b {
            Some(OpCode::FastRead)
        } else if wire == 0x0c {
            Some(OpCode::FastRead4B)
        } else if wire == 0x3b {
            Some(OpCode::FastReadDualOutput)
        } else if wire == 0xb7 {
            Some(OpCode::Enter4ByteAddressMode)
        } else if wire == 0xe9 {
            Some(OpCode::Exit4ByteAddressMode)
        } else {
            None
        }
    }

    fn to_wire_value(self) -> (r: u8) {
        match self {
            OpCode::Nop => 0x00,
            OpCode::WriteStatusRegister => 0x01,
            OpCode::ReadStatusRegister => 0x05,
            OpCode::WriteDisable => 0x04,
            OpCode::WriteEnable => 0x06,
            OpCode::WriteSuspend => 0xb0,
            OpCode::WriteResume => 0x30,
            OpCode::SectorErase => 0x20,
            OpCode::BlockErase32KB => 0x52,
            OpCode::BlockErase64KB => 0xd8,
            OpCode::ChipErase => 0xc7,
            OpCode::ChipErase2 => 0x60,
            OpCode::PageProgram => 0x02,
            OpCode::ReadJedec => 0x9f,
            OpCode::ReadSfdp => 0x5a,
            OpCode::NormalRead => 0x03,
            OpCode::FastRead => 0x0b,
            OpCode::FastRead4B => 0x0c,
            OpCode::FastReadDualOutput => 0x3b,
            OpCode::Enter4ByteAddressMode => 0xb7,
            OpCode::Exit4ByteAddressMode => 0xe9,
        }
    }

    fn from_wire_value(wire: u8) -> (r: Option<Self>) {
        match wire {
            0x00 => Some(OpCode::Nop),
            0x01 => Some(OpCode::WriteStatusRegister),
            0x05 => Some(OpCode::ReadStatusRegister),
            0x04 => Some(OpCode::WriteDisable),
            0x06 => Some(OpCode::WriteEnable),
            0xb0 => Some(OpCode::WriteSuspend),
            0x30 => Some(OpCode::WriteResume),
            0x20 => Some(OpCode::SectorErase),
            0x52 => Some(OpCode::BlockErase32KB),
            0xd8 => Some(OpCode::BlockErase64KB),
            0xc7 => Some(OpCode::ChipErase),
            0x60 => Some(OpCode::ChipErase2),
            0x02 => Some(OpCode::PageProgram),
            0x9f => Some(OpCode::ReadJedec),
            0x5a => Some(OpCode::ReadSfdp),
            0x03 => Some(OpCode::NormalRead),
            0x0b => Some(OpCode::FastRead),
            0x0c => Some(OpCode::FastRead4B),
            0x3b => Some(OpCode::FastReadDualOutput),
            0xb7 => Some(OpCode::Enter4ByteAddressMode),
            0xe9 => Some(OpCode::Exit4ByteAddressMode),
            _ => None,
        }
    }

    proof fn lemma_wire_value_roundtrip(self) {
    }

    proof fn lemma_wire_value_canonical(wire: u8) {
    }
}

impl OpCode {
    /// Whether the op code is followed by an address.
    pub open spec fn spec_has_address(self) -> bool {
        match self {
            OpCode::SectorErase | OpCode::BlockErase32KB | OpCode::BlockErase64KB
            | OpCode::PageProgram | OpCode::ReadSfdp | OpCode::NormalRead | OpCode::FastRead
            | OpCode::FastRead4B | OpCode::FastReadDualOutput => true,
            _ => false,
        }
    }

    /// Whether the op code is followed by a dummy byte.
    pub open spec fn spec_has_dummy_byte(self) -> bool {
        match self {
            OpCode::FastRead | OpCode::FastRead4B | OpCode::FastReadDualOutput => true,
            _ => false,
        }
    }

    /// Whether the op code carries data.
    pub open spec fn spec_has_data(self) -> bool {
        match self {
            OpCode::PageProgram => true,
            _ => false,
        }
    }

    /// Whether the op code requires the BUSY bit to clear.
    pub open spec fn spec_wait_busy_clear(self) -> bool {
        match self {
            OpCode::WriteSuspend | OpCode::WriteResume | OpCode::SectorErase
            | OpCode::BlockErase32KB | OpCode::BlockErase64KB | OpCode::ChipErase
            | OpCode::ChipErase2 | OpCode::PageProgram => true,
            _ => false,
        }
    }

    /// Returns true iff the OpCode requires an address.
    pub fn has_address(&self) -> (b: bool)
        ensures
            b == self.spec_has_address(),
    {
        match self {
            OpCode::SectorErase => true,
            OpCode::BlockErase32KB => true,
            OpCode::BlockErase64KB => true,
            OpCode::PageProgram => true,
            OpCode::ReadSfdp => true,
            OpCode::NormalRead => true,
            OpCode::FastRead => true,
            OpCode::FastRead4B => true,
            OpCode::FastReadDualOutput => true,
            _ => false,
        }
    }

    /// Returns true iff the OpCode requires a dummy byte.
    pub fn has_dummy_byte(&self) -> (b: bool)
        ensures
            b == self.spec_has_dummy_byte(),
    {
        match self {
            OpCode::FastRead => true,
            OpCode::FastRead4B => true,
            OpCode::FastReadDualOutput => true,
            _ => false,
        }
    }

    /// Returns true iff the OpCode requires data.
    pub fn has_data(&self) -> (b: bool)
        ensures
            b == self.spec_has_data(),
    {
        match self {
            OpCode::PageProgram => true,
            _ => false,
        }
    }

    /// Returns true iff the OpCode requires for the BUSY bit to clear.
    pub fn wait_busy_clear(&self) -> (b: bool)
        ensures
            b == self.spec_wait_busy_clear(),
    {
        match self {
            OpCode::WriteSuspend => true,
            OpCode::WriteResume => true,
            OpCode::SectorErase => true,
            OpCode::BlockErase32KB => true,
            OpCode::BlockErase64KB => true,
            OpCode::ChipErase => true,
            OpCode::ChipErase2 => true,
            OpCode::PageProgram => true,
            _ => false,
        }
    }
}

/// Every op code that needs a dummy byte also needs an address.
pub proof fn lemma_dummy_byte_has_address(op: OpCode)
    ensures
        op.spec_has_dummy_byte() ==> op.spec_has_address(),
{
}

/// The value of the dummy byte that follows some op codes.
pub const DUMMY_BYTE_VALUE: u8 = 0xff;

/// Error used when address cannot be converted.
pub struct AddressConversionError;

/// Address in SPI flash protocol header: a big-endian integer that converts
/// to and from `u32`.
pub trait Address: BeInt {
    /// Every address fits in its width.
    proof fn lemma_value_fits(a: Self)
        ensures
            a.value() < byte_pow(Self::width()),
    ;

    /// Convert from a u32; fails when `val` does not fit in `width()` bytes.
    fn try_from(val: u32) -> (r: Result<Self, AddressConversionError>)
        ensures
            val < byte_pow(Self::width()) ==> (r matches Ok(a) && a.value() == val),
            val >= byte_pow(Self::width()) ==> r is Err,
    ;

    /// Convert into a u32.
    fn into_u32(self) -> (v: u32)
        ensures
            v == self.value(),
    ;
}

impl Address for U24 {
    proof fn lemma_value_fits(a: Self) {
        a.lemma_fits();
        lemma_byte_pow_values();
    }

    fn try_from(val: u32) -> (r: Result<Self, AddressConversionError>) {
        proof {
            lemma_byte_pow_values();
        }
        if val >= U24::min_value() && val <= U24::max_value() {
            Ok(U24::new(val))
        } else {
            Err(AddressConversionError {})
        }
    }

    fn into_u32(self) -> (v: u32) {
        self.get()
    }
}

impl Address for u32 {
    proof fn lemma_value_fits(a: Self) {
        lemma_byte_pow_values();
    }

    fn try_from(val: u32) -> (r: Result<Self, AddressConversionError>) {
        proof {
            lemma_byte_pow_values();
        }
        Ok(val)
    }

    fn into_u32(self) -> (v: u32) {
        self
    }
}

/// A parsed SPI flash protocol header.
#[derive(Clone, Copy, PartialEq, Eq, Hash, Debug)]
pub struct Header<AddrType> {
    /// The SPI op code
    pub opcode: OpCode,
    /// The address. Not all SPI op codes require an address.
    pub address: Option<AddrType>,
}

/// The number of bytes that the command with op code `op` and address width
/// `width` occupies.
pub open spec fn header_len(op: OpCode, width: nat) -> nat {
    1 + (if op.spec_has_address() {
        width
    } else {
        0
    }) + (if op.spec_has_dummy_byte() {
        1nat
    } else {
        0
    })
}

/// What reading a header with `width`-byte addresses from `s` gives: the op
/// code, the value of the address if the op code has one, and the number of
/// bytes taken (the dummy byte, whatever its value, included).
pub open spec fn header_parse(s: Seq<u8>, width: nat) -> Result<
    (OpCode, Option<nat>, nat),
    FromWireError,
> {
    if s.len() < 1 {
        Err(exhausted())
    } else {
        match OpCode::spec_from_wire_value(s[0]) {
            None => Err(FromWireError::OutOfRange),
            Some(op) => if s.len() < header_len(op, width) {
                Err(exhausted())
            } else {
                Ok(
                    (
                        op,
                        if op.spec_has_address() {
                            Some(be_value(s.subrange(1, 1 + width as int)))
                        } else {
                            None
                        },
                        header_len(op, width),
                    ),
                )
            },
        }
    }
}

impl<AddrType: Address> Header<AddrType> {
    /// The value of the address, if there is one.
    pub open spec fn address_value(self) -> Option<nat> {
        match self.address {
            Some(a) => Some(a.value()),
            None => None,
        }
    }

    /// The header's bytes on the wire: the op code, the address if the op code
    /// takes one, and the dummy byte if it takes one.
    pub open spec fn wire_bytes(self) -> Seq<u8> {
        seq![self.opcode.spec_to_wire_value()] + (if self.opcode.spec_has_address() {
            be_bytes(self.address_value().unwrap(), AddrType::width())
        } else {
            Seq::empty()
        }) + (if self.opcode.spec_has_dummy_byte() {
            seq![DUMMY_BYTE_VALUE]
        } else {
            Seq::empty()
        })
    }

    /// The address is present exactly when the op code takes one.
    pub open spec fn consistent(self) -> bool {
        self.opcode.spec_has_address() == self.address.is_some()
    }

    /// Get the address as an Option<u32>
    pub fn get_address(&self) -> (r: Option<u32>)
        ensures
            match self.address {
                Some(a) => r == Some(a.value() as u32) && a.value() == r.unwrap(),
                None => r is None,
            },
    {
        match self.address {
            Some(val) => Some(val.into_u32()),
            None => None,
        }
    }

    /// Deserializes a `Header` from `r`.
    pub fn from_wire<'a, R: Read<'a>>(r: &mut R) -> (res: Result<Self, FromWireError>)
        ensures
            match header_parse(old(r)@, AddrType::width()) {
                Ok((op, addr, n)) => (res matches Ok(h) && h.opcode == op && h.address_value()
                    == addr) && final(r)@ == old(r)@.skip(n as int),
                Err(e) => res matches Err(e2) && e2 == e,
            },
    {
        let ghost s = r@;
        let opcode_u8 = match r.read_be::<u8>() {
            Ok(v) => v,
            Err(e) => return Err(FromWireError::from_io(e)),
        };
        proof {
            reveal_with_fuel(be_value, 2);
            lemma_advance(s, 0, 1);
        }
        let opcode = match OpCode::from_wire_value(opcode_u8) {
            Some(v) => v,
            None => return Err(FromWireError::OutOfRange),
        };
        let address = match opcode.has_address() {
            true => match r.read_be::<AddrType>() {
                Ok(a) => Some(a),
                Err(e) => return Err(FromWireError::from_io(e)),
            },
            false => None,
        };
        let ghost used: int = if opcode.spec_has_address() {
            1 + AddrType::width() as int
        } else {
            1
        };
        proof {
            if opcode.spec_has_address() {
                lemma_advance(s, 1, AddrType::width() as int);
            }
        }
        if opcode.has_dummy_byte() {
            // The value does not matter; the byte only has to be consumed.
            let _ = match r.read_be::<u8>() {
                Ok(v) => v,
                Err(e) => return Err(FromWireError::from_io(e)),
            };
            proof {
                lemma_advance(s, used, 1);
            }
        }
        Ok(Self { opcode, address })
    }

    /// Serializes `self` into `w`. The op code is written first; a header
    /// whose op code takes an address but that has none is then refused.
    pub fn to_wire<W: Write>(&self, w: &mut W) -> (res: Result<(), ToWireError>)
        requires
            old(w).can_write(),
        ensures
            final(w).can_write(),
            old(w).room() < 1 ==> res == Err::<(), ToWireError>(no_room()),
            old(w).room() >= 1 && self.opcode.spec_has_address() && self.address is None ==> res
                == Err::<(), ToWireError>(ToWireError::InvalidData),
            old(w).room() >= 1 && !(self.opcode.spec_has_address() && self.address is None) ==> {
                &&& self.wire_bytes().len() <= old(w).room() ==> res == Ok::<(), ToWireError>(())
                    && final(w).written() == old(w).written() + self.wire_bytes()
                    && final(w).room() == old(w).room() - self.wire_bytes().len()
                &&& self.wire_bytes().len() > old(w).room() ==> res == Err::<(), ToWireError>(
                    no_room(),
                )
            },
    {
        proof {
            reveal_with_fuel(be_bytes, 2);
        }
        let ghost start = w.written();
        if let Err(e) = w.write_be(self.opcode.to_wire_value()) {
            return Err(ToWireError::from_io(e));
        }
        if self.opcode.has_address() {
            if !self.address.is_some() {
                return Err(ToWireError::InvalidData);
            }
            let a = self.address.unwrap();
            proof {
                lemma_be_bytes_len(a.value(), AddrType::width());
            }
            if let Err(e) = w.write_be(a) {
                return Err(ToWireError::from_io(e));
            }
        }
        if self.opcode.has_dummy_byte() {
            if let Err(e) = w.write_be(DUMMY_BYTE_VALUE) {
                return Err(ToWireError::from_io(e));
            }
        }
        proof {
            if self.opcode.spec_has_address() {
                lemma_be_bytes_len(self.address_value().unwrap(), AddrType::width());
            }
            assert(w.written() =~= start + self.wire_bytes());
        }
        Ok(())
    }
}

impl<'a> FromWire<'a> for Header<U24> {
    fn from_wire<R: Read<'a>>(r: &mut R) -> (res: Result<Self, FromWireError>)
        ensures
            match header_parse(old(r)@, 3) {
                Ok((op, addr, n)) => (res matches Ok(h) && h.opcode == op && h.address_value()
                    == addr) && final(r)@ == old(r)@.skip(n as int),
                Err(e) => res matches Err(e2) && e2 == e,
            },
    {
        Header::<U24>::from_wire(r)
    }
}

impl ToWire for Header<U24> {
    fn to_wire<W: Write>(&self, w: &mut W) -> (res: Result<(), ToWireError>)
        ensures
            final(w).can_write(),
            old(w).room() < 1 ==> res == Err::<(), ToWireError>(no_room()),
            old(w).room() >= 1 && self.opcode.spec_has_address() && self.address is None ==> res
                == Err::<(), ToWireError>(ToWireError::InvalidData),
            old(w).room() >= 1 && !(self.opcode.spec_has_address() && self.address is None) ==> {
                &&& self.wire_bytes().len() <= old(w).room() ==> res == Ok::<(), ToWireError>(())
                    && final(w).written() == old(w).written() + self.wire_bytes()
                    && final(w).room() == old(w).room() - self.wire_bytes().len()
                &&& self.wire_bytes().len() > old(w).room() ==> res == Err::<(), ToWireError>(
                    no_room(),
                )
            },
    {
        Header::<U24>::to_wire(self, w)
    }
}

impl<'a> FromWire<'a> for Header<u32> {
    fn from_wire<R: Read<'a>>(r: &mut R) -> (res: Result<Self, FromWireError>)
        ensures
            match header_parse(old(r)@, 4) {
                Ok((op, addr, n)) => (res matches Ok(h) && h.opcode == op && h.address_value()
                    == addr) && final(r)@ == old(r)@.skip(n as int),
                Err(e) => res matches Err(e2) && e2 == e,
            },
    {
        Header::<u32>::from_wire(r)
    }
}

impl ToWire for Header<u32> {
    fn to_wire<W: Write>(&self, w: &mut W) -> (res: Result<(), ToWireError>)
        ensures
            final(w).can_write(),
            old(w).room() < 1 ==> res == Err::<(), ToWireError>(no_room()),
            old(w).room() >= 1 && self.opcode.spec_has_address() && self.address is None ==> res
                == Err::<(), ToWireError>(ToWireError::InvalidData),
            old(w).room() >= 1 && !(self.opcode.spec_has_address() && self.address is None) ==> {
                &&& self.wire_bytes().len() <= old(w).room() ==> res == Ok::<(), ToWireError>(())
                    && final(w).written() == old(w).written() + self.wire_bytes()
                    && final(w).room() == old(w).room() - self.wire_bytes().len()
                &&& self.wire_bytes().len() > old(w).room() ==> res == Err::<(), ToWireError>(
                    no_room(),
                )
            },
    {
        Header::<u32>::to_wire(self, w)
    }
}

/// A command header survives a trip over the wire: when its address is present
/// exactly when its op code takes one, reading the bytes `to_wire` writes for
/// it gives back its op code and address and takes exactly those bytes.
pub proof fn lemma_header_roundtrip<A: Address>(h: Header<A>, rest: Seq<u8>)
    requires
        h.consistent(),
    ensures
        h.wire_bytes().len() == header_len(h.opcode, A::width()),
        header_parse(h.wire_bytes() + rest, A::width()) == Ok::<
            (OpCode, Option<nat>, nat),
            FromWireError,
        >((h.opcode, h.address_value(), header_len(h.opcode, A::width()))),
{
    h.opcode.lemma_wire_value_roundtrip();
    if h.address is Some {
        A::lemma_value_fits(h.address->0);
    }
    let s = h.wire_bytes() + rest;
    assert(s[0] == h.opcode.spec_to_wire_value());
    if h.opcode.spec_has_address() {
        let v = h.address_value().unwrap();
        lemma_be_bytes_len(v, A::width());
        assert(s.subrange(1, 1 + A::width() as int) =~= be_bytes(v, A::width()));
        lemma_be_value_of_bytes(v, A::width());
    }
}

/// Reading a command header is exact up to the dummy byte: the op code and
/// address bytes it was read from are the ones it writes, and the byte after
/// them is a dummy byte when the op code takes one.
pub proof fn lemma_header_canonical(s: Seq<u8>, width: nat)
    ensures
        header_parse(s, width) matches Ok((op, addr, n)) ==> {
            let len = if op.spec_has_address() {
                1 + width
            } else {
                1
            };
            &&& s[0] == op.spec_to_wire_value()
            &&& op.spec_has_address() ==> (addr matches Some(v) && be_bytes(v, width)
                == s.subrange(1, len as int))
            &&& n == len + (if op.spec_has_dummy_byte() {
                1nat
            } else {
                0
            })
        },
{
    if let Ok((op, addr, n)) = header_parse(s, width) {
        OpCode::lemma_wire_value_canonical(s[0]);
        if op.spec_has_address() {
            lemma_be_bytes_of_value(s.subrange(1, 1 + width as int));
        }
    }
}


/// The protocol's bytes for the op codes: Nop 0x00, WriteStatusRegister 0x01, ReadStatusRegister 0x05, WriteDisable 0x04, WriteEnable 0x06, WriteSuspend 0xb0, WriteResume 0x30, SectorErase 0x20, BlockErase32KB 0x52, BlockErase64KB 0xd8, ChipErase 0xc7, ChipErase2 0x60, PageProgram 0x02, ReadJedec 0x9f, ReadSfdp 0x5a, NormalRead 0x03, FastRead 0x0b, FastRead4B 0x0c, FastReadDualOutput 0x3b, Enter4ByteAddressMode 0xb7, Exit4ByteAddressMode 0xe9; no other byte names one.
pub proof fn lemma_op_code_wire_values(wire: u8)
    ensures
        OpCode::Nop.spec_to_wire_value() == 0x00u8,
        OpCode::WriteStatusRegister.spec_to_wire_value() == 0x01u8,
        OpCode::ReadStatusRegister.spec_to_wire_value() == 0x05u8,
        OpCode::WriteDisable.spec_to_wire_value() == 0x04u8,
        OpCode::WriteEnable.spec_to_wire_value() == 0x06u8,
        OpCode::WriteSuspend.spec_to_wire_value() == 0xb0u8,
        OpCode::WriteResume.spec_to_wire_value() == 0x30u8,
        OpCode::SectorErase.spec_to_wire_value() == 0x20u8,
        OpCode::BlockErase32KB.spec_to_wire_value() == 0x52u8,
        OpCode::BlockErase64KB.spec_to_wire_value() == 0xd8u8,
        OpCode::ChipErase.spec_to_wire_value() == 0xc7u8,
        OpCode::ChipErase2.spec_to_wire_value() == 0x60u8,
        OpCode::PageProgram.spec_to_wire_value() == 0x02u8,
        OpCode::ReadJedec.spec_to_wire_value() == 0x9fu8,
        OpCode::ReadSfdp.spec_to_wire_value() == 0x5au8,
        OpCode::NormalRead.spec_to_wire_value() == 0x03u8,
        OpCode::FastRead.spec_to_wire_value() == 0x0bu8,
        OpCode::FastRead4B.spec_to_wire_value() == 0x0cu8,
        OpCode::FastReadDualOutput.spec_to_wire_value() == 0x3bu8,
        OpCode::Enter4ByteAddressMode.spec_to_wire_value() == 0xb7u8,
        OpCode::Exit4ByteAddressMode.spec_to_wire_value() == 0xe9u8,
        OpCode::spec_from_wire_value(wire) is Some <==> (wire == 0x00u8 || wire == 0x01u8 || wire == 0x05u8 || wire == 0x04u8 || wire == 0x06u8 || wire == 0xb0u8 || wire == 0x30u8 || wire == 0x20u8 || wire == 0x52u8 || wire == 0xd8u8 || wire == 0xc7u8 || wire == 0x60u8 || wire == 0x02u8 || wire == 0x9fu8 || wire == 0x5au8 || wire == 0x03u8 || wire == 0x0bu8 || wire == 0x0cu8 || wire == 0x3bu8 || wire == 0xb7u8 || wire == 0xe9u8),
        OpCode::spec_from_wire_value(wire) matches Some(v) ==> v.spec_to_wire_value() == wire,
{
    OpCode::lemma_wire_value_canonical(wire);
}


/// Which op codes take an address and a dummy byte: the erases of a sector
/// and of 32KB and 64KB blocks, page program, the SFDP read and the reads
/// take an address; the fast reads also take a dummy byte; the others take
/// neither.
pub proof fn lemma_op_code_operands()
    ensures
        !OpCode::Nop.spec_has_address(),
        !OpCode::WriteStatusRegister.spec_has_address(),
        !OpCode::ReadStatusRegister.spec_has_address(),
        !OpCode::WriteDisable.spec_has_address(),
        !OpCode::WriteEnable.spec_has_address(),
        !OpCode::WriteSuspend.spec_has_address(),
        !OpCode::WriteResume.spec_has_address(),
        OpCode::SectorErase.spec_has_address(),
        OpCode::BlockErase32KB.spec_has_address(),
        OpCode::BlockErase64KB.spec_has_address(),
        !OpCode::ChipErase.spec_has_address(),
        !OpCode::ChipErase2.spec_has_address(),
        OpCode::PageProgram.spec_has_address(),
        !OpCode::ReadJedec.spec_has_address(),
        OpCode::ReadSfdp.spec_has_address(),
        OpCode::NormalRead.spec_has_address(),
        OpCode::FastRead.spec_has_address(),
        OpCode::FastRead4B.spec_has_address(),
        OpCode::FastReadDualOutput.spec_has_address(),
        !OpCode::Enter4ByteAddressMode.spec_has_address(),
        !OpCode::Exit4ByteAddressMode.spec_has_address(),
        !OpCode::Nop.spec_has_dummy_byte(),
        !OpCode::WriteStatusRegister.spec_has_dummy_byte(),
        !OpCode::ReadStatusRegister.spec_has_dummy_byte(),
        !OpCode::WriteDisable.spec_has_dummy_byte(),
        !OpCode::WriteEnable.spec_has_dummy_byte(),
        !OpCode::WriteSuspend.spec_has_dummy_byte(),
        !OpCode::WriteResume.spec_has_dummy_byte(),
        !OpCode::SectorErase.spec_has_dummy_byte(),
        !OpCode::BlockErase32KB.spec_has_dummy_byte(),
        !OpCode::BlockErase64KB.spec_has_dummy_byte(),
        !OpCode::ChipErase.spec_has_dummy_byte(),
        !OpCode::ChipErase2.spec_has_dummy_byte(),
        !OpCode::PageProgram.spec_has_dummy_byte(),
        !OpCode::ReadJedec.spec_has_dummy_byte(),
        !OpCode::ReadSfdp.spec_has_dummy_byte(),
        !OpCode::NormalRead.spec_has_dummy_byte(),
        OpCode::FastRead.spec_has_dummy_byte(),
        OpCode::FastRead4B.spec_has_dummy_byte(),
        OpCode::FastReadDualOutput.spec_has_dummy_byte(),
        !OpCode::Enter4ByteAddressMode.spec_has_dummy_byte(),
        !OpCode::Exit4ByteAddressMode.spec_has_dummy_byte(),
{
}

/// How a command header lies on the wire, by its first byte: after the
/// bytes of the erases (0x20, 0x52, 0xd8), page program (0x02), the SFDP
/// read (0x5a) and the normal read (0x03) come a `width`-byte big-endian
/// address and nothing more; after the fast reads (0x0b, 0x0c, 0x3b) the
/// address and a dummy byte; every other op code's byte stands alone.
pub proof fn lemma_header_layout(s: Seq<u8>, width: nat)
    requires
        s.len() >= width + 2,
    ensures
        (s[0] == 0x20 || s[0] == 0x52 || s[0] == 0xd8 || s[0] == 0x02 || s[0] == 0x5a || s[0] == 0x03)
            ==> (header_parse(s, width) matches Ok((_, addr, n)) && addr == Some(
            be_value(s.subrange(1, 1 + width as int)),
        ) && n == 1 + width),
        (s[0] == 0x0b || s[0] == 0x0c || s[0] == 0x3b) ==> (header_parse(s, width) matches Ok((_, addr, n))
            && addr == Some(be_value(s.subrange(1, 1 + width as int))) && n == 2 + width),
        (s[0] == 0x00 || s[0] == 0x01 || s[0] == 0x05 || s[0] == 0x04 || s[0] == 0x06 || s[0] == 0xb0
            || s[0] == 0x30 || s[0] == 0xc7 || s[0] == 0x60 || s[0] == 0x9f || s[0] == 0xb7 || s[0] == 0xe9)
            ==> (header_parse(s, width) matches Ok((_, addr, n)) && addr is None && n == 1),
{
}

/// A header written for an op code that takes an address carries the
/// address: its bytes are the op code's byte, the address in `width` bytes,
/// and the dummy byte of the fast reads.
pub proof fn lemma_header_bytes<A: Address>(h: Header<A>)
    requires
        h.consistent(),
        h.opcode.spec_has_address(),
    ensures
        h.wire_bytes().len() == 1 + A::width() + (if h.opcode.spec_has_dummy_byte() { 1nat } else { 0nat }),
        h.wire_bytes().subrange(1, 1 + A::width() as int) == be_bytes(h.address_value().unwrap(), A::width()),
{
    lemma_be_bytes_len(h.address_value().unwrap(), A::width());
    assert(h.wire_bytes().subrange(1, 1 + A::width() as int) =~= be_bytes(h.address_value().unwrap(), A::width()));
}

} // verus!
