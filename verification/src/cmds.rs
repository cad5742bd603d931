//! SPI flash op codes as plain numbers.

use vstd::prelude::*;

verus! {

/// SPI flash op codes
#[derive(Clone, Copy, PartialEq, Eq, Debug)]
pub enum OpCodes {
    /// No operation
    Nop,
    /// Returns contents of eeprom_status register. Implemented in hardware.
    ReadStatusRegister,
    /// Disables writes to device, sets WEL = 0 in hardware.
    WriteDisable,
    /// Enables writes to device, sets WEL = 1 in hardware.
    WriteEnable,
    /// Suspend write. Software should set WSP or WSE = 1.
    WriteSuspend,
    /// Resumes write. Software should set WSP or WSE = 0.
    WriteResume,
    /// Clears bits of a particular 4KB sector to '1'.
    SectorErase,
    /// Clears bits of a particular 32KB block to '1'.
    BlockErase32KB,
    /// Clears bits of a particular 64KB block to '1'.
    BlockErase64KB,
    /// Clears all bits to '1'.
    ChipErase,
    /// Alternative op code for ChipErase.
    ChipErase2,
    /// Programs up to 256 bytes of memory.
    PageProgram,
    /// Retrieves JEDEC-ID as configured in jedec_id registers.
    ReadJedec,
    /// Retrieves SFDP as configured in sfdp registers.
    ReadSfdp,
    /// Retrieves data; the behavior depends on the selected mode.
    NormalRead,
    /// Retrieves data with a one-byte delay after the address.
    FastRead,
    /// Similar to FastRead but uses explicit 4 byte addressing.
    FastRead4B,
    /// Similar to FastRead with output on both MISO and MOSI.
    FastReadDualOutput,
    /// Enable 4 byte address mode.
    Enter4ByteAddressMode,
    /// Disable 4 byte address mode and revert to 3 byte address mode.
    Exit4ByteAddressMode,
}

impl OpCodes {
    /// The byte of the op code.
    pub open spec fn spec_value(self) -> u8 {
        match self {
            OpCodes::Nop => 0x00,
            OpCodes::ReadStatusRegister => 0x05,
            OpCodes::WriteDisable => 0x04,
            OpCodes::WriteEnable => 0x06,
            OpCodes::WriteSuspend => 0xb0,
            OpCodes::WriteResume => 0x30,
            OpCodes::SectorErase => 0x20,
            OpCodes::BlockErase32KB => 0x52,
            OpCodes::BlockErase64KB => 0xd8,
            OpCodes::ChipErase => 0xc7,
            OpCodes::ChipErase2 => 0x60,
            OpCodes::PageProgram => 0x02,
            OpCodes::ReadJedec => 0x9f,
            OpCodes::ReadSfdp => 0x5a,
            OpCodes::NormalRead => 0x03,
            OpCodes::FastRead => 0x0b,
            OpCodes::FastRead4B => 0x0c,
            OpCodes::FastReadDualOutput => 0x3b,
            OpCodes::Enter4ByteAddressMode => 0xb7,
            OpCodes::Exit4ByteAddressMode => 0xe9,
        }
    }

    /// Returns the byte of the op code.
    pub fn value(self) -> (b: u8)
        ensures
            b == self.spec_value(),
    {
        match self {
            OpCodes::Nop => 0x00,
            OpCodes::ReadStatusRegister => 0x05,
            OpCodes::WriteDisable => 0x04,
            OpCodes::WriteEnable => 0x06,
            OpCodes::WriteSuspend => 0xb0,
            OpCodes::WriteResume => 0x30,
            OpCodes::SectorErase => 0x20,
            OpCodes::BlockErase32KB => 0x52,
            OpCodes::BlockErase64KB => 0xd8,
            OpCodes::ChipErase => 0xc7,
            OpCodes::ChipErase2 => 0x60,
            OpCodes::PageProgram => 0x02,
            OpCodes::ReadJedec => 0x9f,
            OpCodes::ReadSfdp => 0x5a,
            OpCodes::NormalRead => 0x03,
            OpCodes::FastRead => 0x0b,
            OpCodes::FastRead4B => 0x0c,
            OpCodes::FastReadDualOutput => 0x3b,
            OpCodes::Enter4ByteAddressMode => 0xb7,
            OpCodes::Exit4ByteAddressMode => 0xe9,
        }
    }
}

} // verus!
