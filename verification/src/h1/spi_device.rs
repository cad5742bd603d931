//! SPI device controller in EEPROM mode.
//!
//! The controller is described by the values of its registers
//! (`SpiDeviceRegisters`); the driver (`SpiDeviceHardware`) is the logic that
//! decides which values to program and how to interpret what the hardware
//! reports. The code that moves these values to and from the memory-mapped
//! registers lives outside this library.

use vstd::prelude::*;
use crate::driver::AddressConfig;
use crate::protocol::flash::{AddressMode, OpCode};
use crate::return_code::ReturnCode;
use crate::wire::WireEnum;

verus! {

/// SPI device EEPROM virtual pages are 512 bytes in size.
pub const PAGE_SHIFT: u32 = 9;

/// Number of passthrough filter rules.
pub const PASSTHRU_FILTER_RULE_COUNT: usize = 16;

/// Number of opcodes that can be configured to set the BUSY bit.
pub const BUSY_OPCODE_COUNT: usize = 8;

/// Number of bytes of the JEDEC ID registers.
pub const JEDEC_ID_LEN: usize = 12;

/// Number of bytes of the SFDP registers.
pub const SFDP_LEN: usize = 128;

/// Number of on-die RAM pages that can be mapped.
pub const RAM_PAGE_COUNT: usize = 4;

/// Size of the generic RAM that holds data sent to the SPI host.
pub const GENERIC_RAM_LEN: usize = 2048;

/// Size of the command buffer that holds data received from the SPI host.
pub const CMD_BUF_LEN: usize = 512;

/// CTRL mode: EEPROM.
pub const CTRL_MODE_EEPROM: u32 = 2;

/// CTRL mode: disabled.
pub const CTRL_MODE_DISABLED: u32 = 3;

/// EEPROM_CTRL: 4 byte addresses for read commands.
pub const EEPROM_CTRL_ADDR_MODE: u32 = 0x1;

/// EEPROM_CTRL: passthrough filtering disabled.
pub const EEPROM_CTRL_PASSTHRU_DIS: u32 = 0x2;

/// EEPROM_CTRL: external flash mapping disabled.
pub const EEPROM_CTRL_EXT_FLASH_DIS: u32 = 0x4;

/// EEPROM_CTRL: internal flash mapping disabled.
pub const EEPROM_CTRL_INT_FLASH_DIS: u32 = 0x8;

/// EEPROM_CTRL: internal RAM mapping disabled.
pub const EEPROM_CTRL_RAM_DIS: u32 = 0x10;

/// EEPROM_CTRL: fast dual read enabled.
pub const EEPROM_CTRL_FAST_DUAL_RD_EN: u32 = 0x400;

/// EEPROM_CTRL: virtual address filter enabled.
pub const EEPROM_CTRL_VIRTUAL_ADDR_FILTER_EN: u32 = 0x800;

/// EEPROM_CTRL value written first by `init`: everything disabled, a
/// prefetch limit of 2 and fast dual reads enabled.
pub const EEPROM_CTRL_INIT: u32 = 0x49e;

/// The first word of the JEDEC ID: OpenTitan with 64 MiB of visible flash.
pub const JEDEC_ID_WORD0: u32 = 0x0020_3126;

/// Interrupt enable bit for "command address FIFO not empty".
pub const EEPROM_INT_CMD_ADDR_FIFO_NOT_EMPTY: u32 = 0x1;

/// Configuration for SPI device hardware.
#[derive(Clone, Copy, PartialEq, Eq, Hash, Debug)]
pub struct SpiDeviceConfiguration {
    /// Set to true to enable OpCode::FastRead4B.
    /// When set to false, enables OpCode::FastReadDualOutput.
    pub enable_fastread4b_cmd: bool,
    /// Set to true to handle OpCode::Enter4ByteAddressMode and
    /// OpCode::Exit4ByteAddressMode in software.
    pub enable_enterexit4b_cmd: bool,
    /// Startup address mode.
    pub startup_address_mode: AddressMode,
}

impl SpiDeviceConfiguration {
    /// The default configuration: no FastRead4B, no software handling of the
    /// address mode commands, three byte addresses.
    pub fn default() -> (c: SpiDeviceConfiguration)
        ensures
            !c.enable_fastread4b_cmd,
            !c.enable_enterexit4b_cmd,
            c.startup_address_mode == AddressMode::ThreeByte,
    {
        SpiDeviceConfiguration {
            enable_fastread4b_cmd: false,
            enable_enterexit4b_cmd: false,
            startup_address_mode: AddressMode::ThreeByte,
        }
    }
}

/// The value of a passthrough filter rule: valid, with the command to force,
/// the command to match and the mask of bits that are compared.
pub open spec fn filter_rule(force: u8, cmd_match: u8, mask: u8) -> u32 {
    (1 + force * 0x100 + cmd_match * 0x1_0000 + mask * 0x100_0000) as u32
}

/// The value of an enabled busy opcode entry.
pub open spec fn busy_opcode_entry(op: u8) -> u32 {
    (1 + op * 2) as u32
}

/// Wire value of an op code.
pub open spec fn op(o: OpCode) -> u8 {
    o.spec_to_wire_value()
}

/// The passthrough filter rules for a configuration, followed by disabled
/// rules up to the number of rule registers.
pub open spec fn passthrough_rules(fastread4b: bool) -> Seq<u32> {
    let head = if fastread4b {
        seq![
            filter_rule(op(OpCode::NormalRead), 0x00, 0xf8),
            filter_rule(op(OpCode::FastRead), 0x08, 0xfc),
            filter_rule(op(OpCode::FastRead4B), 0x0c, 0xfc),
        ]
    } else {
        seq![
            filter_rule(op(OpCode::NormalRead), 0x00, 0xf8),
            filter_rule(op(OpCode::FastRead), 0x08, 0xf8),
        ]
    };
    let rules = head + seq![
        filter_rule(op(OpCode::NormalRead), 0x10, 0xf0),
        filter_rule(op(OpCode::FastReadDualOutput), 0x20, 0xe0),
        filter_rule(op(OpCode::NormalRead), 0x40, 0xc0),
        filter_rule(op(OpCode::NormalRead), 0x80, 0x80),
    ];
    rules + Seq::new((PASSTHRU_FILTER_RULE_COUNT - rules.len()) as nat, |i: int| 0u32)
}

/// Whether the passthrough filter rule `rule` is valid and matches `opcode`:
/// the opcode's bits under the rule's mask (top byte) equal the rule's
/// match byte (third byte).
pub open spec fn rule_matches(rule: u32, opcode: u8) -> bool {
    rule % 2 == 1 && (opcode & ((rule / 0x100_0000) as u8)) == ((rule / 0x1_0000) % 0x100) as u8
}

/// The command a rule forces (second byte).
pub open spec fn rule_forces(rule: u32) -> u8 {
    ((rule / 0x100) % 0x100) as u8
}

/// The command the passthrough filter sends on for `opcode`: reads below
/// 0x08, from 0x10 to 0x1f and from 0x40 on become normal reads, 0x08 to
/// 0x0f fast reads (0x0c to 0x0f the four-byte fast read when that command
/// is enabled), and 0x20 to 0x3f dual output fast reads.
pub open spec fn forced_command(opcode: u8, fastread4b: bool) -> u8 {
    if opcode < 0x08 {
        op(OpCode::NormalRead)
    } else if opcode < 0x10 {
        if fastread4b && opcode >= 0x0c {
            op(OpCode::FastRead4B)
        } else {
            op(OpCode::FastRead)
        }
    } else if opcode < 0x20 {
        op(OpCode::NormalRead)
    } else if opcode < 0x40 {
        op(OpCode::FastReadDualOutput)
    } else {
        op(OpCode::NormalRead)
    }
}

/// The index of the rule that matches `opcode`.
pub open spec fn matching_rule(opcode: u8, fastread4b: bool) -> int {
    let extra: int = if fastread4b {
        1
    } else {
        0
    };
    if opcode < 0x08 {
        0
    } else if opcode < 0x10 {
        if fastread4b && opcode >= 0x0c {
            2
        } else {
            1
        }
    } else if opcode < 0x20 {
        2 + extra
    } else if opcode < 0x40 {
        3 + extra
    } else if opcode < 0x80 {
        4 + extra
    } else {
        5 + extra
    }
}

proof fn lemma_mask_ranges(x: u8)
    ensures
        (x & 0xf8u8 == 0x00u8) == (x < 0x08),
        (x & 0xf8u8 == 0x08u8) == (0x08 <= x < 0x10),
        (x & 0xfcu8 == 0x08u8) == (0x08 <= x < 0x0c),
        (x & 0xfcu8 == 0x0cu8) == (0x0c <= x < 0x10),
        (x & 0xf0u8 == 0x10u8) == (0x10 <= x < 0x20),
        (x & 0xe0u8 == 0x20u8) == (0x20 <= x < 0x40),
        (x & 0xc0u8 == 0x40u8) == (0x40 <= x < 0x80),
        (x & 0x80u8 == 0x80u8) == (0x80 <= x),
{
    assert(
        (x & 0xf8u8 == 0x00u8) == (x < 0x08) && (x & 0xf8u8 == 0x08u8) == (0x08 <= x < 0x10)
        && (x & 0xfcu8 == 0x08u8) == (0x08 <= x < 0x0c) && (x & 0xfcu8 == 0x0cu8) == (0x0c <= x < 0x10)
        && (x & 0xf0u8 == 0x10u8) == (0x10 <= x < 0x20) && (x & 0xe0u8 == 0x20u8) == (0x20 <= x < 0x40)
        && (x & 0xc0u8 == 0x40u8) == (0x40 <= x < 0x80) && (x & 0x80u8 == 0x80u8) == (0x80 <= x)
    ) by (bit_vector);
}

proof fn lemma_filter_rule_fields(force: u8, cmd_match: u8, mask: u8, opcode: u8)
    ensures
        rule_matches(filter_rule(force, cmd_match, mask), opcode) == ((opcode & mask) == cmd_match),
        rule_forces(filter_rule(force, cmd_match, mask)) == force,
{
    let r: u32 = filter_rule(force, cmd_match, mask);
    assert(r % 2 == 1 && (r / 0x100_0000) as u8 == mask && ((r / 0x1_0000) % 0x100) as u8 == cmd_match
        && ((r / 0x100) % 0x100) as u8 == force) by (bit_vector)
        requires
            r == (1 + force * 0x100 + cmd_match * 0x1_0000 + mask * 0x100_0000) as u32,
    ;
}

/// The passthrough filter sends every opcode on as exactly one command:
/// exactly one of its rules matches the opcode, and that rule forces the
/// command of `forced_command`.
#[verifier::spinoff_prover]
#[verifier::rlimit(100)]
pub proof fn lemma_passthrough_rules_partition(fastread4b: bool, opcode: u8)
    ensures
        passthrough_rules(fastread4b).len() == PASSTHRU_FILTER_RULE_COUNT,
        forall|i: int|
            0 <= i < PASSTHRU_FILTER_RULE_COUNT ==> (rule_matches(#[trigger] passthrough_rules(fastread4b)[i], opcode)
                <==> i == matching_rule(opcode, fastread4b)),
        rule_forces(passthrough_rules(fastread4b)[matching_rule(opcode, fastread4b)]) == forced_command(
            opcode,
            fastread4b,
        ),
{
    lemma_mask_ranges(opcode);
    let rules = passthrough_rules(fastread4b);
    assert(op(OpCode::NormalRead) == 0x03u8);
    assert(op(OpCode::FastRead) == 0x0bu8);
    assert(op(OpCode::FastRead4B) == 0x0cu8);
    assert(op(OpCode::FastReadDualOutput) == 0x3bu8);
    assert(rules.len() == PASSTHRU_FILTER_RULE_COUNT);
    assert forall|i: int| 0 <= i < PASSTHRU_FILTER_RULE_COUNT implies (rule_matches(#[trigger] rules[i], opcode)
        <==> i == matching_rule(opcode, fastread4b)) by {
        if fastread4b {
            if i == 0 {
                assert(rules[i] == filter_rule(0x03, 0x00, 0xf8));
                lemma_filter_rule_fields(0x03, 0x00, 0xf8, opcode);
            } else if i == 1 {
                assert(rules[i] == filter_rule(0x0b, 0x08, 0xfc));
                lemma_filter_rule_fields(0x0b, 0x08, 0xfc, opcode);
            } else if i == 2 {
                assert(rules[i] == filter_rule(0x0c, 0x0c, 0xfc));
                lemma_filter_rule_fields(0x0c, 0x0c, 0xfc, opcode);
            } else if i == 3 {
                assert(rules[i] == filter_rule(0x03, 0x10, 0xf0));
                lemma_filter_rule_fields(0x03, 0x10, 0xf0, opcode);
            } else if i == 4 {
                assert(rules[i] == filter_rule(0x3b, 0x20, 0xe0));
                lemma_filter_rule_fields(0x3b, 0x20, 0xe0, opcode);
            } else if i == 5 {
                assert(rules[i] == filter_rule(0x03, 0x40, 0xc0));
                lemma_filter_rule_fields(0x03, 0x40, 0xc0, opcode);
            } else if i == 6 {
                assert(rules[i] == filter_rule(0x03, 0x80, 0x80));
                lemma_filter_rule_fields(0x03, 0x80, 0x80, opcode);
            } else {
                assert(rules[i] == 0);
            }
        } else {
            if i == 0 {
                assert(rules[i] == filter_rule(0x03, 0x00, 0xf8));
                lemma_filter_rule_fields(0x03, 0x00, 0xf8, opcode);
            } else if i == 1 {
                assert(rules[i] == filter_rule(0x0b, 0x08, 0xf8));
                lemma_filter_rule_fields(0x0b, 0x08, 0xf8, opcode);
            } else if i == 2 {
                assert(rules[i] == filter_rule(0x03, 0x10, 0xf0));
                lemma_filter_rule_fields(0x03, 0x10, 0xf0, opcode);
            } else if i == 3 {
                assert(rules[i] == filter_rule(0x3b, 0x20, 0xe0));
                lemma_filter_rule_fields(0x3b, 0x20, 0xe0, opcode);
            } else if i == 4 {
                assert(rules[i] == filter_rule(0x03, 0x40, 0xc0));
                lemma_filter_rule_fields(0x03, 0x40, 0xc0, opcode);
            } else if i == 5 {
                assert(rules[i] == filter_rule(0x03, 0x80, 0x80));
                lemma_filter_rule_fields(0x03, 0x80, 0x80, opcode);
            } else {
                assert(rules[i] == 0);
            }
        }
    }
}

/// The busy opcode entries: the two address mode commands, then disabled
/// entries.
pub open spec fn busy_opcodes() -> Seq<u32> {
    seq![
        busy_opcode_entry(op(OpCode::Enter4ByteAddressMode)),
        busy_opcode_entry(op(OpCode::Exit4ByteAddressMode)),
    ] + Seq::new((BUSY_OPCODE_COUNT - 2) as nat, |i: int| 0u32)
}

/// The JEDEC ID bytes programmed by `init`: the first word in little endian
/// order, then all ones.
pub open spec fn initial_jedec_id() -> Seq<u8> {
    seq![0x26u8, 0x31u8, 0x20u8, 0x00u8] + Seq::new(8, |i: int| 0xffu8)
}

/// `data` followed by `0xff` up to `len` bytes.
pub open spec fn padded(data: Seq<u8>, len: nat) -> Seq<u8> {
    data + Seq::new((len - data.len()) as nat, |i: int| 0xffu8)
}

/// The op code that the controller treats as the fast dual read.
pub open spec fn fast_dual_rd_opcode(config: SpiDeviceConfiguration) -> u8 {
    if config.enable_fastread4b_cmd {
        op(OpCode::FastRead4B)
    } else {
        op(OpCode::FastReadDualOutput)
    }
}

/// The EEPROM_CTRL value with the address mode bit set for `mode`.
pub open spec fn with_address_mode(ctrl: u32, mode: AddressMode) -> u32 {
    match mode {
        AddressMode::ThreeByte => ctrl & !EEPROM_CTRL_ADDR_MODE,
        AddressMode::FourByte => ctrl | EEPROM_CTRL_ADDR_MODE,
    }
}

/// The address mode that an EEPROM_CTRL value selects.
pub open spec fn address_mode_of(ctrl: u32) -> AddressMode {
    if ctrl & EEPROM_CTRL_ADDR_MODE == EEPROM_CTRL_ADDR_MODE {
        AddressMode::FourByte
    } else {
        AddressMode::ThreeByte
    }
}

/// The 9 bit pointer value of a command memory pointer register.
pub open spec fn ptr_value(reg: u32) -> u32 {
    reg & 0x1ff
}

/// The "full" bit of a command memory pointer register.
pub open spec fn ptr_full(reg: u32) -> u32 {
    (reg >> 9u32) & 1
}

/// The bytes that the SPI host has written into the circular command buffer
/// between the read pointer `rptr` and the write pointer `wptr`. The pointers
/// are equal both when the buffer is empty and when it is full; their "full"
/// bits tell the two apart.
pub open spec fn pending_cmd_bytes(buf: Seq<u8>, rptr: u32, wptr: u32) -> Seq<u8> {
    let start = ptr_value(rptr) as int;
    let end = ptr_value(wptr) as int;
    if start < end {
        buf.subrange(start, end)
    } else if ptr_full(rptr) != ptr_full(wptr) {
        buf.subrange(start, CMD_BUF_LEN as int) + buf.subrange(0, end)
    } else {
        Seq::empty()
    }
}

/// The registers of the SPI device controller that the driver uses.
pub struct SpiDeviceRegisters {
    /// Control register (mode).
    pub ctrl: u32,
    /// EEPROM mode control register.
    pub eeprom_ctrl: u32,
    /// EEPROM interrupt enable register.
    pub eeprom_int_enable: u32,
    /// Pending EEPROM interrupts that software acknowledged.
    pub eeprom_int_cleared: u32,
    /// The opcode for fast dual reads.
    pub fast_dual_rd_opcode: u8,
    /// Passthrough filter rules.
    pub passthru_filter_rule: Vec<u32>,
    /// Opcodes that cause BUSY to assert.
    pub busy_opcode: Vec<u32>,
    /// JEDEC ID bytes.
    pub jedec_id: Vec<u8>,
    /// SFDP bytes.
    pub sfdp: Vec<u8>,
    /// EEPROM status register (without BUSY and WEL).
    pub eeprom_status: u8,
    /// The BUSY bit.
    pub busy: bool,
    /// The write enable latch.
    pub write_enable: bool,
    /// First virtual page of the external flash.
    pub ext_flash_base_page: u32,
    /// Last virtual page of the external flash.
    pub ext_flash_limit_page: u32,
    /// Address bits of the external flash that are translated.
    pub ext_flash_trans_bit_vector: u32,
    /// Address forced by the external flash translation.
    pub ext_flash_trans_addr: u32,
    /// Virtual pages of the on-die RAM pages.
    pub ram_virtual_page: Vec<u32>,
    /// Controls of the on-die RAM pages.
    pub ram_ctrl_page: Vec<u32>,
    /// Virtual address filter.
    pub virtual_addr_filter: u32,
    /// Software read pointer of the command memory.
    pub cmd_mem_rptr: u32,
    /// Generic RAM, holding data sent to the SPI host.
    pub generic_ram: Vec<u8>,
    /// Command buffer, holding data received from the SPI host.
    pub eeprom_cmd_buf: Vec<u8>,
}

impl SpiDeviceRegisters {
    /// Every register array has the size of the hardware's.
    pub open spec fn well_formed(&self) -> bool {
        &&& self.passthru_filter_rule@.len() == PASSTHRU_FILTER_RULE_COUNT
        &&& self.busy_opcode@.len() == BUSY_OPCODE_COUNT
        &&& self.jedec_id@.len() == JEDEC_ID_LEN
        &&& self.sfdp@.len() == SFDP_LEN
        &&& self.ram_virtual_page@.len() == RAM_PAGE_COUNT
        &&& self.ram_ctrl_page@.len() == RAM_PAGE_COUNT
        &&& self.generic_ram@.len() == GENERIC_RAM_LEN
        &&& self.eeprom_cmd_buf@.len() == CMD_BUF_LEN
    }

    /// Registers with every value zero and every flag clear.
    pub fn zeroed() -> (r: SpiDeviceRegisters)
        ensures
            r.well_formed(),
            r.ctrl == 0,
            r.eeprom_ctrl == 0,
            !r.busy,
            !r.write_enable,
            r.cmd_mem_rptr == 0,
    {
        SpiDeviceRegisters {
            ctrl: 0,
            eeprom_ctrl: 0,
            eeprom_int_enable: 0,
            eeprom_int_cleared: 0,
            fast_dual_rd_opcode: 0,
            passthru_filter_rule: filled_u32(0, PASSTHRU_FILTER_RULE_COUNT),
            busy_opcode: filled_u32(0, BUSY_OPCODE_COUNT),
            jedec_id: filled_u8(0, JEDEC_ID_LEN),
            sfdp: filled_u8(0, SFDP_LEN),
            eeprom_status: 0,
            busy: false,
            write_enable: false,
            ext_flash_base_page: 0,
            ext_flash_limit_page: 0,
            ext_flash_trans_bit_vector: 0,
            ext_flash_trans_addr: 0,
            ram_virtual_page: filled_u32(0, RAM_PAGE_COUNT),
            ram_ctrl_page: filled_u32(0, RAM_PAGE_COUNT),
            virtual_addr_filter: 0,
            cmd_mem_rptr: 0,
            generic_ram: filled_u8(0, GENERIC_RAM_LEN),
            eeprom_cmd_buf: filled_u8(0, CMD_BUF_LEN),
        }
    }
}

/// A vector of `n` copies of `v`.
pub fn filled_u32(v: u32, n: usize) -> (r: Vec<u32>)
    ensures
        r@ == Seq::new(n as nat, |i: int| v),
{
    let mut r: Vec<u32> = Vec::new();
    while r.len() < n
        invariant
            r.len() <= n,
            r@ == Seq::new(r.len() as nat, |i: int| v),
        decreases n - r.len(),
    {
        r.push(v);
        assert(r@ =~= Seq::new(r.len() as nat, |i: int| v));
    }
    r
}

/// A vector of `n` copies of `v`.
pub fn filled_u8(v: u8, n: usize) -> (r: Vec<u8>)
    ensures
        r@ == Seq::new(n as nat, |i: int| v),
{
    let mut r: Vec<u8> = Vec::new();
    while r.len() < n
        invariant
            r.len() <= n,
            r@ == Seq::new(r.len() as nat, |i: int| v),
        decreases n - r.len(),
    {
        r.push(v);
        assert(r@ =~= Seq::new(r.len() as nat, |i: int| v));
    }
    r
}

/// Computes a passthrough filter rule value.
fn make_filter_rule(force: u8, cmd_match: u8, mask: u8) -> (r: u32)
    ensures
        r == filter_rule(force, cmd_match, mask),
{
    let r = 1u32 | ((force as u32) << 8u32) | ((cmd_match as u32) << 16u32) | ((mask as u32) << 24u32);
    assert(r == (1 + force * 0x100 + cmd_match * 0x1_0000 + mask * 0x100_0000)) by (bit_vector)
        requires
            r == 1u32 | ((force as u32) << 8u32) | ((cmd_match as u32) << 16u32) | ((mask as u32)
                << 24u32),
    ;
    r
}

/// Copies `data` into a buffer of `len` bytes, padded with `0xff`.
fn pad_ff(data: &[u8], len: usize) -> (r: Vec<u8>)
    requires
        data@.len() <= len,
    ensures
        r@ == padded(data@, len as nat),
{
    let mut r: Vec<u8> = Vec::new();
    let mut i: usize = 0;
    while i < data.len()
        invariant
            i <= data@.len(),
            data@.len() <= len,
            r@ == data@.take(i as int),
        decreases data@.len() - i,
    {
        r.push(data[i]);
        i = i + 1;
        assert(r@ =~= data@.take(i as int));
    }
    assert(data@.take(data@.len() as int) =~= data@);
    while r.len() < len
        invariant
            data@.len() <= r@.len() <= len,
            r@ == padded(data@, r@.len()),
        decreases len - r.len(),
    {
        r.push(0xff);
        assert(r@ =~= padded(data@, r@.len()));
    }
    r
}

/// The result of an interrupt that tells of received commands.
#[derive(Clone, Copy, PartialEq, Eq, Debug)]
pub struct DataAvailable {
    /// Whether the command set the BUSY bit.
    pub is_busy: bool,
    /// Whether the write enable latch is set.
    pub is_write_enabled: bool,
}

/// A SPI device.
pub struct SpiDeviceHardware {
    /// The controller's registers.
    pub registers: SpiDeviceRegisters,
    /// The configuration in use.
    pub config: SpiDeviceConfiguration,
}

impl SpiDeviceHardware {
    /// A driver over the given registers, with the given configuration.
    pub fn new(registers: SpiDeviceRegisters, config: SpiDeviceConfiguration) -> (d: SpiDeviceHardware)
        ensures
            d.registers == registers,
            d.config == config,
    {
        SpiDeviceHardware { registers, config }
    }

    /// Disables the controller, then configures the fast read opcode, the
    /// passthrough filters, the JEDEC ID, the busy opcodes and the address
    /// mode, and enables EEPROM mode and the receive interrupt.
    pub fn init(&mut self, config: SpiDeviceConfiguration)
        requires
            old(self).registers.well_formed(),
        ensures
            final(self).registers.well_formed(),
            final(self).config == config,
            final(self).registers.ctrl == CTRL_MODE_EEPROM,
            final(self).registers.eeprom_ctrl == with_address_mode(
                EEPROM_CTRL_INIT & !EEPROM_CTRL_PASSTHRU_DIS,
                config.startup_address_mode,
            ),
            final(self).registers.eeprom_int_enable == EEPROM_INT_CMD_ADDR_FIFO_NOT_EMPTY,
            final(self).registers.fast_dual_rd_opcode == fast_dual_rd_opcode(config),
            final(self).registers.passthru_filter_rule@ == passthrough_rules(
                config.enable_fastread4b_cmd,
            ),
            final(self).registers.busy_opcode@ == busy_opcodes(),
            final(self).registers.jedec_id@ == initial_jedec_id(),
            final(self).registers == (SpiDeviceRegisters {
                ctrl: final(self).registers.ctrl,
                eeprom_ctrl: final(self).registers.eeprom_ctrl,
                eeprom_int_enable: final(self).registers.eeprom_int_enable,
                fast_dual_rd_opcode: final(self).registers.fast_dual_rd_opcode,
                passthru_filter_rule: final(self).registers.passthru_filter_rule,
                busy_opcode: final(self).registers.busy_opcode,
                jedec_id: final(self).registers.jedec_id,
                ..old(self).registers
            }),
    {
        // First, disable everything.
        self.registers.eeprom_int_enable = 0;
        self.registers.ctrl = CTRL_MODE_DISABLED;
        self.registers.eeprom_ctrl = EEPROM_CTRL_INIT;

        // Then, configure and enable features.
        self.config = config;
        if self.config.enable_fastread4b_cmd {
            self.registers.fast_dual_rd_opcode = OpCode::FastRead4B.to_wire_value();
        } else {
            self.registers.fast_dual_rd_opcode = OpCode::FastReadDualOutput.to_wire_value();
        }
        self.init_passthrough_filters();
        self.init_jedec();
        self.init_busy_opcodes();
        let mode = self.config.startup_address_mode;
        self.set_address_mode(mode);

        // Enable EEPROM mode.
        self.registers.ctrl = (self.registers.ctrl & !3u32) | CTRL_MODE_EEPROM;
        assert(((CTRL_MODE_DISABLED & !3u32) | CTRL_MODE_EEPROM) == CTRL_MODE_EEPROM) by (bit_vector);
        self.registers.eeprom_int_enable = self.registers.eeprom_int_enable
            | EEPROM_INT_CMD_ADDR_FIFO_NOT_EMPTY;
        assert((0u32 | EEPROM_INT_CMD_ADDR_FIFO_NOT_EMPTY) == EEPROM_INT_CMD_ADDR_FIFO_NOT_EMPTY)
            by (bit_vector);
    }

    /// Sets the JEDEC ID to (incorrect) OpenTitan with 64 MiB of visible flash
    /// space.
    fn init_jedec(&mut self)
        requires
            old(self).registers.well_formed(),
        ensures
            final(self).registers.well_formed(),
            final(self).registers.jedec_id@ == initial_jedec_id(),
            *final(self) == (SpiDeviceHardware {
                registers: SpiDeviceRegisters {
                    jedec_id: final(self).registers.jedec_id,
                    ..old(self).registers
                },
                ..*old(self)
            }),
    {
        let mut id: Vec<u8> = Vec::new();
        id.push(0x26);
        id.push(0x31);
        id.push(0x20);
        id.push(0x00);
        let mut i: usize = 0;
        while i < 8
            invariant
                i <= 8,
                id@ == seq![0x26u8, 0x31u8, 0x20u8, 0x00u8] + Seq::new(i as nat, |j: int| 0xffu8),
            decreases 8 - i,
        {
            id.push(0xff);
            i = i + 1;
            assert(id@ =~= seq![0x26u8, 0x31u8, 0x20u8, 0x00u8] + Seq::new(i as nat, |j: int| 0xffu8));
        }
        self.registers.jedec_id = id;
    }

    /// Programs the passthrough filter rules for the configuration, disables
    /// the remaining rules and enables passthrough filtering.
    fn init_passthrough_filters(&mut self)
        requires
            old(self).registers.well_formed(),
        ensures
            final(self).registers.well_formed(),
            final(self).registers.passthru_filter_rule@ == passthrough_rules(
                old(self).config.enable_fastread4b_cmd,
            ),
            final(self).registers.eeprom_ctrl == old(self).registers.eeprom_ctrl
                & !EEPROM_CTRL_PASSTHRU_DIS,
            *final(self) == (SpiDeviceHardware {
                registers: SpiDeviceRegisters {
                    passthru_filter_rule: final(self).registers.passthru_filter_rule,
                    eeprom_ctrl: final(self).registers.eeprom_ctrl,
                    ..old(self).registers
                },
                ..*old(self)
            }),
    {
        let mut rules: Vec<u32> = Vec::new();
        let normal_read = OpCode::NormalRead.to_wire_value();
        let fast_read = OpCode::FastRead.to_wire_value();
        // Match 0b0000_0XXX (0x00 - 0x07) and force to NormalRead.
        rules.push(make_filter_rule(normal_read, 0b0000_0000, 0b1111_1000));
        if !self.config.enable_fastread4b_cmd {
            // Match 0b0000_1XXX (0x08 - 0x0f) and force to FastRead.
            rules.push(make_filter_rule(fast_read, 0b0000_1000, 0b1111_1000));
        } else {
            // Match 0b0000_10XX (0x08 - 0x0b) and force to FastRead.
            rules.push(make_filter_rule(fast_read, 0b0000_1000, 0b1111_1100));
            // Match 0b0000_11XX (0x0c - 0x0f) and force to FastRead4B.
            rules.push(
                make_filter_rule(OpCode::FastRead4B.to_wire_value(), 0b0000_1100, 0b1111_1100),
            );
        }
        // Match 0b0001_XXXX (0x10 - 0x1f) and force to NormalRead.
        rules.push(make_filter_rule(normal_read, 0b0001_0000, 0b1111_0000));
        // Match 0b001X_XXXX (0x20 - 0x3f) and force to FastReadDualOutput.
        rules.push(
            make_filter_rule(OpCode::FastReadDualOutput.to_wire_value(), 0b0010_0000, 0b1110_0000),
        );
        // Match 0b01XX_XXXX (0x40 - 0x7f) and force to NormalRead.
        rules.push(make_filter_rule(normal_read, 0b0100_0000, 0b1100_0000));
        // Match 0b1XXX_XXXX (0x80 - 0xff) and force to NormalRead.
        rules.push(make_filter_rule(normal_read, 0b1000_0000, 0b1000_0000));

        let ghost used = rules@;
        assert(passthrough_rules(self.config.enable_fastread4b_cmd) =~= used + Seq::new(
            (PASSTHRU_FILTER_RULE_COUNT - used.len()) as nat,
            |i: int| 0u32,
        ));
        // Disable all remaining passthrough filter rules.
        while rules.len() < PASSTHRU_FILTER_RULE_COUNT
            invariant
                used.len() <= rules@.len() <= PASSTHRU_FILTER_RULE_COUNT,
                rules@ == used + Seq::new((rules@.len() - used.len()) as nat, |i: int| 0u32),
            decreases PASSTHRU_FILTER_RULE_COUNT - rules.len(),
        {
            rules.push(0);
            assert(rules@ =~= used + Seq::new((rules@.len() - used.len()) as nat, |i: int| 0u32));
        }
        self.registers.passthru_filter_rule = rules;
        self.registers.eeprom_ctrl = self.registers.eeprom_ctrl & !EEPROM_CTRL_PASSTHRU_DIS;
    }

    /// Makes the address mode commands set the BUSY bit and disables the
    /// other busy opcode entries.
    fn init_busy_opcodes(&mut self)
        requires
            old(self).registers.well_formed(),
        ensures
            final(self).registers.well_formed(),
            final(self).registers.busy_opcode@ == busy_opcodes(),
            *final(self) == (SpiDeviceHardware {
                registers: SpiDeviceRegisters {
                    busy_opcode: final(self).registers.busy_opcode,
                    ..old(self).registers
                },
                ..*old(self)
            }),
    {
        let mut entries: Vec<u32> = Vec::new();
        let enter = OpCode::Enter4ByteAddressMode.to_wire_value();
        let exit = OpCode::Exit4ByteAddressMode.to_wire_value();
        entries.push(1u32 | ((enter as u32) << 1u32));
        entries.push(1u32 | ((exit as u32) << 1u32));
        assert((1u32 | ((0xb7u8 as u32) << 1u32)) == 1 + 0xb7 * 2) by (bit_vector);
        assert((1u32 | ((0xe9u8 as u32) << 1u32)) == 1 + 0xe9 * 2) by (bit_vector);
        let ghost used = entries@;
        while entries.len() < BUSY_OPCODE_COUNT
            invariant
                2 <= entries@.len() <= BUSY_OPCODE_COUNT,
                used.len() == 2,
                entries@ == used + Seq::new((entries@.len() - 2) as nat, |i: int| 0u32),
            decreases BUSY_OPCODE_COUNT - entries.len(),
        {
            entries.push(0);
            assert(entries@ =~= used + Seq::new((entries@.len() - 2) as nat, |i: int| 0u32));
        }
        assert(entries@ =~= busy_opcodes());
        self.registers.busy_opcode = entries;
    }

    /// Configures the engine's address mode.
    pub fn set_address_mode(&mut self, address_mode: AddressMode)
        ensures
            final(self).registers.eeprom_ctrl == with_address_mode(
                old(self).registers.eeprom_ctrl,
                address_mode,
            ),
            address_mode_of(final(self).registers.eeprom_ctrl) == address_mode,
            *final(self) == (SpiDeviceHardware {
                registers: SpiDeviceRegisters {
                    eeprom_ctrl: final(self).registers.eeprom_ctrl,
                    ..old(self).registers
                },
                ..*old(self)
            }),
    {
        let ctrl = self.registers.eeprom_ctrl;
        match address_mode {
            AddressMode::ThreeByte => {
                self.registers.eeprom_ctrl = ctrl & !EEPROM_CTRL_ADDR_MODE;
                assert((ctrl & !1u32) & 1u32 != 1u32) by (bit_vector);
            },
            AddressMode::FourByte => {
                self.registers.eeprom_ctrl = ctrl | EEPROM_CTRL_ADDR_MODE;
                assert((ctrl | 1u32) & 1u32 == 1u32) by (bit_vector);
            },
        }
    }

    /// Returns the engine's address mode.
    pub fn get_address_mode(&self) -> (m: AddressMode)
        ensures
            m == address_mode_of(self.registers.eeprom_ctrl),
    {
        if self.registers.eeprom_ctrl & EEPROM_CTRL_ADDR_MODE == EEPROM_CTRL_ADDR_MODE {
            AddressMode::FourByte
        } else {
            AddressMode::ThreeByte
        }
    }

    /// Configures the addresses exposed by this SPI device on the SPI bus:
    /// the external flash at `flash_virtual_base` with `flash_physical_size`
    /// bytes, mapped to `flash_physical_base`; the RAM pages from
    /// `ram_virtual_base` on; and a virtual address filter of
    /// `virtual_size - 1`. Sums and differences wrap around at 2^32.
    pub fn configure_addresses(&mut self, config: AddressConfig)
        requires
            old(self).registers.well_formed(),
        ensures
            final(self).registers.well_formed(),
            addresses_configured(*old(self), *final(self), config),
    {
        let c0 = self.registers.eeprom_ctrl;
        let c1 = (c0 | EEPROM_CTRL_EXT_FLASH_DIS) & !EEPROM_CTRL_VIRTUAL_ADDR_FILTER_EN;
        let c2 = c1 | EEPROM_CTRL_RAM_DIS;
        self.registers.eeprom_ctrl = c2;

        // Configure external flash at `flash_virtual_base` with length `size`.
        let last = config.flash_virtual_base.wrapping_add(config.flash_physical_size.wrapping_sub(1));
        self.registers.ext_flash_base_page = config.flash_virtual_base >> PAGE_SHIFT;
        self.registers.ext_flash_limit_page = last >> PAGE_SHIFT;
        // Zero out all address bits beyond the size of the flash chip.
        self.registers.ext_flash_trans_bit_vector = last;
        // Configure mapping to `physical_base`.
        self.registers.ext_flash_trans_addr = config.flash_physical_base;

        // Configure all available EEPROM mode RAM pages after the external
        // flash.
        let ram_virtual_base = config.ram_virtual_base;
        let ram_virtual_page_base = ram_virtual_base >> PAGE_SHIFT;
        assert(ram_virtual_base >> 9u32 <= 0x7f_ffff) by (bit_vector);
        let mut pages: Vec<u32> = Vec::new();
        let mut ctrls: Vec<u32> = Vec::new();
        let mut idx: u32 = 0;
        while idx < 4
            invariant
                idx <= 4,
                ram_virtual_page_base <= 0x7f_ffff,
                pages@.len() == idx,
                ctrls@.len() == idx,
                forall|i: int| 0 <= i < idx ==> pages@[i] == ram_virtual_page_base + i,
                forall|i: int| 0 <= i < idx ==> ctrls@[i] == 0,
            decreases 4 - idx,
        {
            pages.push(ram_virtual_page_base + idx);
            ctrls.push(0);
            idx = idx + 1;
        }
        self.registers.ram_virtual_page = pages;
        self.registers.ram_ctrl_page = ctrls;

        // Only allow addresses within the virtual_size to allow space for
        // external flash and RAM pages.
        self.registers.virtual_addr_filter = config.virtual_size.wrapping_sub(1);

        let c3 = c2 & !EEPROM_CTRL_EXT_FLASH_DIS;
        let c4 = c3 & !EEPROM_CTRL_RAM_DIS;
        let c5 = c4 | EEPROM_CTRL_VIRTUAL_ADDR_FILTER_EN;
        self.registers.eeprom_ctrl = c5;
        assert(c5 == (c0 & !(0x4u32 | 0x10u32)) | 0x800u32) by (bit_vector)
            requires
                c1 == (c0 | 0x4u32) & !0x800u32,
                c2 == c1 | 0x10u32,
                c3 == c2 & !0x4u32,
                c4 == c3 & !0x10u32,
                c5 == c4 | 0x800u32,
        ;
    }

    /// Whether the BUSY bit is set.
    pub fn is_busy(&self) -> (b: bool)
        ensures
            b == self.registers.busy,
    {
        self.registers.busy
    }

    /// Clears the BUSY bit. The hardware makes this visible to the SPI host
    /// once it reads out the status register.
    pub fn clear_busy(&mut self)
        ensures
            *final(self) == (SpiDeviceHardware {
                registers: SpiDeviceRegisters { busy: false, ..old(self).registers },
                ..*old(self)
            }),
    {
        self.registers.busy = false;
    }

    /// Whether the write enable latch is set.
    pub fn is_write_enable_set(&self) -> (b: bool)
        ensures
            b == self.registers.write_enable,
    {
        self.registers.write_enable
    }

    /// Clears the write enable latch.
    pub fn clear_write_enable(&mut self)
        ensures
            *final(self) == (SpiDeviceHardware {
                registers: SpiDeviceRegisters { write_enable: false, ..old(self).registers },
                ..*old(self)
            }),
    {
        self.registers.write_enable = false;
    }

    /// Sets the contents of the SPI flash status register, without the BUSY
    /// and write enable bits.
    pub fn set_status(&mut self, status: u8)
        ensures
            *final(self) == (SpiDeviceHardware {
                registers: SpiDeviceRegisters { eeprom_status: status, ..old(self).registers },
                ..*old(self)
            }),
    {
        self.registers.eeprom_status = status;
    }

    /// Handles the "command address FIFO not empty" interrupt: when the FIFO
    /// holds a command, the client is told of it, with the BUSY bit and the
    /// write enable latch. The interrupt is acknowledged either way.
    pub fn handle_interrupt_cmd_addr_fifo_not_empty(&mut self, cmd_addr_fifo_empty: bool) -> (r:
        Option<DataAvailable>)
        ensures
            r == (if cmd_addr_fifo_empty {
                None
            } else {
                Some(
                    DataAvailable {
                        is_busy: old(self).registers.busy,
                        is_write_enabled: old(self).registers.write_enable,
                    },
                )
            }),
            *final(self) == (SpiDeviceHardware {
                registers: SpiDeviceRegisters {
                    eeprom_int_cleared: EEPROM_INT_CMD_ADDR_FIFO_NOT_EMPTY,
                    ..old(self).registers
                },
                ..*old(self)
            }),
    {
        let r = if !cmd_addr_fifo_empty {
            Some(
                DataAvailable {
                    is_busy: self.is_busy(),
                    is_write_enabled: self.is_write_enable_set(),
                },
            )
        } else {
            None
        };
        self.registers.eeprom_int_cleared = EEPROM_INT_CMD_ADDR_FIFO_NOT_EMPTY;
        r
    }

    /// Copies the data that the SPI host sent into `read_buffer`, as much as
    /// fits, and moves the read pointer to the write pointer `cmd_addr_fifo`
    /// that the hardware reported (`None` when its FIFO is empty). Returns
    /// the number of bytes copied.
    pub fn get_received_data(&mut self, cmd_addr_fifo: Option<u32>, read_buffer: &mut Vec<u8>) -> (n:
        usize)
        requires
            old(self).registers.well_formed(),
        ensures
            final(self).registers.well_formed(),
            final(read_buffer)@.len() == old(read_buffer)@.len(),
            match cmd_addr_fifo {
                None => {
                    &&& n == 0
                    &&& *final(self) == *old(self)
                    &&& final(read_buffer)@ == old(read_buffer)@
                },
                Some(wptr) => {
                    let pending = pending_cmd_bytes(
                        old(self).registers.eeprom_cmd_buf@,
                        old(self).registers.cmd_mem_rptr,
                        wptr,
                    );
                    &&& n == (if old(read_buffer)@.len() < pending.len() {
                        old(read_buffer)@.len()
                    } else {
                        pending.len()
                    })
                    &&& final(read_buffer)@ == pending.take(n as int) + old(read_buffer)@.skip(
                        n as int,
                    )
                    &&& *final(self) == (SpiDeviceHardware {
                        registers: SpiDeviceRegisters { cmd_mem_rptr: wptr, ..old(self).registers },
                        ..*old(self)
                    })
                },
            },
    {
        let wptr = match cmd_addr_fifo {
            None => return 0,
            Some(w) => w,
        };
        let rptr = self.registers.cmd_mem_rptr;
        let start = (rptr & 0x1ff) as usize;
        let end = (wptr & 0x1ff) as usize;
        assert(rptr & 0x1ff < 512) by (bit_vector);
        assert(wptr & 0x1ff < 512) by (bit_vector);
        let start_full = (rptr >> 9u32) & 1;
        let end_full = (wptr >> 9u32) & 1;
        let ghost buf = self.registers.eeprom_cmd_buf@;
        let ghost pending = pending_cmd_bytes(buf, rptr, wptr);
        let available: usize = if start < end {
            end - start
        } else if start_full != end_full {
            CMD_BUF_LEN - start + end
        } else {
            0
        };
        assert(available == pending.len());
        let length = if read_buffer.len() < available {
            read_buffer.len()
        } else {
            available
        };
        let ghost before = read_buffer@;
        let mut k: usize = 0;
        while k < length
            invariant
                k <= length,
                length <= available,
                length <= before.len(),
                available == pending.len(),
                start < CMD_BUF_LEN,
                end < CMD_BUF_LEN,
                start < end ==> pending == buf.subrange(start as int, end as int),
                start >= end ==> pending == buf.subrange(start as int, CMD_BUF_LEN as int)
                    + buf.subrange(0, end as int) || available == 0,
                buf == self.registers.eeprom_cmd_buf@,
                buf.len() == CMD_BUF_LEN,
                read_buffer@.len() == before.len(),
                forall|j: int| 0 <= j < k ==> read_buffer@[j] == pending[j],
                forall|j: int| k <= j < before.len() ==> read_buffer@[j] == before[j],
            decreases length - k,
        {
            let idx = if start + k < CMD_BUF_LEN {
                start + k
            } else {
                start + k - CMD_BUF_LEN
            };
            read_buffer.set(k, self.registers.eeprom_cmd_buf[idx]);
            k = k + 1;
        }
        assert(read_buffer@ =~= pending.take(length as int) + before.skip(length as int));
        // The read pointer moves to the write pointer since all the data was
        // read.
        self.registers.cmd_mem_rptr = wptr;
        length
    }

    /// Copies `write_data` into the generic RAM, padded with `0xff`, to be
    /// sent to the SPI host. Refuses data longer than the RAM with `ESIZE`.
    pub fn put_send_data(&mut self, write_data: &[u8]) -> (rc: ReturnCode)
        requires
            old(self).registers.well_formed(),
        ensures
            final(self).registers.well_formed(),
            write_data@.len() > GENERIC_RAM_LEN ==> rc == ReturnCode::ESIZE && *final(self)
                == *old(self),
            write_data@.len() <= GENERIC_RAM_LEN ==> rc == ReturnCode::SUCCESS && *final(self) == (
            SpiDeviceHardware {
                registers: SpiDeviceRegisters {
                    generic_ram: final(self).registers.generic_ram,
                    ..old(self).registers
                },
                ..*old(self)
            }) && final(self).registers.generic_ram@ == padded(
                write_data@,
                GENERIC_RAM_LEN as nat,
            ),
    {
        if write_data.len() > GENERIC_RAM_LEN {
            return ReturnCode::ESIZE;
        }
        self.registers.generic_ram = pad_ff(write_data, GENERIC_RAM_LEN);
        ReturnCode::SUCCESS
    }

    /// Configures the JEDEC ID, padded with `0xff`. Refuses data longer than
    /// the JEDEC ID registers with `ESIZE`.
    pub fn set_jedec_id(&mut self, data: &[u8]) -> (rc: ReturnCode)
        requires
            old(self).registers.well_formed(),
        ensures
            final(self).registers.well_formed(),
            data@.len() > JEDEC_ID_LEN ==> rc == ReturnCode::ESIZE && *final(self) == *old(self),
            data@.len() <= JEDEC_ID_LEN ==> rc == ReturnCode::SUCCESS && *final(self) == (
            SpiDeviceHardware {
                registers: SpiDeviceRegisters {
                    jedec_id: final(self).registers.jedec_id,
                    ..old(self).registers
                },
                ..*old(self)
            }) && final(self).registers.jedec_id@ == padded(data@, JEDEC_ID_LEN as nat),
    {
        if data.len() > JEDEC_ID_LEN {
            return ReturnCode::ESIZE;
        }
        self.registers.jedec_id = pad_ff(data, JEDEC_ID_LEN);
        ReturnCode::SUCCESS
    }

    /// Configures the SFDP, padded with `0xff`. Refuses data longer than the
    /// SFDP registers with `ESIZE`.
    pub fn set_sfdp(&mut self, data: &[u8]) -> (rc: ReturnCode)
        requires
            old(self).registers.well_formed(),
        ensures
            final(self).registers.well_formed(),
            data@.len() > SFDP_LEN ==> rc == ReturnCode::ESIZE && *final(self) == *old(self),
            data@.len() <= SFDP_LEN ==> rc == ReturnCode::SUCCESS && *final(self) == (
            SpiDeviceHardware {
                registers: SpiDeviceRegisters { sfdp: final(self).registers.sfdp, ..old(self).registers },
                ..*old(self)
            }) && final(self).registers.sfdp@ == padded(data@, SFDP_LEN as nat),
    {
        if data.len() > SFDP_LEN {
            return ReturnCode::ESIZE;
        }
        self.registers.sfdp = pad_ff(data, SFDP_LEN);
        ReturnCode::SUCCESS
    }
}

/// The device `d1` is `d0` with the addresses of `config` configured.
pub open spec fn addresses_configured(
    d0: SpiDeviceHardware,
    d1: SpiDeviceHardware,
    config: AddressConfig,
) -> bool {
    let last = vstd::wrapping::u32_specs::wrapping_add(
        config.flash_virtual_base,
        vstd::wrapping::u32_specs::wrapping_sub(config.flash_physical_size, 1),
    );
    let r = d1.registers;
    &&& r.ext_flash_base_page == config.flash_virtual_base >> PAGE_SHIFT
    &&& r.ext_flash_limit_page == last >> PAGE_SHIFT
    &&& r.ext_flash_trans_bit_vector == last
    &&& r.ext_flash_trans_addr == config.flash_physical_base
    &&& r.virtual_addr_filter == vstd::wrapping::u32_specs::wrapping_sub(config.virtual_size, 1)
    &&& r.ram_virtual_page@.len() == RAM_PAGE_COUNT
    &&& r.ram_ctrl_page@.len() == RAM_PAGE_COUNT
    &&& forall|i: int|
        0 <= i < RAM_PAGE_COUNT ==> r.ram_virtual_page@[i] == (config.ram_virtual_base >> PAGE_SHIFT)
            + i
    &&& forall|i: int| 0 <= i < RAM_PAGE_COUNT ==> r.ram_ctrl_page@[i] == 0
    &&& r.eeprom_ctrl == (d0.registers.eeprom_ctrl & !(EEPROM_CTRL_EXT_FLASH_DIS
        | EEPROM_CTRL_RAM_DIS)) | EEPROM_CTRL_VIRTUAL_ADDR_FILTER_EN
    &&& d1 == (SpiDeviceHardware {
        registers: SpiDeviceRegisters {
            eeprom_ctrl: r.eeprom_ctrl,
            ext_flash_base_page: r.ext_flash_base_page,
            ext_flash_limit_page: r.ext_flash_limit_page,
            ext_flash_trans_bit_vector: r.ext_flash_trans_bit_vector,
            ext_flash_trans_addr: r.ext_flash_trans_addr,
            ram_virtual_page: r.ram_virtual_page,
            ram_ctrl_page: r.ram_ctrl_page,
            virtual_addr_filter: r.virtual_addr_filter,
            ..d0.registers
        },
        ..d0
    })
}

/// Setting the address mode and reading it back gives the mode that was set.
pub proof fn lemma_address_mode_roundtrip(ctrl: u32, mode: AddressMode)
    ensures
        address_mode_of(with_address_mode(ctrl, mode)) == mode,
{
    assert((ctrl & !1u32) & 1u32 != 1u32) by (bit_vector);
    assert((ctrl | 1u32) & 1u32 == 1u32) by (bit_vector);
}

} // verus!
