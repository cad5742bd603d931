//! USB device controller: descriptors, setup requests, and the decisions
//! of the endpoint 0 control transfer state machine.

use vstd::prelude::*;

verus! {

/// Interrupt status: start of frame.
pub const SOF: u32 = 0x8;
/// Interrupt status: global IN NAK effective.
pub const GINNAKEFF: u32 = 0x40;
/// Interrupt status: global OUT NAK effective.
pub const GOUTNAKEFF: u32 = 0x80;
/// Interrupt status: early suspend.
pub const EARLY_SUSPEND: u32 = 0x400;
/// Interrupt status: suspend.
pub const USB_SUSPEND: u32 = 0x800;
/// Interrupt status: bus reset.
pub const USB_RESET: u32 = 0x1000;
/// Interrupt status: enumeration done.
pub const ENUM_DONE: u32 = 0x2000;
/// Interrupt status: IN endpoint interrupt.
pub const IEPINT: u32 = 0x4_0000;
/// Interrupt status: OUT endpoint interrupt.
pub const OEPINT: u32 = 0x8_0000;

/// A DMA descriptor.
#[derive(Clone, Copy, PartialEq, Eq, Structural, Debug)]
pub struct DMADescriptor {
    /// Status and control flags.
    pub flags: u32,
    /// Buffer address.
    pub addr: usize,
}

/// The device descriptor.
#[derive(Clone, Copy, PartialEq, Eq, Structural, Debug)]
pub struct DeviceDescriptor {
    pub b_length: u8,
    pub b_descriptor_type: u8,
    pub bcd_usb: u16,
    pub b_device_class: u8,
    pub b_device_sub_class: u8,
    pub b_device_protocol: u8,
    pub b_max_packet_size0: u8,
    pub id_vendor: u16,
    pub id_product: u16,
    pub bcd_device: u16,
    pub i_manufacturer: u8,
    pub i_product: u8,
    pub i_serial_number: u8,
    pub b_num_configurations: u8,
}

/// A configuration descriptor.
#[derive(Clone, Copy, PartialEq, Eq, Structural, Debug)]
pub struct ConfigurationDescriptor {
    pub b_length: u8,
    pub b_descriptor_type: u8,
    pub w_total_length: u16,
    pub b_num_interfaces: u8,
    pub b_configuration_value: u8,
    pub i_configuration: u8,
    pub bm_attributes: u8,
    pub b_max_power: u8,
}

impl ConfigurationDescriptor {
    /// An empty configuration with no interface descriptors: self powered,
    /// no remote wakeup, 100 mA.
    pub fn new() -> (d: ConfigurationDescriptor)
        ensures
            d == (ConfigurationDescriptor {
                b_length: 9,
                b_descriptor_type: 2,
                w_total_length: 9,
                b_num_interfaces: 0,
                b_configuration_value: 1,
                i_configuration: 0,
                bm_attributes: 0b11000000,
                b_max_power: 50,
            }),
    {
        ConfigurationDescriptor {
            b_length: 9,
            b_descriptor_type: 2,
            w_total_length: 9,
            b_num_interfaces: 0,
            b_configuration_value: 1,
            i_configuration: 0,
            bm_attributes: 0b11000000,
            b_max_power: 50,
        }
    }
}

/// Standard setup request codes.
#[derive(Clone, Copy, PartialEq, Eq, Structural, Debug)]
pub enum SetupRequestType {
    GetStatus,
    ClearFeature,
    SetFeature,
    SetAddress,
    GetDescriptor,
    SetDescriptor,
    GetConfiguration,
    SetConfiguration,
    GetInterface,
    SetInterface,
    SynchFrame,
}

impl SetupRequestType {
    /// The request's code.
    pub open spec fn spec_code(self) -> u8 {
        match self {
            SetupRequestType::GetStatus => 0,
            SetupRequestType::ClearFeature => 1,
            SetupRequestType::SetFeature => 3,
            SetupRequestType::SetAddress => 5,
            SetupRequestType::GetDescriptor => 6,
            SetupRequestType::SetDescriptor => 7,
            SetupRequestType::GetConfiguration => 8,
            SetupRequestType::SetConfiguration => 9,
            SetupRequestType::GetInterface => 10,
            SetupRequestType::SetInterface => 11,
            SetupRequestType::SynchFrame => 12,
        }
    }

    /// The request with code `code`, if it is a standard one.
    pub fn from_code(code: u8) -> (r: Option<SetupRequestType>)
        ensures
            r matches Some(t) ==> t.spec_code() == code,
            r is None ==> forall|t: SetupRequestType| t.spec_code() != code,
    {
        match code {
            0 => Some(SetupRequestType::GetStatus),
            1 => Some(SetupRequestType::ClearFeature),
            3 => Some(SetupRequestType::SetFeature),
            5 => Some(SetupRequestType::SetAddress),
            6 => Some(SetupRequestType::GetDescriptor),
            7 => Some(SetupRequestType::SetDescriptor),
            8 => Some(SetupRequestType::GetConfiguration),
            9 => Some(SetupRequestType::SetConfiguration),
            10 => Some(SetupRequestType::GetInterface),
            11 => Some(SetupRequestType::SetInterface),
            12 => Some(SetupRequestType::SynchFrame),
            _ => None,
        }
    }
}

/// A setup packet.
#[derive(Clone, Copy, PartialEq, Eq, Structural, Debug)]
pub struct SetupRequest {
    pub bm_request_type: u8,
    pub b_request: SetupRequestType,
    pub w_value: u16,
    pub w_index: u16,
    pub w_length: u16,
}

/// The little-endian 16 bit value of two bytes.
pub open spec fn le16(lo: u8, hi: u8) -> u16 {
    (lo + hi * 0x100) as u16
}

fn make_le16(lo: u8, hi: u8) -> (v: u16)
    ensures
        v == le16(lo, hi),
{
    let v = (lo as u16) | ((hi as u16) << 8u16);
    assert(v == lo + hi * 0x100) by (bit_vector)
        requires
            v == (lo as u16) | ((hi as u16) << 8u16),
    ;
    v
}

impl SetupRequest {
    /// Reads a setup packet from the first 8 bytes of `buf`; `None` when its
    /// request code is not a standard one.
    pub fn parse(buf: &[u8]) -> (r: Option<SetupRequest>)
        requires
            buf@.len() >= 8,
        ensures
            r matches Some(req) ==> req.bm_request_type == buf@[0] && req.b_request.spec_code() == buf@[1]
                && req.w_value == le16(buf@[2], buf@[3]) && req.w_index == le16(buf@[4], buf@[5])
                && req.w_length == le16(buf@[6], buf@[7]),
            r is None ==> forall|t: SetupRequestType| t.spec_code() != buf@[1],
    {
        let b_request = match SetupRequestType::from_code(buf[1]) {
            Some(t) => t,
            None => return None,
        };
        Some(
            SetupRequest {
                bm_request_type: buf[0],
                b_request,
                w_value: make_le16(buf[2], buf[3]),
                w_index: make_le16(buf[4], buf[5]),
                w_length: make_le16(buf[6], buf[7]),
            },
        )
    }

    /// The data direction: 1 for device to host.
    pub fn data_direction(&self) -> (d: u8)
        ensures
            d == (self.bm_request_type & 0x80) >> 7u8,
            d <= 1,
    {
        let b = self.bm_request_type;
        assert((b & 0x80) >> 7u8 <= 1) by (bit_vector);
        (b & 0x80) >> 7
    }

    /// The request type: 0 standard, 1 class, 2 vendor.
    pub fn req_type(&self) -> (t: u8)
        ensures
            t == (self.bm_request_type & 0x60) >> 5u8,
            t <= 3,
    {
        let b = self.bm_request_type;
        assert((b & 0x60) >> 5u8 <= 3) by (bit_vector);
        (b & 0x60) >> 5
    }

    /// The recipient: 0 device, 1 interface, 2 endpoint, 3 other.
    pub fn recipient(&self) -> (r: u8)
        ensures
            r == self.bm_request_type & 0x1f,
    {
        self.bm_request_type & 0x1f
    }
}

/// The cases of the programming guide for the OUT endpoint interrupt
/// register's StsPhseRcvd, SetUp and XferCompl bits.
#[derive(Clone, Copy, PartialEq, Eq, Structural, Debug)]
pub enum TableCase {
    /// StsPhseRcvd 0, SetUp 0, XferCompl 1.
    A,
    /// StsPhseRcvd 0, SetUp 1, XferCompl 0.
    B,
    /// StsPhseRcvd 0, SetUp 1, XferCompl 1.
    C,
    /// StsPhseRcvd 1, SetUp 0, XferCompl 0.
    D,
    /// StsPhseRcvd 1, SetUp 0, XferCompl 1.
    E,
}

/// The case of an OUT endpoint interrupt register value: XferCompl is bit
/// 0, SetUp bit 3 and StsPhseRcvd bit 5. Only the combinations of the
/// programming guide are decoded properly.
pub open spec fn spec_decode_interrupt(device_out_int: u32) -> TableCase {
    let xfer_compl = device_out_int & 0x1 != 0;
    let setup = device_out_int & 0x8 != 0;
    let sts_phse_rcvd = device_out_int & 0x20 != 0;
    if xfer_compl {
        if setup {
            TableCase::C
        } else if sts_phse_rcvd {
            TableCase::E
        } else {
            TableCase::A
        }
    } else if setup {
        TableCase::B
    } else {
        TableCase::D
    }
}

impl TableCase {
    /// Decodes a value from the OUT endpoint interrupt register.
    pub fn decode_interrupt(device_out_int: u32) -> (c: TableCase)
        ensures
            c == spec_decode_interrupt(device_out_int),
    {
        if device_out_int & 0x1 != 0 {
            if device_out_int & 0x8 != 0 {
                TableCase::C
            } else if device_out_int & 0x20 != 0 {
                TableCase::E
            } else {
                TableCase::A
            }
        } else {
            if device_out_int & 0x8 != 0 {
                TableCase::B
            } else {
                TableCase::D
            }
        }
    }
}

/// The state of the control transfer on endpoint 0.
#[derive(Clone, Copy, PartialEq, Eq, Structural, Debug)]
pub enum USBState {
    WaitingForSetupPacket,
    DataStageIn,
    NoDataStage,
}

/// What the interrupt handler does for an interrupt status snapshot.
#[derive(Clone, Copy, PartialEq, Eq, Debug)]
pub struct InterruptPlan {
    /// A bus reset: reset the device address and endpoint 0.
    pub reset: bool,
    /// Report an early suspend.
    pub early_suspend: bool,
    /// Report a suspend.
    pub suspend: bool,
    /// The new interrupt mask.
    pub interrupt_mask: u32,
    /// The new device control register.
    pub device_control: u32,
    /// Endpoint 0 events to handle: OUT, IN.
    pub ep0: Option<(bool, bool)>,
}

/// The plan for interrupt status `status`, with the interrupt mask, the
/// device control register and the endpoint interrupt summary `daint`.
pub open spec fn spec_interrupt_plan(status: u32, mask: u32, control: u32, daint: u32) -> InterruptPlan {
    let out0 = daint & 0x1_0000 != 0;
    let in0 = daint & 0x1 != 0;
    InterruptPlan {
        reset: status & USB_RESET != 0,
        early_suspend: status & EARLY_SUSPEND != 0,
        suspend: status & USB_SUSPEND != 0,
        interrupt_mask: if mask & status & SOF != 0 { mask & !SOF } else { mask },
        device_control: (if status & GOUTNAKEFF != 0 { control | 0x400 } else { control })
            | (if status & GINNAKEFF != 0 { 0x100u32 } else { 0u32 }),
        ep0: if status & (OEPINT | IEPINT) != 0 && (out0 || in0) {
            Some((out0, in0))
        } else {
            None
        },
    }
}

/// Returns the plan of the interrupt handler for interrupt status
/// `status`: reset on a bus reset, suspend reports, masking start of frame
/// interrupts once seen, clearing the global NAKs once effective, and the
/// endpoint 0 events.
pub fn interrupt_plan(status: u32, mask: u32, control: u32, daint: u32) -> (p: InterruptPlan)
    ensures
        p == spec_interrupt_plan(status, mask, control, daint),
{
    let mut interrupt_mask = mask;
    if mask & status & SOF != 0 {
        interrupt_mask = mask & !SOF;
    }
    let mut device_control = control;
    if status & GOUTNAKEFF != 0 {
        device_control = device_control | 0x400;
    }
    if status & GINNAKEFF != 0 {
        device_control = device_control | 0x100;
    } else {
        assert(device_control | 0u32 == device_control) by (bit_vector);
    }
    let mut ep0: Option<(bool, bool)> = None;
    if status & (OEPINT | IEPINT) != 0 {
        let inter_ep0_out = daint & 0x1_0000 != 0;
        let inter_ep0_in = daint & 0x1 != 0;
        if inter_ep0_out || inter_ep0_in {
            ep0 = Some((inter_ep0_out, inter_ep0_in));
        }
    }
    InterruptPlan {
        reset: status & USB_RESET != 0,
        early_suspend: status & EARLY_SUSPEND != 0,
        suspend: status & USB_SUSPEND != 0,
        interrupt_mask,
        device_control,
        ep0,
    }
}

/// What to do in the "no data stage" state with an OUT event.
#[derive(Clone, Copy, PartialEq, Eq, Structural, Debug)]
pub enum OutAction {
    /// Nothing.
    Nothing,
    /// An IN token was detected: enable both endpoints.
    InDetected,
    /// Handle the setup packet.
    HandleSetup(TableCase),
    /// Report an unhandled event and wait for a setup packet.
    Unhandled,
    /// Report an unexpected case and wait for a setup packet.
    Unexpected(TableCase),
}

/// What handling endpoint 0 does.
#[derive(Clone, Copy, PartialEq, Eq, Structural, Debug)]
pub enum Ep0Action {
    /// Handle the setup packet.
    HandleSetup(TableCase),
    /// Report an unhandled event.
    Unhandled,
    /// A state or event that the driver does not handle: it stops.
    Fatal,
    /// In the "no data stage" state: whether the IN transfer completed, and
    /// what to do for the OUT event.
    NoDataStage(bool, OutAction),
}

/// What handling endpoint 0 does in state `state`.
pub open spec fn spec_ep0_action(
    state: USBState,
    inter_out: bool,
    inter_in: bool,
    ep_out_interrupts: u32,
    ep_in_interrupts: u32,
    setup_ready: bool,
) -> Ep0Action {
    let tc = spec_decode_interrupt(ep_out_interrupts);
    let setup_case = tc == TableCase::A || tc == TableCase::C;
    match state {
        USBState::WaitingForSetupPacket => if setup_case {
            if setup_ready {
                Ep0Action::HandleSetup(tc)
            } else {
                Ep0Action::Unhandled
            }
        } else {
            Ep0Action::Fatal
        },
        USBState::DataStageIn => Ep0Action::Fatal,
        USBState::NoDataStage => Ep0Action::NoDataStage(
            inter_in && ep_in_interrupts & 1 != 0,
            if !inter_out {
                OutAction::Nothing
            } else if tc == TableCase::B {
                OutAction::InDetected
            } else if setup_case {
                if setup_ready {
                    OutAction::HandleSetup(tc)
                } else {
                    OutAction::Unhandled
                }
            } else {
                OutAction::Unexpected(tc)
            },
        ),
    }
}

/// Returns what handling endpoint 0 does in state `state`, given which
/// directions had events, the endpoints' interrupt registers and whether
/// the current OUT descriptor holds a setup packet.
pub fn ep0_action(
    state: USBState,
    inter_out: bool,
    inter_in: bool,
    ep_out_interrupts: u32,
    ep_in_interrupts: u32,
    setup_ready: bool,
) -> (a: Ep0Action)
    ensures
        a == spec_ep0_action(state, inter_out, inter_in, ep_out_interrupts, ep_in_interrupts, setup_ready),
{
    let transfer_type = TableCase::decode_interrupt(ep_out_interrupts);
    let setup_case = match transfer_type {
        TableCase::A | TableCase::C => true,
        _ => false,
    };
    match state {
        USBState::WaitingForSetupPacket => {
            if setup_case {
                if setup_ready {
                    Ep0Action::HandleSetup(transfer_type)
                } else {
                    Ep0Action::Unhandled
                }
            } else {
                Ep0Action::Fatal
            }
        },
        USBState::DataStageIn => Ep0Action::Fatal,
        USBState::NoDataStage => {
            let in_done = inter_in && ep_in_interrupts & 1 != 0;
            let out = if !inter_out {
                OutAction::Nothing
            } else {
                match transfer_type {
                    TableCase::B => OutAction::InDetected,
                    TableCase::A | TableCase::C => {
                        if setup_ready {
                            OutAction::HandleSetup(transfer_type)
                        } else {
                            OutAction::Unhandled
                        }
                    },
                    tc => OutAction::Unexpected(tc),
                }
            };
            Ep0Action::NoDataStage(in_done, out)
        },
    }
}

/// What handling a setup packet does.
#[derive(Clone, Copy, PartialEq, Eq, Structural, Debug)]
pub enum SetupAction {
    /// Set the device address to the value, with the new device
    /// configuration register, then expect the status phase.
    SetAddress(u16, u32),
    /// A request the driver does not handle: it stops.
    Fatal,
    /// Nothing to do.
    Nothing,
}

/// What handling the setup packet `buf` does, with the device configuration
/// register `dcfg`.
pub open spec fn spec_setup_action(buf: Seq<u8>, dcfg: u32) -> SetupAction {
    let bm_request_type = buf[0];
    let b_request = buf[1];
    let w_value = le16(buf[2], buf[3]);
    let w_length = le16(buf[6], buf[7]);
    let data_direction = (bm_request_type & 0x80) >> 7u8;
    let req_type = (bm_request_type & 0x60) >> 5u8;
    let recipient = bm_request_type & 0x1f;
    if req_type == 0 && recipient == 0 {
        if data_direction == 1 || w_length > 0 || b_request != 5 {
            SetupAction::Fatal
        } else {
            SetupAction::SetAddress(
                w_value,
                (dcfg & !0x7f0u32) | (((w_value & 0x7f) as u32) << 4u32),
            )
        }
    } else if recipient == 1 {
        SetupAction::Fatal
    } else {
        SetupAction::Nothing
    }
}

/// Returns what handling the setup packet in `buf` does: standard device
/// requests without a data stage are handled, of which only Set Address is
/// known; other standard device requests and interface requests stop the
/// driver.
pub fn setup_action(buf: &[u8], dcfg: u32) -> (a: SetupAction)
    requires
        buf@.len() >= 8,
    ensures
        a == spec_setup_action(buf@, dcfg),
{
    let bm_request_type = buf[0];
    let b_request = buf[1];
    let w_value = make_le16(buf[2], buf[3]);
    let w_length = make_le16(buf[6], buf[7]);
    let data_direction = (bm_request_type & 0x80) >> 7;
    let req_type = (bm_request_type & 0x60) >> 5;
    let recipient = bm_request_type & 0x1f;
    if req_type == 0 && recipient == 0 {
        if data_direction == 1 {
            SetupAction::Fatal
        } else if w_length > 0 {
            SetupAction::Fatal
        } else if b_request == 5 {
            let address = ((w_value & 0x7f) as u32) << 4u32;
            SetupAction::SetAddress(w_value, (dcfg & !0x7f0u32) | address)
        } else {
            SetupAction::Fatal
        }
    } else if recipient == 1 {
        SetupAction::Fatal
    } else {
        SetupAction::Nothing
    }
}

/// The device configuration after a bus reset: the device address (bits 4
/// to 10) cleared.
pub fn reset_device_config(dcfg: u32) -> (r: u32)
    ensures
        r == dcfg & !0x7f0u32,
{
    dcfg & !0x7f0u32
}

/// The reset register value that flushes transmit FIFO `fifo_num` (0x10 for
/// all of them).
pub fn flush_tx_fifo_value(fifo_num: u8) -> (r: u32)
    requires
        fifo_num <= 0x10,
    ensures
        r == fifo_num * 0x40 + 0x20,
{
    let r = ((fifo_num as u32) << 6u32) | 0x20u32;
    assert(((fifo_num as u32) << 6u32) | 0x20u32 == fifo_num * 0x40 + 0x20) by (bit_vector)
        requires
            fifo_num <= 0x10,
    ;
    r
}

/// Flags of an OUT descriptor ready for a 64 byte packet.
pub const OUT_DESC_READY: u32 = 0x0a00_0040;

/// Flags of the IN descriptor for the zero length status packet.
pub const IN_DESC_STATUS: u32 = 0x0e00_0000;

/// Endpoint control: enable and clear NAK.
pub const EP_ENABLE_CNAK: u32 = 0x8400_0000;

/// Endpoint control: enable.
pub const EP_ENABLE: u32 = 0x8000_0000;

/// The endpoint 0 driver state.
#[derive(Clone, Copy, PartialEq, Eq, Structural, Debug)]
pub struct Ep0 {
    /// The control transfer state.
    pub state: USBState,
    /// The OUT descriptor that receives the next packet.
    pub next_out_idx: usize,
    /// The OUT descriptor of the packet being handled.
    pub cur_out_idx: usize,
}

impl Ep0 {
    /// Waiting for a setup packet in the first OUT descriptor.
    pub fn new() -> (e: Ep0)
        ensures
            e == (Ep0 { state: USBState::WaitingForSetupPacket, next_out_idx: 0, cur_out_idx: 0 }),
    {
        Ep0 { state: USBState::WaitingForSetupPacket, next_out_idx: 0, cur_out_idx: 0 }
    }

    /// A packet arrived: it is in the current descriptor, and the next one
    /// of the `count` OUT descriptors receives the following packet.
    pub fn got_rx_packet(&mut self, count: usize)
        requires
            old(self).next_out_idx < count,
        ensures
            final(self).cur_out_idx == old(self).next_out_idx,
            final(self).next_out_idx == (old(self).next_out_idx + 1) % (count as int),
            final(self).next_out_idx < count,
            final(self).state == old(self).state,
    {
        let noi = self.next_out_idx;
        self.cur_out_idx = noi;
        self.next_out_idx = (noi + 1) % count;
    }

    /// Expects a setup packet.
    pub fn expect_setup_packet(&mut self)
        ensures
            *final(self) == (Ep0 { state: USBState::WaitingForSetupPacket, ..*old(self) }),
    {
        self.state = USBState::WaitingForSetupPacket;
    }

    /// Expects the zero length IN status phase.
    pub fn expect_status_phase_in(&mut self)
        ensures
            *final(self) == (Ep0 { state: USBState::NoDataStage, ..*old(self) }),
    {
        self.state = USBState::NoDataStage;
    }
}

/// The USB core configuration: full speed USB 1.1, 6-pin unidirectional,
/// turnaround time 14, timeout calibration 7.
pub const USB_CONFIGURATION: u32 = 0x3847;

/// The AHB configuration: global interrupts unmasked, DMA, interrupt on
/// an empty non-periodic transmit FIFO.
pub const AHB_CONFIG: u32 = 0xa1;

/// The PHY selection written to the GPIO register: write mode, PHY A
/// active.
pub const PHY_SELECT: u32 = 0x8040_0000;

/// OUT endpoint interrupts unmasked: XferCompl, Disabled, SETUP.
pub const OUT_EP_INTERRUPT_MASK: u32 = 0xb;

/// IN endpoint interrupts unmasked: XferCompl, Disabled.
pub const IN_EP_INTERRUPT_MASK: u32 = 0x3;

/// Core interrupts unmasked.
pub open spec fn core_interrupt_mask() -> u32 {
    GOUTNAKEFF | GINNAKEFF | USB_RESET | ENUM_DONE | OEPINT | IEPINT | EARLY_SUSPEND | USB_SUSPEND | SOF
}

/// Device control after initialization: soft disconnect and power-on
/// programming done cleared, global NAKs cleared.
pub open spec fn device_control_after_init(control: u32) -> u32 {
    (control & !0x802u32) | 0x500u32
}

/// Device configuration after initialization: full speed, scatter/gather.
pub open spec fn device_config_after_init(config: u32) -> u32 {
    config | 0x80_0003u32
}

/// Computes the register values of the core initialization from the
/// device control and configuration registers: the interrupt mask, the
/// device control and the device configuration.
pub fn init_values(control: u32, config: u32) -> (r: (u32, u32, u32))
    ensures
        r == (core_interrupt_mask(), device_control_after_init(control), device_config_after_init(config)),
{
    let mask = GOUTNAKEFF | GINNAKEFF | USB_RESET | ENUM_DONE | OEPINT | IEPINT | EARLY_SUSPEND | USB_SUSPEND | SOF;
    // Soft disconnect, then power-on programming done set and cleared,
    // global NAKs cleared, and reconnect.
    let c1 = control | 0x2;
    let c2 = c1 | 0x800;
    let c3 = c2 & !0x800u32;
    let c4 = c3 | 0x400 | 0x100;
    let c5 = c4 & !0x2u32;
    assert(c5 == (control & !0x802u32) | 0x500u32) by (bit_vector)
        requires
            c1 == control | 0x2,
            c2 == c1 | 0x800,
            c3 == c2 & !0x800u32,
            c4 == c3 | 0x400 | 0x100,
            c5 == c4 & !0x2u32,
    ;
    let cfg = (config | 0b11u32) | 0x80_0000u32;
    assert(cfg == config | 0x80_0003u32) by (bit_vector)
        requires
            cfg == (config | 0b11u32) | 0x80_0000u32,
    ;
    (mask, c5, cfg)
}


/// The USB core registers that the initialization programs. `reset` holds
/// the last command written to the reset register, and `reset_commands` all
/// of them in order; the core clears the bits of a command when it has
/// carried it out.
pub struct UsbRegisters {
    /// Core interrupt mask.
    pub interrupt_mask: u32,
    /// Core interrupt status; writing ones clears.
    pub interrupt_status: u32,
    /// Device all-endpoints interrupt mask.
    pub device_all_ep_interrupt_mask: u32,
    /// Device IN endpoint interrupt mask.
    pub device_in_ep_interrupt_mask: u32,
    /// Device OUT endpoint interrupt mask.
    pub device_out_ep_interrupt_mask: u32,
    /// The PHY selection register.
    pub gpio: u32,
    /// The USB core configuration.
    pub configuration: u32,
    /// The AHB configuration.
    pub ahb_config: u32,
    /// The reset register.
    pub reset: u32,
    /// Device control.
    pub device_control: u32,
    /// Device configuration.
    pub device_config: u32,
    /// Size of the receive FIFO.
    pub receive_fifo_size: u32,
    /// Start and size of the non-periodic transmit FIFO.
    pub transmit_fifo_size: u32,
    /// Start and size of each IN endpoint's transmit FIFO.
    pub device_in_ep_tx_fifo_size: Vec<u32>,
    /// Interrupt register of each OUT endpoint; writing ones clears.
    pub out_endpoint_interrupts: Vec<u32>,
    /// Interrupt register of each IN endpoint; writing ones clears.
    pub in_endpoint_interrupts: Vec<u32>,
    /// The commands written to the reset register, in order.
    pub reset_commands: Ghost<Seq<u32>>,
}

/// The value of a FIFO size register: the size in the upper half, the
/// start in the lower half.
pub open spec fn fifo_register(size: u16, start: int) -> u32 {
    (size as int * 0x1_0000 + start) as u32
}

proof fn lemma_fifo_register(size: u16, start: u16)
    ensures
        (((size as u32) << 16u32) | (start as u32)) == size as int * 0x1_0000 + start as int,
{
    let s32 = size as u32;
    let t32 = start as u32;
    assert(((s32 << 16u32) | t32) == s32 * 0x1_0000 + t32) by (bit_vector)
        requires
            s32 < 0x1_0000,
            t32 < 0x1_0000,
    ;
}

/// Lays out the IN endpoints' transmit FIFOs, `tx_fifo_size` words each,
/// one after another behind the receive FIFO of `rx_fifo_size` words.
fn lay_out_tx_fifos(regs: &mut Vec<u32>, rx_fifo_size: u16, tx_fifo_size: u16)
    requires
        rx_fifo_size as int + old(regs)@.len() * tx_fifo_size as int <= 0xffff,
    ensures
        final(regs)@.len() == old(regs)@.len(),
        forall|i: int|
            0 <= i < final(regs)@.len() ==> #[trigger] final(regs)@[i] == fifo_register(
                tx_fifo_size,
                rx_fifo_size as int + i * tx_fifo_size as int,
            ),
{
    let n = regs.len();
    let mut i: usize = 0;
    while i < n
        invariant
            n == regs@.len(),
            rx_fifo_size as int + n * tx_fifo_size as int <= 0xffff,
            i <= n,
            forall|j: int|
                0 <= j < i ==> #[trigger] regs@[j] == fifo_register(
                    tx_fifo_size,
                    rx_fifo_size as int + j * tx_fifo_size as int,
                ),
        decreases n - i,
    {
        assert(rx_fifo_size as int + i * tx_fifo_size as int <= 0xffff) by (nonlinear_arith)
            requires
                rx_fifo_size as int + n * tx_fifo_size as int <= 0xffff,
                i < n,
        ;
        let offset: u32 = if tx_fifo_size == 0 {
            0
        } else {
            assert(i <= 0xffff) by (nonlinear_arith)
                requires
                    i * tx_fifo_size as int <= 0xffff,
                    tx_fifo_size >= 1,
                    i < n,
            ;
            (i as u32) * (tx_fifo_size as u32)
        };
        let start: u16 = (rx_fifo_size as u32 + offset) as u16;
        proof {
            lemma_fifo_register(tx_fifo_size, start);
        }
        regs.set(i, ((tx_fifo_size as u32) << 16u32) | (start as u32));
        i = i + 1;
    }
}

/// `n` registers that read zero.
fn zeroed(n: usize) -> (v: Vec<u32>)
    ensures
        v@ == Seq::new(n as nat, |i: int| 0u32),
{
    let mut v: Vec<u32> = Vec::new();
    let mut i: usize = 0;
    while i < n
        invariant
            i <= n,
            v@ == Seq::new(i as nat, |j: int| 0u32),
        decreases n - i,
    {
        v.push(0);
        i = i + 1;
        assert(v@ =~= Seq::new(i as nat, |j: int| 0u32));
    }
    v
}

/// Writes ones to every register of `regs`.
fn set_all_ones(regs: &mut Vec<u32>)
    ensures
        final(regs)@.len() == old(regs)@.len(),
        forall|i: int| 0 <= i < final(regs)@.len() ==> #[trigger] final(regs)@[i] == 0xffff_ffff,
{
    let mut k: usize = 0;
    while k < regs.len()
        invariant
            k <= regs@.len(),
            regs@.len() == old(regs)@.len(),
            forall|j: int| 0 <= j < k ==> #[trigger] regs@[j] == 0xffff_ffff,
        decreases regs@.len() - k,
    {
        regs.set(k, 0xffff_ffff);
        k = k + 1;
    }
}

impl UsbRegisters {
    /// Registers that read zero, with `in_endpoints` IN and `out_endpoints`
    /// OUT endpoints.
    pub fn new(in_endpoints: usize, out_endpoints: usize) -> (r: Self)
        ensures
            r.device_in_ep_tx_fifo_size@ == Seq::new(in_endpoints as nat, |i: int| 0u32),
            r.in_endpoint_interrupts@ == Seq::new(in_endpoints as nat, |i: int| 0u32),
            r.out_endpoint_interrupts@ == Seq::new(out_endpoints as nat, |i: int| 0u32),
            r.reset_commands@.len() == 0,
            r.interrupt_mask == 0 && r.interrupt_status == 0 && r.device_all_ep_interrupt_mask == 0,
            r.device_in_ep_interrupt_mask == 0 && r.device_out_ep_interrupt_mask == 0,
            r.gpio == 0 && r.configuration == 0 && r.ahb_config == 0 && r.reset == 0,
            r.device_control == 0 && r.device_config == 0,
            r.receive_fifo_size == 0 && r.transmit_fifo_size == 0,
    {
        UsbRegisters {
            interrupt_mask: 0,
            interrupt_status: 0,
            device_all_ep_interrupt_mask: 0,
            device_in_ep_interrupt_mask: 0,
            device_out_ep_interrupt_mask: 0,
            gpio: 0,
            configuration: 0,
            ahb_config: 0,
            reset: 0,
            device_control: 0,
            device_config: 0,
            receive_fifo_size: 0,
            transmit_fifo_size: 0,
            device_in_ep_tx_fifo_size: zeroed(in_endpoints),
            out_endpoint_interrupts: zeroed(out_endpoints),
            in_endpoint_interrupts: zeroed(in_endpoints),
            reset_commands: Ghost(Seq::empty()),
        }
    }

    /// Writes `command` to the reset register.
    fn write_reset(&mut self, command: u32)
        ensures
            *final(self) == (UsbRegisters {
                reset: command,
                reset_commands: Ghost(old(self).reset_commands@.push(command)),
                ..*old(self)
            }),
    {
        self.reset = command;
        self.reset_commands = Ghost(self.reset_commands@.push(command));
    }

    /// Initializes the core: interrupts masked while the PHY is selected and
    /// the core configured and reset; DMA and global interrupts on; the
    /// device configured for full speed with scatter/gather; the FIFOs laid
    /// out (receive FIFO of `rx_fifo_size` words first, then the transmit
    /// FIFOs of `tx_fifo_size` words each) and flushed; every pending
    /// interrupt cleared; the endpoint and core interrupts the driver
    /// handles unmasked; then power-on programming done, global NAKs cleared
    /// and the device connected (see `init_values`). Waiting for the core
    /// to carry out a reset or flush is the hardware's part.
    pub fn init(&mut self, rx_fifo_size: u16, tx_fifo_size: u16)
        requires
            rx_fifo_size as int + old(self).device_in_ep_tx_fifo_size@.len() * tx_fifo_size as int <= 0xffff,
        ensures
            final(self).interrupt_mask == core_interrupt_mask(),
            final(self).device_all_ep_interrupt_mask == 0,
            final(self).device_in_ep_interrupt_mask == IN_EP_INTERRUPT_MASK,
            final(self).device_out_ep_interrupt_mask == OUT_EP_INTERRUPT_MASK,
            final(self).gpio == PHY_SELECT,
            final(self).configuration == USB_CONFIGURATION,
            final(self).ahb_config == AHB_CONFIG,
            final(self).reset == 0x10,
            final(self).reset_commands@ == old(self).reset_commands@ + seq![1u32, 0x420u32, 0x10u32],
            final(self).device_control == device_control_after_init(old(self).device_control),
            final(self).device_config == device_config_after_init(old(self).device_config),
            final(self).receive_fifo_size == rx_fifo_size,
            final(self).transmit_fifo_size == fifo_register(tx_fifo_size, rx_fifo_size as int),
            final(self).device_in_ep_tx_fifo_size@.len() == old(self).device_in_ep_tx_fifo_size@.len(),
            forall|i: int|
                0 <= i < final(self).device_in_ep_tx_fifo_size@.len() ==> #[trigger] final(self).device_in_ep_tx_fifo_size@[i] == fifo_register(
                    tx_fifo_size,
                    rx_fifo_size as int + i * tx_fifo_size as int,
                ),
            final(self).interrupt_status == 0xffff_ffff,
            final(self).out_endpoint_interrupts@.len() == old(self).out_endpoint_interrupts@.len(),
            forall|i: int|
                0 <= i < final(self).out_endpoint_interrupts@.len() ==> #[trigger] final(self).out_endpoint_interrupts@[i] == 0xffff_ffff,
            final(self).in_endpoint_interrupts@.len() == old(self).in_endpoint_interrupts@.len(),
            forall|i: int|
                0 <= i < final(self).in_endpoint_interrupts@.len() ==> #[trigger] final(self).in_endpoint_interrupts@[i] == 0xffff_ffff,
    {
        self.interrupt_mask = 0;
        self.device_all_ep_interrupt_mask = 0;
        self.device_in_ep_interrupt_mask = 0;
        self.device_out_ep_interrupt_mask = 0;
        // Select PHY A.
        self.gpio = PHY_SELECT;
        self.configuration = USB_CONFIGURATION;
        // Soft reset, then configure again.
        self.write_reset(1);
        self.configuration = USB_CONFIGURATION;
        self.ahb_config = AHB_CONFIG;
        let (mask, control, config) = init_values(self.device_control, self.device_config);
        self.device_config = config;
        // Lay out the data FIFOs.
        self.receive_fifo_size = (rx_fifo_size as u32) & 0xffff;
        assert((rx_fifo_size as u32) & 0xffff == rx_fifo_size as u32) by (bit_vector);
        proof {
            lemma_fifo_register(tx_fifo_size, rx_fifo_size);
        }
        self.transmit_fifo_size = ((tx_fifo_size as u32) << 16u32) | ((rx_fifo_size as u32) & 0xffff);
        lay_out_tx_fifos(&mut self.device_in_ep_tx_fifo_size, rx_fifo_size, tx_fifo_size);
        // Flush all transmit FIFOs, then the receive FIFO.
        self.write_reset(flush_tx_fifo_value(0x10));
        self.write_reset(0x10);
        // Clear any pending interrupts.
        set_all_ones(&mut self.out_endpoint_interrupts);
        set_all_ones(&mut self.in_endpoint_interrupts);
        self.interrupt_status = 0xffff_ffff;
        // Unmask the endpoint and core interrupts the driver handles.
        self.device_out_ep_interrupt_mask = OUT_EP_INTERRUPT_MASK;
        self.device_in_ep_interrupt_mask = IN_EP_INTERRUPT_MASK;
        self.interrupt_mask = mask;
        // Power-on programming done, global NAKs cleared, reconnect.
        self.device_control = control;
        assert(self.reset_commands@ =~= old(self).reset_commands@ + seq![1u32, 0x420u32, 0x10u32]);
    }
}
} // verus!
