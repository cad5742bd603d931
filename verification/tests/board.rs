use papa::cortexm3::nvic_bit;
use papa::debug_syscall::UintPrinter;
use papa::driver::firmware::SegmentInfo;
use papa::driver::reset::ResetSource;
use papa::h1::chip::hotel_interrupt_handler;
use papa::h1::chip::Interrupt;
use papa::h1::fuse::{Fuse, FuseController};
use papa::h1::globalsec::{GlobalSecHardware, Segments, REGION_CTRL_EN_RD_WR};
use papa::h1::gpio::{GpioPort, Pin as H1Pin, PortRegisters};
use papa::h1::spi_host::{SpiHost, SpiHostHardware, SpiHostRegisters, CTRL_ENPASSTHRU, CTRL_INIT};
use papa::h1::test_rng::{Continue, Rng, TestRng};
use papa::hotel::gpio::{InterruptMode, Pin, PinNum};
use papa::hotel::timeus::{Counter, Enable, Timeus};
use papa::hotel::uart::UART;
use papa::hotel::usb::{
    ep0_action, init_values, interrupt_plan, setup_action, ConfigurationDescriptor, Ep0, Ep0Action, OutAction,
    SetupAction, SetupRequest, SetupRequestType, TableCase, USBState, UsbRegisters, IEPINT, OEPINT, SOF, USB_RESET,
};
use papa::protocol::firmware::SegmentAndLocation;
use papa::return_code::ReturnCode;
use papa::runner::{MarkerScanner, TestOutcome};
use papa::simple_print::hex;
use papa::syscall::SyscallError;
use papa::syscalls::fuse::FuseSyscall;
use papa::syscalls::reset::{ResetController, ResetSyscall};
use papa::syscalls::spi_host::SpiHostSyscall;
use papa::tango::Writer;

#[test]
fn table_case_decoding() {
    assert_eq!(TableCase::decode_interrupt(0b0000_0001), TableCase::A);
    assert_eq!(TableCase::decode_interrupt(0b0000_1000), TableCase::B);
    assert_eq!(TableCase::decode_interrupt(0b0000_1001), TableCase::C);
    assert_eq!(TableCase::decode_interrupt(0b0010_0000), TableCase::D);
    assert_eq!(TableCase::decode_interrupt(0b0010_0001), TableCase::E);
}

#[test]
fn setup_request_parsing() {
    let buf = [0x80u8, 6, 0x00, 0x01, 0x09, 0x04, 0x12, 0x00];
    let req = SetupRequest::parse(&buf).unwrap();
    assert_eq!(req.b_request, SetupRequestType::GetDescriptor);
    assert_eq!(req.w_value, 0x0100);
    assert_eq!(req.w_index, 0x0409);
    assert_eq!(req.w_length, 0x12);
    assert_eq!(req.data_direction(), 1);
    assert_eq!(req.req_type(), 0);
    assert_eq!(req.recipient(), 0);
    assert!(SetupRequest::parse(&[0, 2, 0, 0, 0, 0, 0, 0]).is_none());
    let class_req = SetupRequest::parse(&[0x21, 9, 0, 0, 0, 0, 0, 0]).unwrap();
    assert_eq!(class_req.req_type(), 1);
    assert_eq!(class_req.recipient(), 1);
}

#[test]
fn configuration_descriptor_defaults() {
    let d = ConfigurationDescriptor::new();
    assert_eq!((d.b_length, d.b_descriptor_type, d.w_total_length), (9, 2, 9));
    assert_eq!((d.bm_attributes, d.b_max_power), (0b1100_0000, 50));
}

#[test]
fn set_address_request() {
    match setup_action(&[0x00, 5, 0x2a, 0x00, 0, 0, 0, 0], 0xffff_ffff) {
        SetupAction::SetAddress(addr, dcfg) => {
            assert_eq!(addr, 0x2a);
            assert_eq!(dcfg, 0xffff_f80f | (0x2a << 4));
        }
        other => panic!("unexpected {:?}", other),
    }
    assert_eq!(setup_action(&[0x80, 6, 0, 1, 0, 0, 0x12, 0], 0), SetupAction::Fatal);
    assert_eq!(setup_action(&[0x01, 11, 0, 0, 0, 0, 0, 0], 0), SetupAction::Fatal);
    assert_eq!(setup_action(&[0x02, 1, 0, 0, 0, 0, 0, 0], 0), SetupAction::Nothing);
}

#[test]
fn endpoint0_decisions() {
    assert_eq!(ep0_action(USBState::WaitingForSetupPacket, true, false, 0b1001, 0, true), Ep0Action::HandleSetup(TableCase::C));
    assert_eq!(ep0_action(USBState::WaitingForSetupPacket, true, false, 0b1, 0, false), Ep0Action::Unhandled);
    assert_eq!(ep0_action(USBState::WaitingForSetupPacket, true, false, 0b1000, 0, true), Ep0Action::Fatal);
    assert_eq!(ep0_action(USBState::DataStageIn, true, true, 0, 0, true), Ep0Action::Fatal);
    assert_eq!(
        ep0_action(USBState::NoDataStage, true, true, 0b1000, 1, false),
        Ep0Action::NoDataStage(true, OutAction::InDetected)
    );
    assert_eq!(
        ep0_action(USBState::NoDataStage, true, false, 0b10_0000, 0, false),
        Ep0Action::NoDataStage(false, OutAction::Unexpected(TableCase::D))
    );
    let mut ep0 = Ep0::new();
    ep0.got_rx_packet(2);
    ep0.got_rx_packet(2);
    assert_eq!((ep0.cur_out_idx, ep0.next_out_idx), (1, 0));
    ep0.expect_status_phase_in();
    assert_eq!(ep0.state, USBState::NoDataStage);
}

#[test]
fn usb_interrupt_plans() {
    let plan = interrupt_plan(USB_RESET | SOF | OEPINT, SOF | 1, 0, 1 << 16);
    assert!(plan.reset);
    assert_eq!(plan.interrupt_mask, 1);
    assert_eq!(plan.ep0, Some((true, false)));
    let quiet = interrupt_plan(IEPINT, 0, 0, 0);
    assert_eq!(quiet.ep0, None);
    let (mask, control, config) = init_values(0xffff_ffff, 0);
    assert_eq!(mask & USB_RESET, USB_RESET);
    assert_eq!(control, 0xffff_f7fd);
    assert_eq!(config, 0x80_0003);
}

#[test]
fn usb_init_programs_core() {
    let mut regs = UsbRegisters::new(3, 2);
    regs.interrupt_mask = 0x1234;
    regs.device_all_ep_interrupt_mask = 7;
    regs.device_control = 0x802;
    regs.device_config = 0x10;
    regs.init(0x400, 0x80);
    assert_eq!(regs.ahb_config, 0xa1);
    assert_eq!(regs.configuration, 0x3847);
    assert_eq!(regs.gpio, 0x8040_0000);
    assert_eq!(regs.device_out_ep_interrupt_mask, 0xb);
    assert_eq!(regs.device_in_ep_interrupt_mask, 0x3);
    assert_eq!(regs.device_all_ep_interrupt_mask, 0);
    assert_eq!(regs.interrupt_mask & USB_RESET, USB_RESET);
    assert_eq!(regs.device_control, 0x500);
    assert_eq!(regs.device_config, 0x80_0013);
    assert_eq!(regs.receive_fifo_size, 0x400);
    assert_eq!(regs.transmit_fifo_size, 0x0080_0400);
    assert_eq!(regs.device_in_ep_tx_fifo_size, vec![0x0080_0400, 0x0080_0480, 0x0080_0500]);
    assert_eq!(regs.out_endpoint_interrupts, vec![0xffff_ffff; 2]);
    assert_eq!(regs.in_endpoint_interrupts, vec![0xffff_ffff; 3]);
    assert_eq!(regs.interrupt_status, 0xffff_ffff);
    assert_eq!(regs.reset, 0x10);
}

#[test]
fn uart_sends_as_room_allows() {
    let mut uart = UART::new();
    uart.config(115200);
    assert_eq!(uart.nco, 16384 * 115200 / 375000);
    uart.enable_tx();
    let written = uart.send_bytes(vec![1, 2, 3, 4, 5], 4, 3);
    assert_eq!(written, vec![1, 2, 3]);
    assert_eq!(uart.interrupt_control & 1, 1);
    let (more, back) = uart.handle_tx_interrupt(8);
    assert_eq!(more, vec![4]);
    assert!(back.is_none());
    let (none, back) = uart.handle_tx_interrupt(8);
    assert!(none.is_empty());
    assert!(back.is_none());
    uart.has_client = true;
    uart.send_bytes(vec![9], 1, 1);
    let (none, back) = uart.handle_tx_interrupt(1);
    assert!(none.is_empty());
    assert_eq!(back, Some(vec![9]));
    uart.disable_tx();
    assert!(!uart.clock_enabled);
}

#[test]
fn test_markers() {
    let mut scanner = MarkerScanner::new();
    let mut outcome = None;
    for b in b"hello\nTEST_FINISHED: SUCCESS\n" {
        outcome = scanner.push(*b);
        if outcome.is_some() {
            break;
        }
    }
    assert_eq!(outcome, Some(TestOutcome::Success));

    let mut scanner = MarkerScanner::new();
    let mut outcome = None;
    for b in b"x\nTEST_FINISHED: FAIL\n" {
        outcome = scanner.push(*b);
    }
    assert_eq!(outcome, Some(TestOutcome::Fail));

    let mut scanner = MarkerScanner::new();
    for b in b"TEST_FINISHED: SUCCESS\n" {
        assert_eq!(scanner.push(*b), None);
    }
}

#[test]
fn hex_values() {
    assert_eq!(hex(0xdeadbeefu32).value(), 0xdeadbeef);
    assert_eq!(hex(0x1_0000_0005usize as usize).value(), 5);
}

#[test]
fn uint_printer_numbers() {
    let p = UintPrinter::new();
    assert_eq!(p.command(3, 0, 0), (ReturnCode::SUCCESS, vec![3]));
    assert_eq!(p.command(3, 4, 0), (ReturnCode::SUCCESS, vec![3, 4]));
    assert_eq!(p.command(3, 0, 5), (ReturnCode::SUCCESS, vec![3, 0, 5]));
}

#[test]
fn syscall_error_numbers() {
    assert_eq!(isize::from(SyscallError::Unknown), -1);
    assert_eq!(isize::from(SyscallError::InternalError), -7);
}

#[test]
fn fuse_device_id() {
    let fuse = FuseController { dev_id0: 0x01020304, dev_id1: 0x05060708 };
    assert_eq!(fuse.get_dev_id(), 0x0102030405060708);
    let mut sys = FuseSyscall::new(fuse);
    let mut app: Option<Option<Vec<u8>>> = Some(None);
    assert_eq!(sys.command(1, 1, &mut app), ReturnCode::SUCCESS);
    assert_eq!(sys.allow(0, Some(vec![0; 10]), &mut app), ReturnCode::SUCCESS);
    assert_eq!(sys.command(1, 1, &mut app), ReturnCode::SUCCESS);
    assert_eq!(app, Some(Some(vec![1, 2, 3, 4, 5, 6, 7, 8, 0, 0])));
    assert_eq!(sys.allow(0, Some(vec![0; 3]), &mut app), ReturnCode::SUCCESS);
    assert_eq!(sys.command(1, 1, &mut app), ReturnCode::ENOMEM);
    assert_eq!(app, Some(Some(vec![1, 2, 3])));
    assert_eq!(sys.command(2, 1, &mut app), ReturnCode::ENOSUPPORT);
    assert_eq!(sys.subscribe(0), ReturnCode::ENOSUPPORT);
}

#[test]
fn reset_source_syscall() {
    let source = ResetSource {
        power_on_reset: false,
        low_power_reset: true,
        watchdog_reset: false,
        lockup_reset: false,
        sysreset: true,
        software_reset: false,
        fast_burnout_circuit: false,
        security_breach_reset: false,
    };
    let mut sys = ResetSyscall::new(ResetController { source, reset_requested: false });
    let mut app: Option<Option<Vec<u8>>> = Some(Some(vec![9; 9]));
    assert_eq!(sys.command(2, 4, &mut app), ReturnCode::SUCCESS);
    assert_eq!(app, Some(Some(vec![0, 1, 0, 0, 1, 0, 0, 0, 9])));
    let mut small: Option<Option<Vec<u8>>> = Some(Some(vec![9; 2]));
    assert_eq!(sys.command(2, 4, &mut small), ReturnCode::ENOMEM);
    assert_eq!(small, Some(Some(vec![0, 1])));
    let mut none: Option<Option<Vec<u8>>> = None;
    assert_eq!(sys.command(2, 4, &mut none), ReturnCode::ENOMEM);
    assert_eq!(sys.current_user, Some(4));
}

fn spi_host() -> SpiHostHardware {
    SpiHostHardware::new(SpiHostRegisters { ctrl: 0, xact: 0, ictrl: 0, txdone: false, tx_fifo: vec![0; 128], rx_fifo: vec![7; 128] })
}

#[test]
fn spi_host_transactions() {
    let mut host = spi_host();
    host.init();
    assert_eq!(host.registers.ctrl, CTRL_INIT);
    assert_eq!(host.start_transaction(None, None, 0), ReturnCode::ESIZE);
    assert_eq!(host.start_transaction(None, None, 128), ReturnCode::ESIZE);
    assert_eq!(host.read_write_bytes(vec![1, 2], Some(vec![0; 3]), 4), ReturnCode::SUCCESS);
    assert_eq!(&host.registers.tx_fifo[..5], &[1, 2, 0xff, 0xff, 0]);
    assert_eq!(host.registers.xact, 0x3e | 1);
    host.set_client();
    host.registers.txdone = true;
    assert_eq!(host.read_write_bytes(vec![1], None, 1), ReturnCode::EBUSY);
    let done = host.handle_interrupt().unwrap();
    assert_eq!(done.write_buffer, vec![1, 2]);
    assert_eq!(done.read_buffer, Some(vec![7, 7, 7]));
    assert_eq!(done.len, 4);
    host.spi_device_spi_host_passthrough(true);
    assert_eq!(host.registers.ctrl & CTRL_ENPASSTHRU, CTRL_ENPASSTHRU);
    let mut sys = SpiHostSyscall::new(host);
    assert_eq!(sys.command(1, 0, 2, true), ReturnCode::SUCCESS);
    assert_eq!(sys.device.registers.ctrl & CTRL_ENPASSTHRU, 0);
    assert_eq!(sys.command(1, 1, 2, false), ReturnCode::ENOMEM);
    assert_eq!(sys.command(2, 1, 2, true), ReturnCode::ENOSUPPORT);
}

fn segment(identifier: SegmentAndLocation, address: u32) -> SegmentInfo {
    SegmentInfo { identifier, address, size: 0x1000, start_page: address / 0x800, page_count: 2 }
}

#[test]
fn globalsec_selects_inactive_segments() {
    let mut g = GlobalSecHardware::new();
    let segments = Segments {
        ro_a: segment(SegmentAndLocation::RoA, 0x0000),
        ro_b: segment(SegmentAndLocation::RoB, 0x4000),
        rw_a: segment(SegmentAndLocation::RwA, 0x8000),
        rw_b: segment(SegmentAndLocation::RwB, 0xc000),
    };
    let report = g.init(segments, 0x40000 + 0x4000, 0x12345, 0x40000);
    assert!(!report.unknown_region0_base);
    assert!(report.unknown_region1_base);
    let info = g.get_runtime_segment_info();
    assert_eq!(info.active_ro.identifier, SegmentAndLocation::RoB);
    assert_eq!(info.inactive_ro.identifier, SegmentAndLocation::RoA);
    assert_eq!(info.inactive_rw.identifier, SegmentAndLocation::Unknown);
    assert_eq!(g.flash_region2.base_addr, 0x40000);
    assert_eq!(g.flash_region2.ctrl, REGION_CTRL_EN_RD_WR);
    assert_eq!(g.region_ctrl.len(), 12);
}

#[test]
fn hotel_pins_and_counters() {
    let mut port = PortRegisters {
        data_in: 0,
        data_out: 0,
        output_enable: 0xffff,
        interrupt_enable: 0,
        interrupt_type: 0,
        interrupt_pol: 0,
        interrupt_status: 0,
    };
    let mut pin = Pin::new(PinNum::P3);
    pin.enable_interrupt(77, InterruptMode::Change, &mut port);
    assert_eq!(port.interrupt_pol, 0b1000);
    assert_eq!(port.interrupt_enable, 0b1000);
    pin.has_client = true;
    assert_eq!(pin.handle_interrupt(&mut port), Some(77));
    assert_eq!(port.interrupt_pol, 0);
    pin.disable(&mut port);
    assert_eq!(port.output_enable, 0xfff7);
    assert_eq!(hotel_interrupt_handler(70), Some(Interrupt::Gpio(GpioPort::Port0, H1Pin::P5)));
    assert_eq!(hotel_interrupt_handler(131), None);

    let counter = Counter { wrapping: Enable::Disabled, oneshot: Enable::Disabled, max_value: 0, programmed_value: 0, divider: 0, current_value: 42 };
    let mut t = Timeus::new(counter, 0);
    assert_eq!(t.now(), 42);
    t.start();
    assert_eq!((t.counter.max_value, t.counter.divider, t.counter.wrapping), (0xffff_ffff, 1, Enable::Enabled));
    assert_eq!(Enable::Enabled.value(), 1);
}

#[test]
fn nvic_bits() {
    assert_eq!(nvic_bit(0), (0, 1));
    assert_eq!(nvic_bit(193), (6, 1 << 1));
}

#[test]
fn console_writer() {
    let mut w = Writer::new();
    let first = w.write_str("ok");
    assert!(first.init);
    assert_eq!(first.words, vec![0x6f, 0x6b]);
    assert!(!w.write_str("!").init);
}

struct CountingRng {
    asked: usize,
}

impl Rng for CountingRng {
    fn get(&mut self) -> ReturnCode {
        self.asked += 1;
        ReturnCode::SUCCESS
    }
}

#[test]
fn rng_test_shows_five_words() {
    let mut t = TestRng::new(CountingRng { asked: 0 });
    t.run();
    assert_eq!(t.rng.asked, 1);
    let (shown, cont) = t.randomness_available(&[1, 2, 3, 4, 5, 6, 7]);
    assert_eq!(shown, vec![1, 2, 3, 4, 5]);
    assert_eq!(cont, Continue::Done);
}
