use papa::cortexm3::Nvic;
use papa::driver::AddressConfig;
use papa::driver::HandlerMode;
use papa::h1::chip::{interrupt_handler, service_pending_interrupts, Interrupt};
use papa::h1::flash::{get_bank_from_target, AlarmOutcome, Bank, FlashImpl, MemoryFlash, ERASE_OPCODE, WRITE_OPCODE};
use papa::h1::gpio::{
    floating_state, get_pinmux_pin, set_floating_state, FloatingState, GPIOPin, GpioPort, InterruptEdge, Pin,
    PortRegisters, SelectablePin,
};
use papa::h1::nvcounter::{counter_value, increment_step, CounterEvent, FlashCounter, IncrementStep, MemoryCounterFlash, Page, Task};
use papa::h1::spi_device::{SpiDeviceConfiguration, SpiDeviceHardware, SpiDeviceRegisters, CTRL_MODE_EEPROM};
use papa::h1::timels::{Freq256Khz, Timels, TimelsRegisters};
use papa::h1::virtual_flash::{MuxFlash, Operation};
use papa::protocol::flash::AddressMode;
use papa::return_code::ReturnCode;
use papa::syscalls::flash::{store_read_word, FlashAppData, FlashSyscalls};
use papa::syscalls::spi_device::{AppData, SpiDeviceSyscall};

fn spi_device() -> SpiDeviceHardware {
    SpiDeviceHardware::new(SpiDeviceRegisters::zeroed(), SpiDeviceConfiguration::default())
}

#[test]
fn return_code_numbers() {
    assert_eq!(ReturnCode::SUCCESS.number(), 0);
    assert_eq!(ReturnCode::EINVAL.number(), -6);
    assert_eq!(ReturnCode::ENOSUPPORT.number(), -10);
    assert_eq!(ReturnCode::SuccessWithValue { value: 7 }.number(), 7);
}

#[test]
fn spi_device_default_configuration() {
    let c = SpiDeviceConfiguration::default();
    assert!(!c.enable_fastread4b_cmd);
    assert!(!c.enable_enterexit4b_cmd);
    assert_eq!(c.startup_address_mode, AddressMode::ThreeByte);
}

#[test]
fn spi_device_init_programs_filters() {
    let mut dev = spi_device();
    dev.init(SpiDeviceConfiguration::default());
    assert_eq!(dev.registers.ctrl, CTRL_MODE_EEPROM);
    assert_eq!(dev.registers.eeprom_ctrl, 0x49c);
    assert_eq!(dev.registers.fast_dual_rd_opcode, 0x3b);
    assert_eq!(dev.registers.passthru_filter_rule[0], 0xf800_0301);
    assert_eq!(dev.registers.passthru_filter_rule[1], 0xf808_0b01);
    assert_eq!(dev.registers.passthru_filter_rule[5], 0x8080_0301);
    assert_eq!(dev.registers.passthru_filter_rule[6], 0);
    assert_eq!(dev.registers.busy_opcode[0], 1 + 0xb7 * 2);
    assert_eq!(dev.registers.busy_opcode[1], 1 + 0xe9 * 2);
    assert_eq!(dev.registers.jedec_id, vec![0x26, 0x31, 0x20, 0x00, 0xff, 0xff, 0xff, 0xff, 0xff, 0xff, 0xff, 0xff]);
    assert_eq!(dev.get_address_mode(), AddressMode::ThreeByte);
}

#[test]
fn spi_device_init_fastread4b() {
    let mut dev = spi_device();
    dev.init(SpiDeviceConfiguration {
        enable_fastread4b_cmd: true,
        enable_enterexit4b_cmd: false,
        startup_address_mode: AddressMode::FourByte,
    });
    assert_eq!(dev.registers.fast_dual_rd_opcode, 0x0c);
    assert_eq!(dev.registers.passthru_filter_rule[1], 0xfc08_0b01);
    assert_eq!(dev.registers.passthru_filter_rule[2], 0xfc0c_0c01);
    assert_eq!(dev.registers.passthru_filter_rule[7], 0);
    assert_eq!(dev.get_address_mode(), AddressMode::FourByte);
}

#[test]
fn spi_device_address_mode_law() {
    let mut dev = spi_device();
    dev.set_address_mode(AddressMode::FourByte);
    assert_eq!(dev.get_address_mode(), AddressMode::FourByte);
    dev.set_address_mode(AddressMode::ThreeByte);
    assert_eq!(dev.get_address_mode(), AddressMode::ThreeByte);
}

#[test]
fn spi_device_receives_wrapped_data() {
    let mut dev = spi_device();
    dev.registers.eeprom_cmd_buf[510] = 0xaa;
    dev.registers.eeprom_cmd_buf[511] = 0xbb;
    dev.registers.eeprom_cmd_buf[0] = 0xcc;
    dev.registers.cmd_mem_rptr = 510;
    let mut buf = vec![0u8; 8];
    // Write pointer 1, full bit flipped: the data wrapped around.
    let n = dev.get_received_data(Some(0x200 | 1), &mut buf);
    assert_eq!(n, 3);
    assert_eq!(&buf[..4], &[0xaa, 0xbb, 0xcc, 0]);
    assert_eq!(dev.registers.cmd_mem_rptr, 0x201);
    assert_eq!(dev.get_received_data(None, &mut buf), 0);
}

#[test]
fn spi_device_receive_truncates_to_buffer() {
    let mut dev = spi_device();
    dev.registers.eeprom_cmd_buf[0] = 1;
    dev.registers.eeprom_cmd_buf[1] = 2;
    dev.registers.eeprom_cmd_buf[2] = 3;
    let mut buf = vec![9u8; 2];
    assert_eq!(dev.get_received_data(Some(3), &mut buf), 2);
    assert_eq!(buf, vec![1, 2]);
}

#[test]
fn spi_device_send_data() {
    let mut dev = spi_device();
    assert_eq!(dev.put_send_data(&[1, 2, 3]), ReturnCode::SUCCESS);
    assert_eq!(&dev.registers.generic_ram[..4], &[1, 2, 3, 0xff]);
    assert_eq!(dev.registers.generic_ram[2047], 0xff);
    assert_eq!(dev.put_send_data(&vec![0u8; 2049]), ReturnCode::ESIZE);
}

#[test]
fn spi_device_configure_addresses() {
    let mut dev = spi_device();
    dev.configure_addresses(AddressConfig {
        flash_virtual_base: 0x0000_0000,
        flash_physical_base: 0x0100_0000,
        flash_physical_size: 0x0200_0000,
        ram_virtual_base: 0x0400_0000,
        virtual_size: 0x0800_0000,
    });
    assert_eq!(dev.registers.ext_flash_base_page, 0);
    assert_eq!(dev.registers.ext_flash_limit_page, 0x01ff_ffff >> 9);
    assert_eq!(dev.registers.ext_flash_trans_bit_vector, 0x01ff_ffff);
    assert_eq!(dev.registers.ext_flash_trans_addr, 0x0100_0000);
    assert_eq!(dev.registers.ram_virtual_page, vec![0x2_0000, 0x2_0001, 0x2_0002, 0x2_0003]);
    assert_eq!(dev.registers.virtual_addr_filter, 0x07ff_ffff);
    assert_eq!(dev.registers.eeprom_ctrl & 0x814, 0x800);
}

#[test]
fn spi_syscall_commands() {
    let mut sys = SpiDeviceSyscall::new(spi_device());
    let mut app = Some(AppData::new());
    assert_eq!(sys.command(0, 0, 0, 7, &mut app), ReturnCode::SUCCESS);
    assert_eq!(sys.current_user, Some(7));
    assert_eq!(sys.command(3, 1, 0, 8, &mut app), ReturnCode::SUCCESS);
    assert_eq!(sys.current_user, Some(7));
    assert_eq!(sys.command(4, 0, 0, 7, &mut app), ReturnCode::SuccessWithValue { value: 1 });
    assert_eq!(sys.command(3, 2, 0, 7, &mut app), ReturnCode::EINVAL);
    assert_eq!(sys.command(5, 3, 0, 7, &mut app), ReturnCode::EINVAL);
    assert_eq!(sys.command(5, 2, 0, 7, &mut app), ReturnCode::SUCCESS);
    assert_eq!(app.as_ref().unwrap().address_mode_handling, HandlerMode::KernelSpace);
    assert_eq!(sys.command(1, 0, 0, 7, &mut app), ReturnCode::ENOMEM);
    assert_eq!(sys.command(9, 0, 0, 7, &mut app), ReturnCode::ENOSUPPORT);
    let mut none: Option<AppData> = None;
    assert_eq!(sys.command(2, 1, 1, 7, &mut none), ReturnCode::ENOMEM);
}

#[test]
fn spi_syscall_send_and_configure() {
    let mut sys = SpiDeviceSyscall::new(spi_device());
    let mut app = Some(AppData::new());
    assert_eq!(sys.allow(0, Some(vec![5, 6]), &mut app), ReturnCode::SUCCESS);
    sys.device.registers.busy = true;
    assert_eq!(sys.command(1, 1, 0, 1, &mut app), ReturnCode::SUCCESS);
    assert_eq!(&sys.device.registers.generic_ram[..3], &[5, 6, 0xff]);
    assert!(!sys.device.registers.busy);
    // Two bytes are no address configuration.
    assert_eq!(sys.command(8, 0, 0, 1, &mut app), ReturnCode::EINVAL);
    assert_eq!(sys.command(6, 0, 0, 1, &mut app), ReturnCode::SUCCESS);
    assert_eq!(&sys.device.registers.jedec_id[..3], &[5, 6, 0xff]);
    assert_eq!(sys.allow(2, None, &mut app), ReturnCode::ENOSUPPORT);
    let mut none: Option<AppData> = None;
    assert_eq!(sys.allow(0, None, &mut none), ReturnCode::FAIL);
    assert_eq!(sys.subscribe(2, None, &mut app), ReturnCode::ENOSUPPORT);
}

#[test]
fn spi_syscall_enter_4b_in_kernel() {
    let mut sys = SpiDeviceSyscall::new(spi_device());
    let mut app = Some(AppData::new());
    assert_eq!(sys.command(5, 2, 0, 3, &mut app), ReturnCode::SUCCESS);
    assert_eq!(sys.subscribe(1, Some(42), &mut app), ReturnCode::SUCCESS);
    assert_eq!(sys.subscribe(0, Some(43), &mut app), ReturnCode::SUCCESS);
    sys.device.registers.eeprom_cmd_buf[0] = 0xb7;
    sys.device.registers.busy = true;
    let ups = sys.data_available(true, false, Some(1), &mut app);
    assert_eq!(ups.len(), 1);
    assert_eq!(ups[0].callback, 42);
    assert_eq!(ups[0].arg0, 1);
    assert_eq!(sys.device.get_address_mode(), AddressMode::FourByte);
    assert!(!sys.device.registers.busy);
}

#[test]
fn spi_syscall_user_space_command() {
    let mut sys = SpiDeviceSyscall::new(spi_device());
    let mut app = Some(AppData::new());
    assert_eq!(sys.command(0, 0, 0, 3, &mut app), ReturnCode::SUCCESS);
    assert_eq!(sys.subscribe(0, Some(43), &mut app), ReturnCode::SUCCESS);
    assert_eq!(sys.allow(1, Some(vec![0; 4]), &mut app), ReturnCode::SUCCESS);
    sys.device.registers.eeprom_cmd_buf[0] = 0x03;
    sys.device.registers.eeprom_cmd_buf[1] = 0x10;
    let ups = sys.data_available(false, true, Some(2), &mut app);
    assert_eq!(ups.len(), 1);
    assert_eq!((ups[0].callback, ups[0].arg0, ups[0].arg1, ups[0].arg2), (43, 2, 0, 1));
    assert_eq!(app.as_ref().unwrap().rx_buffer, Some(vec![0x03, 0x10, 0, 0]));
}

#[test]
fn spi_syscall_without_user_ignores_data() {
    let mut sys = SpiDeviceSyscall::new(spi_device());
    let mut app = Some(AppData::new());
    assert!(sys.data_available(false, false, Some(1), &mut app).is_empty());
}

#[test]
fn flash_banks() {
    assert_eq!(get_bank_from_target(0), Some(Bank::Zero));
    assert_eq!(get_bank_from_target(0xffff), Some(Bank::Zero));
    assert_eq!(get_bank_from_target(0x10000), Some(Bank::One));
    assert_eq!(get_bank_from_target(0x1ffff), Some(Bank::One));
    assert_eq!(get_bank_from_target(0x20000), None);
}

#[test]
fn flash_erase_and_write() {
    let mut f = FlashImpl::new();
    f.set_client();
    assert_eq!(f.erase(130), ReturnCode::SUCCESS);
    let p = f.program.unwrap();
    assert_eq!((p.opcode, p.bank, p.bank_target, p.timeout_nanoseconds), (ERASE_OPCODE, Bank::One, 512 * 130 - 0x10000, 3_353_267));
    assert_eq!(f.erase(1), ReturnCode::EBUSY);
    assert!(matches!(f.alarm(None), AlarmOutcome::Running));
    assert!(matches!(f.alarm(Some(ReturnCode::SUCCESS)), AlarmOutcome::EraseDone(ReturnCode::SUCCESS)));
    assert_eq!(f.erase(256), ReturnCode::EINVAL);

    let (rc, back) = f.write(0x20000, vec![1]);
    assert_eq!(rc, ReturnCode::EINVAL);
    assert_eq!(back, Some(vec![1]));
    let (rc, back) = f.write(5, vec![0; 33]);
    assert_eq!(rc, ReturnCode::ESIZE);
    assert_eq!(back.unwrap().len(), 33);
    let (rc, back) = f.write(5, vec![1, 2, 3]);
    assert_eq!(rc, ReturnCode::SUCCESS);
    assert!(back.is_none());
    let p = f.program.unwrap();
    assert_eq!((p.opcode, p.size, p.timeout_nanoseconds), (WRITE_OPCODE, 3, 48734 + 3 * 3734));
    assert_eq!(f.hw_write_data, vec![1, 2, 3]);
    match f.alarm(Some(ReturnCode::SUCCESS)) {
        AlarmOutcome::WriteDone(data, code) => {
            assert_eq!(data, vec![1, 2, 3]);
            assert_eq!(code, ReturnCode::SUCCESS);
        }
        _ => panic!("expected the write to finish"),
    }
    assert!(matches!(f.alarm(None), AlarmOutcome::Idle));
}

fn fake_flash() -> MemoryFlash {
    MemoryFlash::new(vec![0x04030201, 0x08070605], ReturnCode::SUCCESS, ReturnCode::EBUSY)
}

#[test]
fn flash_syscall_read_words() {
    let mut sys = FlashSyscalls::new(fake_flash(), vec![0; 4]);
    let mut app = Some(FlashAppData::new());
    assert_eq!(sys.allow(1, Some(vec![0; 6]), &mut app), ReturnCode::SUCCESS);
    assert_eq!(sys.command(3, 2, 4, 1, &mut app), ReturnCode::EINVAL);
    assert_eq!(sys.command(3, 0, 6, 1, &mut app), ReturnCode::SUCCESS);
    assert_eq!(app.as_ref().unwrap().read_buffer, Some(vec![1, 2, 3, 4, 5, 6]));
    assert_eq!(sys.command(3, 4, 8, 1, &mut app), ReturnCode::EINVAL);
}

#[test]
fn flash_syscall_write_words() {
    let mut sys = FlashSyscalls::new(fake_flash(), vec![0; 4]);
    let mut app = Some(FlashAppData::new());
    assert_eq!(sys.command(2, 4, 8, 1, &mut app), ReturnCode::ENOMEM);
    assert_eq!(sys.allow(0, Some(vec![1, 2, 3, 4, 5, 6, 7, 8, 9]), &mut app), ReturnCode::SUCCESS);
    assert_eq!(sys.command(2, 4, 6, 1, &mut app), ReturnCode::EINVAL);
    assert_eq!(sys.command(2, 4, 12, 1, &mut app), ReturnCode::EBUSY);
    assert_eq!(sys.device.written, vec![(1, vec![0x04030201, 0x08070605])]);
    assert_eq!(sys.write_buffer, Some(vec![0x04030201, 0x08070605]));
    assert_eq!(sys.command(1, 3, 0, 1, &mut app), ReturnCode::SUCCESS);
    assert_eq!(sys.device.erased, vec![3]);
    assert_eq!(sys.subscribe(0, Some(9), &mut app), ReturnCode::SUCCESS);
    let up = sys.erase_done(ReturnCode::FAIL, &app).unwrap();
    assert_eq!((up.callback, up.arg0), (9, (-1isize) as usize));
}

#[test]
fn flash_read_word_results() {
    let mut buf = vec![0u8; 6];
    assert_eq!(store_read_word(&mut buf, 4, 6, ReturnCode::SuccessWithValue { value: 0x44332211 }), None);
    assert_eq!(buf, vec![0, 0, 0, 0, 0x11, 0x22]);
    assert_eq!(store_read_word(&mut buf, 0, 6, ReturnCode::SUCCESS), Some(ReturnCode::FAIL));
    assert_eq!(store_read_word(&mut buf, 0, 6, ReturnCode::EBUSY), Some(ReturnCode::EBUSY));
}

#[test]
fn mux_flash_serves_users_in_turn() {
    let mut mux = MuxFlash::new(fake_flash());
    let a = mux.add_user();
    let b = mux.add_user();
    assert_eq!(mux.erase(a, 4), ReturnCode::SUCCESS);
    assert_eq!(mux.in_flight, Some(a));
    assert_eq!(mux.erase(b, 5), ReturnCode::SUCCESS);
    assert_eq!(mux.erase(b, 6), ReturnCode::EBUSY);
    assert_eq!(mux.driver.erased, vec![4]);
    let done = mux.erase_done(ReturnCode::SUCCESS).unwrap();
    assert_eq!(done.user, a);
    assert_eq!(mux.users[a].operation, Operation::Idle);
    assert_eq!(mux.in_flight, Some(b));
    assert_eq!(mux.driver.erased, vec![4, 5]);
}

fn fake_counter(high: u32, low: u32) -> MemoryCounterFlash {
    MemoryCounterFlash::new(high, low)
}

#[test]
fn nvcounter_increment_flow() {
    let mut c = FlashCounter::new(vec![0], fake_counter(2, 5));
    c.set_client();
    assert_eq!(c.read_and_increment(), (ReturnCode::SuccessWithValue { value: 4097 + 5 }, None));
    assert_eq!(c.task, Some(Task::Increment));
    assert_eq!(c.read_and_increment(), (ReturnCode::EBUSY, None));
    assert_eq!(c.flash.increments, vec![(Page::Low, 5)]);
    c.flash.low_count = 6;
    assert_eq!(c.write_done(vec![0], ReturnCode::SUCCESS), Some(CounterEvent::IncrementDone(ReturnCode::SUCCESS)));
    assert_eq!(c.task, None);
}

#[test]
fn nvcounter_rollover2_when_high_odd() {
    let mut c = FlashCounter::new(vec![0], fake_counter(3, 7));
    c.set_client();
    assert_eq!(c.read_and_increment(), (ReturnCode::SuccessWithValue { value: 2 * 4097 }, None));
    assert_eq!(c.flash.erased, vec![0]);
    let mut failing = FlashCounter::new(vec![0], fake_counter(3, 7));
    failing.set_client();
    assert_eq!(failing.read_and_increment(), (ReturnCode::SuccessWithValue { value: 2 * 4097 }, None));
    assert_eq!(failing.erase_done(ReturnCode::FAIL), Some(CounterEvent::IncrementDone(ReturnCode::FAIL)));
    assert_eq!(failing.task, None);
}

#[test]
fn nvcounter_rollover2_then_rollover3() {
    let mut c = FlashCounter::new(vec![0], fake_counter(3, 0));
    c.set_client();
    // With the buffer at hand, Rollover3 starts on the high page.
    assert_eq!(c.read_and_increment(), (ReturnCode::SuccessWithValue { value: 2 * 4097 }, None));
    assert_eq!(c.flash.increments, vec![(Page::High, 3)]);
    // The write holds the buffer: a second counter sees Rollover3 running.
    let mut d = FlashCounter::new(vec![0], fake_counter(3, 0));
    d.write_buffer = None;
    assert_eq!(d.read_and_increment(), (ReturnCode::SuccessWithValue { value: 2 * 4097 }, None));
    assert!(d.flash.increments.is_empty());
    // After Rollover2 the counter strikes the high page.
    let mut e = FlashCounter::new(vec![0], fake_counter(3, 0));
    assert_eq!(e.erase_done(ReturnCode::SUCCESS), None);
    assert_eq!(e.flash.increments, vec![(Page::High, 3)]);
}

#[test]
fn nvcounter_initialize() {
    let mut c = FlashCounter::new(vec![0], fake_counter(0, 4));
    c.set_client();
    assert_eq!(c.initialize(), ReturnCode::SUCCESS);
    assert_eq!(c.task, Some(Task::Initialize));
    assert_eq!(c.initialize(), ReturnCode::EBUSY);
    assert_eq!(c.erase_done(ReturnCode::SUCCESS), Some(CounterEvent::InitializeDone(ReturnCode::SUCCESS)));
    assert_eq!(c.task, None);
}

#[test]
fn nvcounter_initialize_erases_high_page() {
    let mut c = FlashCounter::new(vec![0], fake_counter(2, 0));
    c.set_client();
    assert_eq!(c.initialize(), ReturnCode::SUCCESS);
    assert_eq!(c.flash.erased, vec![0]);
    assert_eq!(c.erase_done(ReturnCode::SUCCESS), None);
    assert_eq!(c.flash.erased, vec![0, 1]);
    assert_eq!(c.task, Some(Task::Initialize));
}

#[test]
fn nvcounter_low_page_full_starts_rollover1() {
    let mut flash = fake_counter(2, 9);
    flash.increment_answer = ReturnCode::ESIZE;
    let mut c = FlashCounter::new(vec![0], flash);
    c.set_client();
    let r = c.read_and_increment();
    assert_eq!(c.flash.increments, vec![(Page::Low, 9), (Page::High, 2)]);
    // Both pages full: the largest value; the client hears ESIZE.
    assert_eq!(r, (ReturnCode::SuccessWithValue { value: 4097 + 9 }, Some(CounterEvent::IncrementDone(ReturnCode::ESIZE))));
    assert_eq!(c.task, None);
}

#[test]
fn nvcounter_rollover1_then_rollover2() {
    let mut flash = fake_counter(3, 4096);
    flash.low_full = true;
    let mut c = FlashCounter::new(vec![0], flash);
    c.set_client();
    c.task = Some(Task::Increment);
    assert_eq!(c.write_done(vec![0], ReturnCode::SUCCESS), Some(CounterEvent::IncrementDone(ReturnCode::SUCCESS)));
    assert_eq!(c.flash.erased, vec![0]);
    assert_eq!(c.task, None);
}

#[test]
fn nvcounter_value_encoding() {
    assert_eq!(counter_value(0, 0), 0);
    assert_eq!(counter_value(0, 4096), 4096);
    assert_eq!(counter_value(1, 4096), 4097);
    assert_eq!(counter_value(1, 0), 4097);
    assert_eq!(counter_value(2, 0), 4097);
    assert_eq!(counter_value(4096, 4096), 8394752);
    assert_eq!(increment_step(2, 5, true), IncrementStep::WriteLow);
    assert_eq!(increment_step(3, 5, true), IncrementStep::EraseLow);
    assert_eq!(increment_step(3, 0, true), IncrementStep::WriteHigh);
    assert_eq!(increment_step(3, 0, false), IncrementStep::AwaitRollover3);
}

#[test]
fn gpio_pin_operations() {
    let mut port = PortRegisters {
        data_in: 0b100,
        data_out: 0,
        output_enable: 0,
        interrupt_enable: 0,
        interrupt_type: 0,
        interrupt_pol: 0,
        interrupt_status: 0b100,
    };
    let mut pin = GPIOPin::new(GpioPort::Port0, Pin::P2);
    assert!(pin.read(&port));
    pin.set(&mut port);
    assert_eq!(port.data_out, 0b100);
    assert!(!pin.toggle(&mut port));
    assert!(pin.toggle(&mut port));
    pin.clear(&mut port);
    assert_eq!(port.data_out, 0);
    pin.make_output(&mut port);
    assert!(pin.is_output(&port));
    pin.enable_interrupts(InterruptEdge::EitherEdge, &mut port);
    assert_eq!(port.interrupt_pol & 0b100, 0);
    assert!(pin.is_pending(&port));
    assert!(!pin.handle_interrupt(&mut port));
    assert!(!pin.is_pending(&port));
    assert_eq!(port.interrupt_pol & 0b100, 0b100);
}

#[test]
fn gpio_pull_resistors_law() {
    for state in [FloatingState::PullUp, FloatingState::PullDown, FloatingState::PullNone] {
        assert_eq!(floating_state(set_floating_state(0xffff_ffff, state)), state);
        assert_eq!(floating_state(set_floating_state(0, state)), state);
    }
    assert_eq!(set_floating_state(0x18, FloatingState::PullUp), 0x10);
    assert_eq!(floating_state(0x18), FloatingState::PullNone);
    assert_eq!(get_pinmux_pin(SelectablePin::Diob7), Some(SelectablePin::Diob7));
    assert_eq!(get_pinmux_pin(SelectablePin::Other), None);
}

#[test]
fn interrupt_dispatch() {
    assert_eq!(interrupt_handler(131), Some(Interrupt::SpiDevice));
    assert_eq!(interrupt_handler(65), Some(Interrupt::Gpio(GpioPort::Port0, Pin::P0)));
    assert_eq!(interrupt_handler(97), Some(Interrupt::Gpio(GpioPort::Port1, Pin::P15)));
    assert_eq!(interrupt_handler(107), Some(Interrupt::KeymgrAes(107)));
    assert_eq!(interrupt_handler(12), None);
    let mut nvic = Nvic::new();
    for line in [159usize, 193, 200, 5] {
        nvic.pending[line] = true;
    }
    assert_eq!(nvic.next_pending(), Some(5));
    let (handled, unexpected) = service_pending_interrupts(&mut nvic);
    assert_eq!(handled, vec![(5, Interrupt::DcryptoReceive), (159, Interrupt::Timels(0)), (193, Interrupt::Usb)]);
    assert_eq!(unexpected, Some(200));
    for line in [5usize, 159, 193] {
        assert!(!nvic.pending[line]);
        assert!(nvic.enabled[line]);
    }
    assert!(nvic.pending[200]);
    assert!(!nvic.enabled[200]);
    assert_eq!(nvic.next_pending(), Some(200));
}

#[test]
fn chip_services_until_nothing_pending() {
    let mut nvic = Nvic::new();
    nvic.pending[66] = true;
    nvic.pending[81] = true;
    let (handled, unexpected) = service_pending_interrupts(&mut nvic);
    assert_eq!(handled, vec![(66, Interrupt::Gpio(GpioPort::Port0, Pin::P1)), (81, Interrupt::Ignored)]);
    assert_eq!(unexpected, None);
    assert_eq!(nvic.next_pending(), None);
    assert!(nvic.enabled[66] && nvic.enabled[81]);
}

#[test]
fn timer_alarm() {
    let regs = TimelsRegisters { control: 0, load: 0, reload: 100, value: 40, interrupt_enable: 0 };
    let mut t = Timels::new(regs);
    assert_eq!(Freq256Khz::frequency(), 256000);
    assert_eq!(t.now(), 60);
    t.set_alarm(50, 30);
    assert_eq!(t.registers.reload, 20);
    assert_eq!(t.registers.control, 1);
    t.set_alarm(10, 5);
    assert_eq!(t.registers.load, 1);
    t.registers.value = 0;
    t.set_alarm_client();
    assert!(t.handle_interrupt());
    assert_eq!(t.now, 1);
    assert_eq!(t.registers.reload, 0);
    assert_eq!(t.disarm(), ReturnCode::SUCCESS);
}

#[test]
fn spi_device_filter_rules_partition_opcodes() {
    let mut dev = spi_device();
    dev.init(SpiDeviceConfiguration::default());
    let rules = dev.registers.passthru_filter_rule.clone();
    for opcode in 0u32..=0xff {
        let matching: Vec<u32> = rules
            .iter()
            .copied()
            .filter(|r| r & 1 == 1 && (opcode & (r >> 24)) == ((r >> 16) & 0xff))
            .collect();
        assert_eq!(matching.len(), 1, "opcode {:#x}", opcode);
        let forced = (matching[0] >> 8) & 0xff;
        let expected = if opcode < 0x08 || (0x10..0x20).contains(&opcode) || opcode >= 0x40 {
            0x03
        } else if opcode < 0x10 {
            0x0b
        } else {
            0x3b
        };
        assert_eq!(forced, expected, "opcode {:#x}", opcode);
    }
}
