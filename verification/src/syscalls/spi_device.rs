//! System call interface of the SPI device.
//!
//! The kernel keeps, per process, the buffers the process shared and the
//! callbacks it subscribed (`AppData`). Each entry point here receives the
//! calling process's data (`None` when the kernel could not provide it),
//! decides, drives the device and returns what the process is told: a
//! return code, and the callbacks to schedule.

use vstd::prelude::*;
use crate::driver::{AddressConfig, HandlerMode};
use crate::h1::spi_device::{
    address_mode_of, addresses_configured, padded, pending_cmd_bytes, with_address_mode,
    SpiDeviceHardware, SpiDeviceRegisters, GENERIC_RAM_LEN, JEDEC_ID_LEN, SFDP_LEN,
};
use crate::protocol::flash::{AddressMode, OpCode};
use crate::return_code::ReturnCode;
use crate::syscalls::upcall::Upcall;
use crate::wire::{FromWireError, WireEnum};

verus! {

/// The driver number of the SPI device system calls.
pub const DRIVER_NUM: usize = 0x40030;

/// What the kernel keeps for one process.
pub struct AppData {
    /// The buffer with data to send.
    pub tx_buffer: Option<Vec<u8>>,
    /// The buffer that receives data.
    pub rx_buffer: Option<Vec<u8>>,
    /// Called with the number of received bytes, the BUSY bit and the write
    /// enable latch.
    pub data_received_callback: Option<usize>,
    /// How the address mode commands are handled.
    pub address_mode_handling: HandlerMode,
    /// Called with the new address mode.
    pub address_mode_changed_callback: Option<usize>,
}

impl AppData {
    /// No buffers, no callbacks, address mode commands not handled.
    pub fn new() -> (a: AppData)
        ensures
            a.tx_buffer is None,
            a.rx_buffer is None,
            a.data_received_callback is None,
            a.address_mode_handling == HandlerMode::Disabled,
            a.address_mode_changed_callback is None,
    {
        AppData {
            tx_buffer: None,
            rx_buffer: None,
            data_received_callback: None,
            address_mode_handling: HandlerMode::Disabled,
            address_mode_changed_callback: None,
        }
    }
}

/// The device with the BUSY bit and the write enable latch cleared as asked.
pub open spec fn cleared(d: SpiDeviceHardware, clear_busy: bool, clear_write_enable: bool) -> SpiDeviceHardware {
    SpiDeviceHardware {
        registers: SpiDeviceRegisters {
            busy: d.registers.busy && !clear_busy,
            write_enable: d.registers.write_enable && !clear_write_enable,
            ..d.registers
        },
        ..d
    }
}

/// The effect of handling a received SPI command in the kernel: the
/// device afterwards, the handler mode that results and the callback, if
/// any. `None` stands for an op code that does not exist.
pub open spec fn spi_cmd_effect(
    d: SpiDeviceHardware,
    handling: HandlerMode,
    changed_callback: Option<usize>,
    spi_cmd: u8,
    spi_data: Option<u8>,
) -> Option<(SpiDeviceHardware, HandlerMode, Option<Upcall>)> {
    match OpCode::spec_from_wire_value(spi_cmd) {
        None => None,
        Some(op) => Some(
            if op == OpCode::Enter4ByteAddressMode || op == OpCode::Exit4ByteAddressMode {
                if handling == HandlerMode::KernelSpace {
                    let mode = if op == OpCode::Enter4ByteAddressMode {
                        AddressMode::FourByte
                    } else {
                        AddressMode::ThreeByte
                    };
                    let changed = address_mode_of(d.registers.eeprom_ctrl) != mode;
                    let ctrl = if changed {
                        with_address_mode(d.registers.eeprom_ctrl, mode)
                    } else {
                        d.registers.eeprom_ctrl
                    };
                    let d1 = SpiDeviceHardware {
                        registers: SpiDeviceRegisters {
                            eeprom_ctrl: ctrl,
                            busy: false,
                            ..d.registers
                        },
                        ..d
                    };
                    let up = if changed && changed_callback is Some {
                        Some(
                            Upcall {
                                callback: changed_callback->0,
                                arg0: mode.spec_number(),
                                arg1: 0,
                                arg2: 0,
                            },
                        )
                    } else {
                        None
                    };
                    (d1, HandlerMode::KernelSpace, up)
                } else {
                    (d, handling, None)
                }
            } else if op == OpCode::WriteStatusRegister {
                match spi_data {
                    Some(data) => {
                        let r = d.registers;
                        let d1 = if r.write_enable {
                            SpiDeviceHardware {
                                registers: SpiDeviceRegisters {
                                    eeprom_status: data,
                                    write_enable: false,
                                    busy: false,
                                    ..r
                                },
                                ..d
                            }
                        } else {
                            SpiDeviceHardware {
                                registers: SpiDeviceRegisters { busy: false, ..r },
                                ..d
                            }
                        };
                        (d1, HandlerMode::KernelSpace, None)
                    },
                    None => (d, HandlerMode::UserSpace, None),
                }
            } else {
                (d, HandlerMode::UserSpace, None)
            },
        ),
    }
}

/// Byte `i` of the first `n` bytes of `s`, if there is one.
pub open spec fn byte_at(s: Seq<u8>, n: nat, i: int) -> Option<u8> {
    if i < n {
        Some(s[i])
    } else {
        None
    }
}

/// The device after the read pointer moved to `cmd_addr_fifo`, and the
/// bytes that the host sent.
pub open spec fn after_read(d: SpiDeviceHardware, cmd_addr_fifo: Option<u32>) -> (SpiDeviceHardware, Seq<u8>) {
    match cmd_addr_fifo {
        Some(w) => (
            SpiDeviceHardware {
                registers: SpiDeviceRegisters { cmd_mem_rptr: w, ..d.registers },
                ..d
            },
            pending_cmd_bytes(d.registers.eeprom_cmd_buf@, d.registers.cmd_mem_rptr, w),
        ),
        None => (d, Seq::empty()),
    }
}

/// What handling the notification of received data does for a process
/// with data `a`: the device afterwards, the new contents of the receive
/// buffer, and the callbacks to schedule, in order.
pub open spec fn data_available_spec(
    d: SpiDeviceHardware,
    a: AppData,
    is_busy: bool,
    is_write_enabled: bool,
    cmd_addr_fifo: Option<u32>,
) -> (SpiDeviceHardware, Option<Seq<u8>>, Seq<Upcall>) {
    let (d1, pending) = after_read(d, cmd_addr_fifo);
    let cap: nat = match a.rx_buffer {
        Some(rx) => rx@.len(),
        None => 2,
    };
    let n: nat = if cap < pending.len() { cap } else { pending.len() };
    let rx_len: nat = if a.rx_buffer is Some { n } else { 0 };
    let new_rx = match a.rx_buffer {
        Some(rx) => Some(pending.take(n as int) + rx@.skip(n as int)),
        None => None,
    };
    let (d2, mode, up) = match byte_at(pending, n, 0) {
        None => (d1, HandlerMode::UserSpace, None),
        Some(c) => match spi_cmd_effect(
            d1,
            a.address_mode_handling,
            a.address_mode_changed_callback,
            c,
            byte_at(pending, n, 1),
        ) {
            None => (d1, HandlerMode::UserSpace, None),
            Some(t) => t,
        },
    };
    let first: Seq<Upcall> = match up {
        Some(u) => seq![u],
        None => Seq::empty(),
    };
    let second: Seq<Upcall> = if mode == HandlerMode::UserSpace && a.data_received_callback is Some {
        seq![
            Upcall {
                callback: a.data_received_callback->0,
                arg0: rx_len as usize,
                arg1: if is_busy { 1 } else { 0 },
                arg2: if is_write_enabled { 1 } else { 0 },
            },
        ]
    } else {
        Seq::empty()
    };
    (d2, new_rx, first + second)
}

/// What `send_data` does: with a transmit buffer that fits, the device
/// sends it and the flags are cleared as asked.
pub open spec fn send_data_post(
    d0: SpiDeviceHardware,
    d1: SpiDeviceHardware,
    app: Option<AppData>,
    clear_busy: bool,
    clear_write_enable: bool,
    rc: ReturnCode,
) -> bool {
    match app {
        Some(a) => match a.tx_buffer {
            Some(tx) => if tx@.len() > GENERIC_RAM_LEN {
                rc == ReturnCode::ESIZE && d1 == d0
            } else {
                &&& rc == ReturnCode::SUCCESS
                &&& d1 == cleared(
                    SpiDeviceHardware {
                        registers: SpiDeviceRegisters {
                            generic_ram: d1.registers.generic_ram,
                            ..d0.registers
                        },
                        ..d0
                    },
                    clear_busy,
                    clear_write_enable,
                )
                &&& d1.registers.generic_ram@ == padded(tx@, GENERIC_RAM_LEN as nat)
            },
            None => rc == ReturnCode::ENOMEM && d1 == d0,
        },
        None => rc == ReturnCode::ENOMEM && d1 == d0,
    }
}

/// What setting the JEDEC ID (`jedec`) or the SFDP from the transmit buffer
/// does.
pub open spec fn id_bytes_post(
    d0: SpiDeviceHardware,
    d1: SpiDeviceHardware,
    app: Option<AppData>,
    jedec: bool,
    rc: ReturnCode,
) -> bool {
    let cap = if jedec { JEDEC_ID_LEN } else { SFDP_LEN };
    match app {
        Some(a) => match a.tx_buffer {
            Some(tx) => if tx@.len() > cap {
                rc == ReturnCode::ESIZE && d1 == d0
            } else {
                &&& rc == ReturnCode::SUCCESS
                &&& if jedec {
                    &&& d1 == (SpiDeviceHardware {
                        registers: SpiDeviceRegisters {
                            jedec_id: d1.registers.jedec_id,
                            ..d0.registers
                        },
                        ..d0
                    })
                    &&& d1.registers.jedec_id@ == padded(tx@, JEDEC_ID_LEN as nat)
                } else {
                    &&& d1 == (SpiDeviceHardware {
                        registers: SpiDeviceRegisters { sfdp: d1.registers.sfdp, ..d0.registers },
                        ..d0
                    })
                    &&& d1.registers.sfdp@ == padded(tx@, SFDP_LEN as nat)
                }
            },
            None => rc == ReturnCode::ENOMEM && d1 == d0,
        },
        None => rc == ReturnCode::ENOMEM && d1 == d0,
    }
}

/// What configuring the addresses from the transmit buffer does: an
/// `AddressConfig` that does not parse is refused with `EINVAL`.
pub open spec fn configure_post(
    d0: SpiDeviceHardware,
    d1: SpiDeviceHardware,
    app: Option<AppData>,
    rc: ReturnCode,
) -> bool {
    match app {
        Some(a) => match a.tx_buffer {
            Some(tx) => match AddressConfig::parse(tx@) {
                Ok((config, _)) => rc == ReturnCode::SUCCESS && addresses_configured(d0, d1, config),
                Err(_) => rc == ReturnCode::EINVAL && d1 == d0,
            },
            None => rc == ReturnCode::ENOMEM && d1 == d0,
        },
        None => rc == ReturnCode::ENOMEM && d1 == d0,
    }
}

/// What a command does to the device and the process's data, and what it
/// returns.
pub open spec fn command_post(
    d0: SpiDeviceHardware,
    d1: SpiDeviceHardware,
    app0: Option<AppData>,
    app1: Option<AppData>,
    command_num: usize,
    arg1: usize,
    arg2: usize,
    rc: ReturnCode,
) -> bool {
    if command_num == 0 {
        rc == ReturnCode::SUCCESS && d1 == d0
    } else if command_num == 1 {
        send_data_post(d0, d1, app0, arg1 != 0, arg2 != 0, rc)
    } else if command_num == 2 {
        if app0 is Some {
            rc == ReturnCode::SUCCESS && d1 == cleared(d0, arg1 != 0, arg2 != 0)
        } else {
            rc == ReturnCode::ENOMEM && d1 == d0
        }
    } else if command_num == 3 {
        if arg1 > 1 {
            rc == ReturnCode::EINVAL && d1 == d0
        } else if app0 is Some {
            let mode = if arg1 == 0 { AddressMode::ThreeByte } else { AddressMode::FourByte };
            &&& rc == ReturnCode::SUCCESS
            &&& d1 == (SpiDeviceHardware {
                registers: SpiDeviceRegisters {
                    eeprom_ctrl: with_address_mode(d0.registers.eeprom_ctrl, mode),
                    ..d0.registers
                },
                ..d0
            })
        } else {
            rc == ReturnCode::ENOMEM && d1 == d0
        }
    } else if command_num == 4 {
        d1 == d0 && if app0 is Some {
            rc == (ReturnCode::SuccessWithValue {
                value: address_mode_of(d0.registers.eeprom_ctrl).spec_number(),
            })
        } else {
            rc == ReturnCode::ENOMEM
        }
    } else if command_num == 5 {
        d1 == d0 && if arg1 > 2 {
            rc == ReturnCode::EINVAL && app1 == app0
        } else {
            match app0 {
                Some(a) => rc == ReturnCode::SUCCESS && (app1 matches Some(b) && b == (AppData {
                    address_mode_handling: b.address_mode_handling,
                    ..a
                }) && b.address_mode_handling.spec_number() == arg1),
                None => rc == ReturnCode::ENOMEM && app1 is None,
            }
        }
    } else if command_num == 6 {
        id_bytes_post(d0, d1, app0, true, rc)
    } else if command_num == 7 {
        id_bytes_post(d0, d1, app0, false, rc)
    } else if command_num == 8 {
        configure_post(d0, d1, app0, rc)
    } else {
        rc == ReturnCode::ENOSUPPORT && d1 == d0
    }
}

/// The SPI device system call driver.
pub struct SpiDeviceSyscall {
    /// The device.
    pub device: SpiDeviceHardware,
    /// The process that receives the device's notifications: the first one
    /// that issued a command.
    pub current_user: Option<usize>,
}

impl SpiDeviceSyscall {
    /// A driver over `device`, with no current user yet.
    pub fn new(device: SpiDeviceHardware) -> (s: SpiDeviceSyscall)
        ensures
            s.device == device,
            s.current_user is None,
    {
        SpiDeviceSyscall { device, current_user: None }
    }

    /// Sends the transmit buffer to the SPI host, then clears the write
    /// enable latch and the BUSY bit as asked.
    fn send_data(&mut self, app: &Option<AppData>, clear_busy: bool, clear_write_enable: bool) -> (rc:
        ReturnCode)
        requires
            old(self).device.registers.well_formed(),
        ensures
            final(self).device.registers.well_formed(),
            final(self).current_user == old(self).current_user,
            send_data_post(old(self).device, final(self).device, *app, clear_busy, clear_write_enable, rc),
    {
        match app {
            Some(a) => match &a.tx_buffer {
                Some(tx) => {
                    let return_code = self.device.put_send_data(tx.as_slice());
                    if return_code.number() < 0 {
                        return return_code;
                    }
                    if clear_write_enable {
                        self.device.clear_write_enable();
                    }
                    if clear_busy {
                        self.device.clear_busy();
                    }
                    ReturnCode::SUCCESS
                },
                None => ReturnCode::ENOMEM,
            },
            None => ReturnCode::ENOMEM,
        }
    }

    /// Clears the write enable latch and the BUSY bit as asked.
    fn clear_status(&mut self, app: &Option<AppData>, clear_busy: bool, clear_write_enable: bool) -> (rc:
        ReturnCode)
        ensures
            final(self).current_user == old(self).current_user,
            app is None ==> rc == ReturnCode::ENOMEM && final(self).device == old(self).device,
            app is Some ==> rc == ReturnCode::SUCCESS && final(self).device == cleared(
                old(self).device,
                clear_busy,
                clear_write_enable,
            ),
    {
        match app {
            Some(_) => {
                if clear_write_enable {
                    self.device.clear_write_enable();
                }
                if clear_busy {
                    self.device.clear_busy();
                }
                ReturnCode::SUCCESS
            },
            None => ReturnCode::ENOMEM,
        }
    }

    /// Handles a received SPI command in the kernel where it is one of those
    /// the kernel handles: the address mode commands when the process asked
    /// for kernel space handling, and a status register write.
    fn process_spi_cmd(&mut self, app: &AppData, spi_cmd: u8, maybe_spi_data: Option<u8>) -> (r: (
        Result<HandlerMode, FromWireError>,
        Option<Upcall>,
    ))
        ensures
            final(self).current_user == old(self).current_user,
            match spi_cmd_effect(
                old(self).device,
                app.address_mode_handling,
                app.address_mode_changed_callback,
                spi_cmd,
                maybe_spi_data,
            ) {
                None => r == (Err::<HandlerMode, FromWireError>(FromWireError::OutOfRange), None::<
                    Upcall,
                >) && final(self).device == old(self).device,
                Some((d1, mode, up)) => r == (Ok::<HandlerMode, FromWireError>(mode), up)
                    && final(self).device == d1,
            },
    {
        let op_code = match OpCode::from_wire_value(spi_cmd) {
            Some(op) => op,
            None => return (Err(FromWireError::OutOfRange), None),
        };
        match op_code {
            OpCode::Enter4ByteAddressMode | OpCode::Exit4ByteAddressMode => {
                match app.address_mode_handling {
                    HandlerMode::KernelSpace => {
                        let address_mode = match op_code {
                            OpCode::Enter4ByteAddressMode => AddressMode::FourByte,
                            _ => AddressMode::ThreeByte,
                        };
                        let mut has_address_mode_changed = false;
                        let current = self.device.get_address_mode();
                        let differs = match (current, address_mode) {
                            (AddressMode::ThreeByte, AddressMode::ThreeByte) => false,
                            (AddressMode::FourByte, AddressMode::FourByte) => false,
                            _ => true,
                        };
                        if differs {
                            self.device.set_address_mode(address_mode);
                            has_address_mode_changed = true;
                        }
                        self.device.clear_busy();
                        let mut up: Option<Upcall> = None;
                        if has_address_mode_changed {
                            if let Some(cb) = app.address_mode_changed_callback {
                                up = Some(
                                    Upcall {
                                        callback: cb,
                                        arg0: usize::from(address_mode),
                                        arg1: 0,
                                        arg2: 0,
                                    },
                                );
                            }
                        }
                        (Ok(HandlerMode::KernelSpace), up)
                    },
                    handler_mode => (Ok(handler_mode), None),
                }
            },
            OpCode::WriteStatusRegister => {
                if let Some(spi_data) = maybe_spi_data {
                    if self.device.is_write_enable_set() {
                        self.device.set_status(spi_data);
                        self.device.clear_write_enable();
                    }
                    self.device.clear_busy();
                    (Ok(HandlerMode::KernelSpace), None)
                } else {
                    (Ok(HandlerMode::UserSpace), None)
                }
            },
            _ => (Ok(HandlerMode::UserSpace), None),
        }
    }

    /// Handles the device's notification that the SPI host sent a command.
    /// The data goes into the current user's receive buffer, or, when it
    /// shared none, only its first two bytes are looked at. The command is
    /// handled in the kernel where it is one that the kernel handles;
    /// otherwise, when the process is to handle it, its data received
    /// callback is scheduled with the number of bytes in its buffer, the
    /// BUSY bit and the write enable latch.
    pub fn data_available(
        &mut self,
        is_busy: bool,
        is_write_enabled: bool,
        cmd_addr_fifo: Option<u32>,
        app: &mut Option<AppData>,
    ) -> (ups: Vec<Upcall>)
        requires
            old(self).device.registers.well_formed(),
        ensures
            final(self).device.registers.well_formed(),
            final(self).current_user == old(self).current_user,
            match (old(self).current_user, *old(app)) {
                (Some(_), Some(a)) => {
                    let out = data_available_spec(
                        old(self).device,
                        a,
                        is_busy,
                        is_write_enabled,
                        cmd_addr_fifo,
                    );
                    &&& final(self).device == out.0
                    &&& ups@ == out.2
                    &&& *final(app) matches Some(b) && b.tx_buffer == a.tx_buffer
                        && b.data_received_callback == a.data_received_callback
                        && b.address_mode_handling == a.address_mode_handling
                        && b.address_mode_changed_callback == a.address_mode_changed_callback
                        && match (b.rx_buffer, out.1) {
                        (Some(v), Some(s)) => v@ == s,
                        (None, None) => true,
                        _ => false,
                    }
                },
                _ => ups@ == Seq::<Upcall>::empty() && final(self).device == old(self).device
                    && *final(app) == *old(app),
            },
    {
        let mut ups: Vec<Upcall> = Vec::new();
        if self.current_user.is_none() {
            return ups;
        }
        let mut taken: Option<AppData> = None;
        std::mem::swap(&mut taken, app);
        let a = match taken {
            Some(a) => a,
            None => {
                *app = None;
                return ups;
            },
        };
        let ghost d0 = self.device;
        let AppData {
            tx_buffer,
            rx_buffer,
            data_received_callback,
            address_mode_handling,
            address_mode_changed_callback,
        } = a;
        let mut rx_len: usize = 0;
        let mut maybe_spi_cmd: Option<u8> = None;
        let mut maybe_spi_data: Option<u8> = None;
        let new_rx = match rx_buffer {
            Some(mut rx) => {
                rx_len = self.device.get_received_data(cmd_addr_fifo, &mut rx);
                if rx_len > 0 {
                    maybe_spi_cmd = Some(rx[0]);
                }
                if rx_len > 1 {
                    maybe_spi_data = Some(rx[1]);
                }
                Some(rx)
            },
            None => {
                // Just grab the first two bytes.
                let mut spi_cmd_buf: Vec<u8> = vec![0xff, 0xff];
                let spi_cmd_buf_len = self.device.get_received_data(cmd_addr_fifo, &mut spi_cmd_buf);
                if spi_cmd_buf_len > 0 {
                    maybe_spi_cmd = Some(spi_cmd_buf[0]);
                }
                if spi_cmd_buf_len > 1 {
                    maybe_spi_data = Some(spi_cmd_buf[1]);
                }
                None
            },
        };
        let restored = AppData {
            tx_buffer,
            rx_buffer: new_rx,
            data_received_callback,
            address_mode_handling,
            address_mode_changed_callback,
        };

        // Handle some special op codes straight in kernel space.
        let mut user_space = true;
        if let Some(spi_cmd) = maybe_spi_cmd {
            let (res, up) = self.process_spi_cmd(&restored, spi_cmd, maybe_spi_data);
            if let Some(u) = up {
                ups.push(u);
            }
            user_space = match res {
                Ok(HandlerMode::UserSpace) => true,
                Ok(_) => false,
                Err(_) => true,
            };
        }
        if user_space {
            if let Some(cb) = restored.data_received_callback {
                ups.push(
                    Upcall {
                        callback: cb,
                        arg0: rx_len,
                        arg1: if is_busy {
                            1
                        } else {
                            0
                        },
                        arg2: if is_write_enabled {
                            1
                        } else {
                            0
                        },
                    },
                );
            }
        }
        *app = Some(restored);
        ups
    }

    /// Stores `data` from the transmit buffer into the JEDEC ID (`jedec` true)
    /// or the SFDP (`jedec` false).
    fn set_id_bytes(&mut self, app: &Option<AppData>, jedec: bool) -> (rc: ReturnCode)
        requires
            old(self).device.registers.well_formed(),
        ensures
            final(self).device.registers.well_formed(),
            final(self).current_user == old(self).current_user,
            id_bytes_post(old(self).device, final(self).device, *app, jedec, rc),
    {
        match app {
            Some(a) => match &a.tx_buffer {
                Some(tx) => if jedec {
                    self.device.set_jedec_id(tx.as_slice())
                } else {
                    self.device.set_sfdp(tx.as_slice())
                },
                None => ReturnCode::ENOMEM,
            },
            None => ReturnCode::ENOMEM,
        }
    }

    /// Configures the device's addresses from the `AddressConfig` at the
    /// start of the transmit buffer.
    fn configure_addresses(&mut self, app: &Option<AppData>) -> (rc: ReturnCode)
        requires
            old(self).device.registers.well_formed(),
        ensures
            final(self).device.registers.well_formed(),
            final(self).current_user == old(self).current_user,
            configure_post(old(self).device, final(self).device, *app, rc),
    {
        match app {
            Some(a) => match &a.tx_buffer {
                Some(tx) => {
                    let mut r: &[u8] = tx.as_slice();
                    match AddressConfig::from_wire(&mut r) {
                        Ok(config) => {
                            self.device.configure_addresses(config);
                            ReturnCode::SUCCESS
                        },
                        Err(_) => ReturnCode::EINVAL,
                    }
                },
                None => ReturnCode::ENOMEM,
            },
            None => ReturnCode::ENOMEM,
        }
    }

    /// Handles a command of a process. The first process that issues a
    /// command becomes the current user, which receives the device's
    /// notifications. The commands:
    /// 0 checks that the driver is present;
    /// 1 sends the transmit buffer, then clears the BUSY bit when `arg1` is
    /// not 0 and the write enable latch when `arg2` is not 0;
    /// 2 only clears them so;
    /// 3 sets the address mode `arg1`;
    /// 4 returns the address mode;
    /// 5 sets how the address mode commands are handled to `arg1`;
    /// 6 sets the JEDEC ID and 7 the SFDP from the transmit buffer;
    /// 8 configures the addresses from the transmit buffer.
    pub fn command(
        &mut self,
        command_num: usize,
        arg1: usize,
        arg2: usize,
        caller_id: usize,
        app: &mut Option<AppData>,
    ) -> (rc: ReturnCode)
        requires
            old(self).device.registers.well_formed(),
        ensures
            final(self).device.registers.well_formed(),
            final(self).current_user == (if old(self).current_user is None {
                Some(caller_id)
            } else {
                old(self).current_user
            }),
            command_num != 5 ==> *final(app) == *old(app),
            command_post(old(self).device, final(self).device, *old(app), *final(app), command_num, arg1, arg2, rc),
    {
        if self.current_user.is_none() {
            self.current_user = Some(caller_id);
        }
        match command_num {
            0 => ReturnCode::SUCCESS,
            1 => self.send_data(app, arg1 != 0, arg2 != 0),
            2 => self.clear_status(app, arg1 != 0, arg2 != 0),
            3 => {
                let address_mode = match AddressMode::try_from(arg1) {
                    Ok(val) => val,
                    Err(_) => return ReturnCode::EINVAL,
                };
                match app {
                    Some(_) => {
                        self.device.set_address_mode(address_mode);
                        ReturnCode::SUCCESS
                    },
                    None => ReturnCode::ENOMEM,
                }
            },
            4 => match app {
                Some(_) => ReturnCode::SuccessWithValue {
                    value: usize::from(self.device.get_address_mode()),
                },
                None => ReturnCode::ENOMEM,
            },
            5 => {
                let handler_mode = match HandlerMode::try_from(arg1) {
                    Ok(val) => val,
                    Err(_) => return ReturnCode::EINVAL,
                };
                let mut taken: Option<AppData> = None;
                std::mem::swap(&mut taken, app);
                match taken {
                    Some(mut a) => {
                        a.address_mode_handling = handler_mode;
                        *app = Some(a);
                        ReturnCode::SUCCESS
                    },
                    None => {
                        *app = None;
                        ReturnCode::ENOMEM
                    },
                }
            },
            6 => self.set_id_bytes(app, true),
            7 => self.set_id_bytes(app, false),
            8 => self.configure_addresses(app),
            _ => ReturnCode::ENOSUPPORT,
        }
    }

    /// Subscribes a callback: 0 for data received, 1 for address mode
    /// changed. `None` unsubscribes.
    pub fn subscribe(&self, subscribe_num: usize, callback: Option<usize>, app: &mut Option<AppData>) -> (rc:
        ReturnCode)
        ensures
            subscribe_num > 1 ==> rc == ReturnCode::ENOSUPPORT && *final(app) == *old(app),
            subscribe_num <= 1 && *old(app) is None ==> rc == ReturnCode::ENOMEM && *final(app)
                is None,
            subscribe_num <= 1 && *old(app) is Some ==> rc == ReturnCode::SUCCESS && match (
                *old(app),
                *final(app),
            ) {
                (Some(a), Some(b)) => if subscribe_num == 0 {
                    b == AppData { data_received_callback: callback, ..a }
                } else {
                    b == AppData { address_mode_changed_callback: callback, ..a }
                },
                _ => false,
            },
    {
        if subscribe_num > 1 {
            return ReturnCode::ENOSUPPORT;
        }
        let mut taken: Option<AppData> = None;
        std::mem::swap(&mut taken, app);
        match taken {
            Some(mut a) => {
                if subscribe_num == 0 {
                    a.data_received_callback = callback;
                } else {
                    a.address_mode_changed_callback = callback;
                }
                *app = Some(a);
                ReturnCode::SUCCESS
            },
            None => {
                *app = None;
                ReturnCode::ENOMEM
            },
        }
    }

    /// Shares a buffer: 0 for the transmit buffer, 1 for the receive
    /// buffer. `None` withdraws it.
    pub fn allow(&self, minor_num: usize, slice: Option<Vec<u8>>, app: &mut Option<AppData>) -> (rc:
        ReturnCode)
        ensures
            minor_num > 1 ==> rc == ReturnCode::ENOSUPPORT && *final(app) == *old(app),
            minor_num <= 1 && *old(app) is None ==> rc == ReturnCode::FAIL && *final(app) is None,
            minor_num <= 1 && *old(app) is Some ==> rc == ReturnCode::SUCCESS && match (
                *old(app),
                *final(app),
            ) {
                (Some(a), Some(b)) => if minor_num == 0 {
                    b == AppData { tx_buffer: slice, ..a }
                } else {
                    b == AppData { rx_buffer: slice, ..a }
                },
                _ => false,
            },
    {
        if minor_num > 1 {
            return ReturnCode::ENOSUPPORT;
        }
        let mut taken: Option<AppData> = None;
        std::mem::swap(&mut taken, app);
        match taken {
            Some(mut a) => {
                if minor_num == 0 {
                    a.tx_buffer = slice;
                } else {
                    a.rx_buffer = slice;
                }
                *app = Some(a);
                ReturnCode::SUCCESS
            },
            None => {
                *app = None;
                ReturnCode::FAIL
            },
        }
    }
}

} // verus!
