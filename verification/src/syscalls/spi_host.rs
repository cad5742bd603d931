//! System call interface of the SPI host: the passthrough from the SPI
//! device.

use vstd::prelude::*;
use crate::h1::spi_host::SpiHost;
use crate::return_code::ReturnCode;

verus! {

/// The driver number of the SPI host system calls.
pub const DRIVER_NUM: usize = 0x40020;

/// The SPI host system call driver.
pub struct SpiHostSyscall<H: SpiHost> {
    /// The SPI host.
    pub device: H,
    /// The process that issued the first command.
    pub current_user: Option<usize>,
}

impl<H: SpiHost> SpiHostSyscall<H> {
    /// A driver over `device`.
    pub fn new(device: H) -> (s: Self)
        ensures
            s.device == device,
            s.current_user is None,
    {
        SpiHostSyscall { device, current_user: None }
    }

    /// Handles a command: 0 checks that the driver is present; 1 enables
    /// the passthrough when `arg1` is not 0 and disables it otherwise
    /// (`app_available` tells whether the process's data is available).
    pub fn command(&mut self, command_num: usize, arg1: usize, caller_id: usize, app_available: bool) -> (rc:
        ReturnCode)
        ensures
            final(self).current_user == (if old(self).current_user is None { Some(caller_id) } else { old(self).current_user }),
            command_num == 0 ==> rc == ReturnCode::SUCCESS && final(self).device == old(self).device,
            command_num == 1 && !app_available ==> rc == ReturnCode::ENOMEM && final(self).device == old(self).device,
            command_num == 1 && app_available ==> rc == ReturnCode::SUCCESS,
            command_num > 1 ==> rc == ReturnCode::ENOSUPPORT && final(self).device == old(self).device,
    {
        if self.current_user.is_none() {
            self.current_user = Some(caller_id);
        }
        match command_num {
            0 => ReturnCode::SUCCESS,
            1 => {
                if !app_available {
                    return ReturnCode::ENOMEM;
                }
                self.device.spi_device_spi_host_passthrough(arg1 != 0);
                ReturnCode::SUCCESS
            },
            _ => ReturnCode::ENOSUPPORT,
        }
    }

    /// Subscriptions are not supported.
    pub fn subscribe(&self, subscribe_num: usize) -> (rc: ReturnCode)
        ensures
            rc == ReturnCode::ENOSUPPORT,
    {
        ReturnCode::ENOSUPPORT
    }

    /// Buffers are not supported.
    pub fn allow(&self, minor_num: usize) -> (rc: ReturnCode)
        ensures
            rc == ReturnCode::ENOSUPPORT,
    {
        ReturnCode::ENOSUPPORT
    }
}

} // verus!
