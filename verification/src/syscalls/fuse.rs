//! System call interface of the fuses: the device identifier.

use vstd::prelude::*;
use crate::h1::fuse::Fuse;
use crate::return_code::ReturnCode;

verus! {

/// The driver number of the fuse system calls.
pub const DRIVER_NUM: usize = 0x40050;

/// Length of the device identifier in bytes.
pub const DEV_ID_LEN: usize = 8;

/// The big-endian bytes of the device identifier.
pub open spec fn dev_id_bytes(id: u64) -> Seq<u8> {
    Seq::new(8, |i: int| ((id >> ((56 - 8 * i) as u64)) & 0xff) as u8)
}

/// Returns byte `i` of the big-endian encoding of `id`.
fn dev_id_byte(id: u64, i: usize) -> (b: u8)
    requires
        i < 8,
    ensures
        b == dev_id_bytes(id)[i as int],
{
    let shift: u64 = (56 - 8 * i) as u64;
    ((id >> shift) & 0xff) as u8
}

/// Copies the device identifier, in big-endian order, into `buf`: as many
/// of its bytes as fit. Returns `ENOMEM` when not all of them fit.
pub fn write_dev_id(buf: &mut Vec<u8>, dev_id: u64) -> (rc: ReturnCode)
    ensures
        ({
            let n = if old(buf)@.len() < DEV_ID_LEN { old(buf)@.len() as int } else { DEV_ID_LEN as int };
            &&& final(buf)@ == dev_id_bytes(dev_id).take(n) + old(buf)@.skip(n)
            &&& rc == if old(buf)@.len() < DEV_ID_LEN { ReturnCode::ENOMEM } else { ReturnCode::SUCCESS }
        }),
{
    let ghost before = buf@;
    let n = if buf.len() < DEV_ID_LEN { buf.len() } else { DEV_ID_LEN };
    let mut idx: usize = 0;
    while idx < n
        invariant
            idx <= n,
            n <= DEV_ID_LEN,
            n <= before.len(),
            buf@.len() == before.len(),
            forall|j: int| 0 <= j < idx ==> buf@[j] == dev_id_bytes(dev_id)[j],
            forall|j: int| idx <= j < before.len() ==> buf@[j] == before[j],
        decreases n - idx,
    {
        buf.set(idx, dev_id_byte(dev_id, idx));
        idx = idx + 1;
    }
    assert(buf@ =~= dev_id_bytes(dev_id).take(n as int) + before.skip(n as int));
    if n < DEV_ID_LEN {
        ReturnCode::ENOMEM
    } else {
        ReturnCode::SUCCESS
    }
}

/// The fuse system call driver.
pub struct FuseSyscall<F: Fuse> {
    /// The fuses.
    pub fuse: F,
    /// The process that issued the first command.
    pub current_user: Option<usize>,
}

impl<F: Fuse> FuseSyscall<F> {
    /// A driver over `fuse`.
    pub fn new(fuse: F) -> (s: Self)
        ensures
            s.fuse == fuse,
            s.current_user is None,
    {
        FuseSyscall { fuse, current_user: None }
    }

    /// Handles a command: 0 checks that the driver is present; 1 writes the
    /// device identifier into the process's buffer (`app` is `None` when the
    /// process's data is not available, `Some(None)` when it shared no
    /// buffer), in big-endian order.
    pub fn command(&mut self, command_num: usize, caller_id: usize, app: &mut Option<Option<Vec<u8>>>) -> (rc:
        ReturnCode)
        ensures
            final(self).fuse == old(self).fuse,
            final(self).current_user == (if old(self).current_user is None { Some(caller_id) } else { old(self).current_user }),
            command_num != 1 ==> *final(app) == *old(app),
            command_num == 0 ==> rc == ReturnCode::SUCCESS,
            command_num > 1 ==> rc == ReturnCode::ENOSUPPORT,
            command_num == 1 ==> match *old(app) {
                None => rc == ReturnCode::ENOMEM && *final(app) is None,
                Some(None) => rc == ReturnCode::SUCCESS && *final(app) == Some(None::<Vec<u8>>),
                Some(Some(b0)) => {
                    let id = old(self).fuse.spec_dev_id();
                    let n = if b0@.len() < DEV_ID_LEN { b0@.len() as int } else { DEV_ID_LEN as int };
                    &&& *final(app) matches Some(Some(b1)) && b1@ == dev_id_bytes(id).take(n) + b0@.skip(n)
                    &&& rc == if b0@.len() < DEV_ID_LEN { ReturnCode::ENOMEM } else { ReturnCode::SUCCESS }
                },
            },
    {
        if self.current_user.is_none() {
            self.current_user = Some(caller_id);
        }
        match command_num {
            0 => ReturnCode::SUCCESS,
            1 => {
                let mut taken: Option<Option<Vec<u8>>> = None;
                std::mem::swap(&mut taken, app);
                match taken {
                    None => {
                        *app = None;
                        ReturnCode::ENOMEM
                    },
                    Some(None) => {
                        *app = Some(None);
                        ReturnCode::SUCCESS
                    },
                    Some(Some(mut buf)) => {
                        let dev_id = self.fuse.get_dev_id();
                        let rc = write_dev_id(&mut buf, dev_id);
                        *app = Some(Some(buf));
                        rc
                    },
                }
            },
            _ => ReturnCode::ENOSUPPORT,
        }
    }

    /// Subscriptions are not supported.
    pub fn subscribe(&self, subscribe_num: usize) -> (rc: ReturnCode)
        ensures
            rc == ReturnCode::ENOSUPPORT,
    {
        ReturnCode::ENOSUPPORT
    }

    /// Shares the buffer for the device identifier (number 0).
    pub fn allow(&self, minor_num: usize, slice: Option<Vec<u8>>, app: &mut Option<Option<Vec<u8>>>) -> (rc: ReturnCode)
        ensures
            minor_num != 0 ==> rc == ReturnCode::ENOSUPPORT && *final(app) == *old(app),
            minor_num == 0 && *old(app) is None ==> rc == ReturnCode::FAIL && *final(app) is None,
            minor_num == 0 && *old(app) is Some ==> rc == ReturnCode::SUCCESS && *final(app) == Some(slice),
    {
        if minor_num != 0 {
            return ReturnCode::ENOSUPPORT;
        }
        if app.is_none() {
            return ReturnCode::FAIL;
        }
        *app = Some(slice);
        ReturnCode::SUCCESS
    }
}

} // verus!
