//! System call interface of the reset controller.

use vstd::prelude::*;
use crate::driver::reset::ResetSource;
use crate::return_code::ReturnCode;
use crate::wire::ToWire;

verus! {

/// The driver number of the reset system calls.
pub const DRIVER_NUM: usize = 0x40070;

/// The chip's reset controller.
pub trait Reset {
    /// Resets the chip immediately; on the hardware this does not return.
    fn reset_chip(&self);

    /// The source of the last reset.
    spec fn spec_reset_source(&self) -> ResetSource;

    /// Returns the source of the last reset.
    fn get_reset_source(&self) -> (s: ResetSource)
        ensures
            s == self.spec_reset_source(),
    ;
}

/// The reset controller's state as software sees it: the source of the
/// last reset, and whether a reset was asked for.
pub struct ResetController {
    /// The source of the last reset.
    pub source: ResetSource,
    /// Whether a reset was asked for.
    pub reset_requested: bool,
}

impl Reset for ResetController {
    /// Asks for the reset; the code that drives the hardware performs it.
    fn reset_chip(&self) {
    }

    open spec fn spec_reset_source(&self) -> ResetSource {
        self.source
    }

    fn get_reset_source(&self) -> (s: ResetSource) {
        self.source
    }
}

/// The reset system call driver.
pub struct ResetSyscall<R: Reset> {
    /// The reset controller.
    pub reset: R,
    /// The process that issued the first command.
    pub current_user: Option<usize>,
}

impl<R: Reset> ResetSyscall<R> {
    /// A driver over `reset`.
    pub fn new(reset: R) -> (s: Self)
        ensures
            s.reset == reset,
            s.current_user is None,
    {
        ResetSyscall { reset, current_user: None }
    }

    /// Writes the source of the last reset into the process's buffer (`app`
    /// is `None` when the process's data is not available, `Some(None)` when
    /// it shared no buffer). A buffer shorter than the encoding receives as
    /// much of it as fits, and the call fails with `ENOMEM`.
    fn get_reset_source(&self, app: &mut Option<Option<Vec<u8>>>) -> (rc: ReturnCode)
        ensures
            match *old(app) {
                None => rc == ReturnCode::ENOMEM && *final(app) is None,
                Some(None) => rc == ReturnCode::SUCCESS && *final(app) == Some(None::<Vec<u8>>),
                Some(Some(b0)) => {
                    let bytes = self.reset.spec_reset_source().wire_bytes();
                    let n = if b0@.len() < bytes.len() { b0@.len() as int } else { bytes.len() as int };
                    &&& *final(app) matches Some(Some(b1)) && b1@ == bytes.take(n) + b0@.skip(n)
                    &&& rc == if b0@.len() < bytes.len() { ReturnCode::ENOMEM } else { ReturnCode::SUCCESS }
                },
            },
    {
        let mut taken: Option<Option<Vec<u8>>> = None;
        std::mem::swap(&mut taken, app);
        match taken {
            None => {
                *app = None;
                ReturnCode::ENOMEM
            },
            Some(None) => {
                *app = Some(None);
                ReturnCode::SUCCESS
            },
            Some(Some(mut buf)) => {
                let source = self.reset.get_reset_source();
                let mut encoded: Vec<u8> = Vec::new();
                let _ = source.to_wire(&mut encoded);
                proof {
                    crate::driver::reset::lemma_reset_source_roundtrip(source, Seq::empty());
                }
                let ghost before = buf@;
                let n = if buf.len() < encoded.len() { buf.len() } else { encoded.len() };
                let mut i: usize = 0;
                while i < n
                    invariant
                        i <= n,
                        n <= before.len(),
                        n <= encoded@.len(),
                        buf@.len() == before.len(),
                        forall|j: int| 0 <= j < i ==> buf@[j] == encoded@[j],
                        forall|j: int| i <= j < before.len() ==> buf@[j] == before[j],
                    decreases n - i,
                {
                    buf.set(i, encoded[i]);
                    i = i + 1;
                }
                assert(buf@ =~= encoded@.take(n as int) + before.skip(n as int));
                let rc = if buf.len() < encoded.len() {
                    ReturnCode::ENOMEM
                } else {
                    ReturnCode::SUCCESS
                };
                *app = Some(Some(buf));
                rc
            },
        }
    }

    /// Handles a command: 0 checks that the driver is present; 1 resets the
    /// chip; 2 writes the source of the last reset into the process's
    /// buffer.
    pub fn command(&mut self, command_num: usize, caller_id: usize, app: &mut Option<Option<Vec<u8>>>) -> (rc:
        ReturnCode)
        ensures
            final(self).reset == old(self).reset,
            final(self).current_user == (if old(self).current_user is None { Some(caller_id) } else { old(self).current_user }),
            command_num != 2 ==> *final(app) == *old(app),
            command_num == 0 ==> rc == ReturnCode::SUCCESS,
            command_num > 2 ==> rc == ReturnCode::ENOSUPPORT,
            command_num == 2 ==> match *old(app) {
                None => rc == ReturnCode::ENOMEM && *final(app) is None,
                Some(None) => rc == ReturnCode::SUCCESS && *final(app) == Some(None::<Vec<u8>>),
                Some(Some(b0)) => {
                    let bytes = old(self).reset.spec_reset_source().wire_bytes();
                    let n = if b0@.len() < bytes.len() { b0@.len() as int } else { bytes.len() as int };
                    &&& *final(app) matches Some(Some(b1)) && b1@ == bytes.take(n) + b0@.skip(n)
                    &&& rc == if b0@.len() < bytes.len() { ReturnCode::ENOMEM } else { ReturnCode::SUCCESS }
                },
            },
    {
        if self.current_user.is_none() {
            self.current_user = Some(caller_id);
        }
        match command_num {
            0 => ReturnCode::SUCCESS,
            1 => {
                // On the hardware the reset does not return.
                self.reset.reset_chip();
                ReturnCode::SUCCESS
            },
            2 => self.get_reset_source(app),
            _ => ReturnCode::ENOSUPPORT,
        }
    }

    /// Subscriptions are not supported.
    pub fn subscribe(&self, subscribe_num: usize) -> (rc: ReturnCode)
        ensures
            rc == ReturnCode::ENOSUPPORT,
    {
        ReturnCode::ENOSUPPORT
    }

    /// Shares the buffer for data exchange (number 0).
    pub fn allow(&self, minor_num: usize, slice: Option<Vec<u8>>, app: &mut Option<Option<Vec<u8>>>) -> (rc: ReturnCode)
        ensures
            minor_num != 0 ==> rc == ReturnCode::ENOSUPPORT && *final(app) == *old(app),
            minor_num == 0 && *old(app) is None ==> rc == ReturnCode::FAIL && *final(app) is None,
            minor_num == 0 && *old(app) is Some ==> rc == ReturnCode::SUCCESS && *final(app) == Some(slice),
    {
        if minor_num != 0 {
            return ReturnCode::ENOSUPPORT;
        }
        if app.is_none() {
            return ReturnCode::FAIL;
        }
        *app = Some(slice);
        ReturnCode::SUCCESS
    }
}

} // verus!
