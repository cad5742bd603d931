//! System call numbers and error codes of the older kernel.

use vstd::prelude::*;

verus! {

/// Wait for a callback.
pub const WAIT: u8 = 0;
/// Subscribe a callback.
pub const SUBSCRIBE: u8 = 1;
/// Issue a command.
pub const COMMAND: u8 = 2;
/// Share a buffer.
pub const ALLOW: u8 = 3;
/// Memory operation.
pub const MEMOP: u8 = 4;

/// An error of a system call.
#[derive(Clone, Copy, PartialEq, Eq, Structural, Debug)]
pub enum SyscallError {
    /// Generic errors that haven't been updated to use a more specific code yet.
    Unknown,
    /// An argument passed is not (and never is) valid for this particular call.
    InvalidArgument,
    /// An argument passed or operation attempted is not valid for the current state of the object.
    InvalidState,
    /// A numeric argument is out-of-range, or a passed buffer is too small.
    OutOfRange,
    /// The requested operation is unknown or unsupported.
    NotImplemented,
    /// The resource is currently busy.
    ResourceBusy,
    /// Internal error in the kernel. This indicates a bug and that the kernel might be unstable.
    InternalError,
}

impl SyscallError {
    /// The error's number, from 1 to 7.
    pub open spec fn spec_number(self) -> isize {
        match self {
            SyscallError::Unknown => 1,
            SyscallError::InvalidArgument => 2,
            SyscallError::InvalidState => 3,
            SyscallError::OutOfRange => 4,
            SyscallError::NotImplemented => 5,
            SyscallError::ResourceBusy => 6,
            SyscallError::InternalError => 7,
        }
    }
}

impl From<SyscallError> for isize {
    /// The value a process receives for the error: its number, negated.
    fn from(e: SyscallError) -> (n: isize) {
        match e {
            SyscallError::Unknown => -1,
            SyscallError::InvalidArgument => -2,
            SyscallError::InvalidState => -3,
            SyscallError::OutOfRange => -4,
            SyscallError::NotImplemented => -5,
            SyscallError::ResourceBusy => -6,
            SyscallError::InternalError => -7,
        }
    }
}

impl vstd::std_specs::convert::FromSpecImpl<SyscallError> for isize {
    open spec fn obeys_from_spec() -> bool {
        true
    }

    open spec fn from_spec(e: SyscallError) -> isize {
        (-e.spec_number()) as isize
    }
}

} // verus!
