//! Return codes of the kernel's system calls and drivers.

use vstd::prelude::*;

verus! {

/// The result of a driver operation, as the kernel reports it to processes.
#[derive(Clone, Copy, PartialEq, Eq, Structural, Debug)]
pub enum ReturnCode {
    /// Success, with a value.
    SuccessWithValue { value: usize },
    /// Operation completed successfully.
    SUCCESS,
    /// Generic failure condition.
    FAIL,
    /// Underlying system is busy; retry.
    EBUSY,
    /// The state requested is already set.
    EALREADY,
    /// The component is powered down.
    EOFF,
    /// Reservation required before use.
    ERESERVE,
    /// An invalid parameter was passed.
    EINVAL,
    /// Parameter passed was too large.
    ESIZE,
    /// Operation cancelled by a call.
    ECANCEL,
    /// Memory required not available.
    ENOMEM,
    /// Operation or command is unsupported.
    ENOSUPPORT,
    /// Device does not exist.
    ENODEVICE,
    /// Device is not physically installed.
    EUNINSTALLED,
    /// Packet transmission not acknowledged.
    ENOACK,
}

impl ReturnCode {
    /// The number that a process sees for this code: the value for
    /// `SuccessWithValue` (reinterpreted as signed), 0 for `SUCCESS` and the
    /// negated error number for the errors.
    pub open spec fn spec_number(self) -> isize {
        match self {
            ReturnCode::SuccessWithValue { value } => value as isize,
            ReturnCode::SUCCESS => 0isize,
            ReturnCode::FAIL => -1isize,
            ReturnCode::EBUSY => -2isize,
            ReturnCode::EALREADY => -3isize,
            ReturnCode::EOFF => -4isize,
            ReturnCode::ERESERVE => -5isize,
            ReturnCode::EINVAL => -6isize,
            ReturnCode::ESIZE => -7isize,
            ReturnCode::ECANCEL => -8isize,
            ReturnCode::ENOMEM => -9isize,
            ReturnCode::ENOSUPPORT => -10isize,
            ReturnCode::ENODEVICE => -11isize,
            ReturnCode::EUNINSTALLED => -12isize,
            ReturnCode::ENOACK => -13isize,
        }
    }

    /// Returns the number that a process sees for this code.
    pub fn number(self) -> (n: isize)
        ensures
            n == self.spec_number(),
    {
        match self {
            ReturnCode::SuccessWithValue { value } => value as isize,
            ReturnCode::SUCCESS => 0,
            ReturnCode::FAIL => -1,
            ReturnCode::EBUSY => -2,
            ReturnCode::EALREADY => -3,
            ReturnCode::EOFF => -4,
            ReturnCode::ERESERVE => -5,
            ReturnCode::EINVAL => -6,
            ReturnCode::ESIZE => -7,
            ReturnCode::ECANCEL => -8,
            ReturnCode::ENOMEM => -9,
            ReturnCode::ENOSUPPORT => -10,
            ReturnCode::ENODEVICE => -11,
            ReturnCode::EUNINSTALLED => -12,
            ReturnCode::ENOACK => -13,
        }
    }

    /// Whether the code is one of the errors (neither `SUCCESS` nor
    /// `SuccessWithValue`).
    pub open spec fn is_error(self) -> bool {
        !(self is SUCCESS) && !(self is SuccessWithValue)
    }
}

} // verus!
