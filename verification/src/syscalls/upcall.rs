//! Callbacks scheduled for processes.

use vstd::prelude::*;

verus! {

/// A callback to schedule, with its three arguments.
#[derive(Clone, Copy, PartialEq, Eq, Structural, Debug)]
pub struct Upcall {
    /// The callback that the process subscribed.
    pub callback: usize,
    /// First argument.
    pub arg0: usize,
    /// Second argument.
    pub arg1: usize,
    /// Third argument.
    pub arg2: usize,
}

} // verus!
