//! Microsecond counters.

use vstd::prelude::*;

verus! {

/// Whether a counter runs.
#[derive(Clone, Copy, PartialEq, Eq, Structural, Debug)]
pub enum Enable {
    Disabled,
    Enabled,
}

impl Enable {
    /// The register value: 0 disabled, 1 enabled.
    pub fn value(self) -> (v: u32)
        ensures
            v == (if self == Enable::Enabled { 1u32 } else { 0u32 }),
    {
        match self {
            Enable::Disabled => 0,
            Enable::Enabled => 1,
        }
    }
}

/// A counter's registers.
#[derive(Clone, Copy, PartialEq, Eq, Structural, Debug)]
pub struct Counter {
    /// Runs the counter in wrapping mode.
    pub wrapping: Enable,
    /// Runs the counter in one shot mode.
    pub oneshot: Enable,
    /// The value where the counter stops or wraps.
    pub max_value: u32,
    /// The value that raises an interrupt on the way.
    pub programmed_value: u32,
    /// The counter's divider.
    pub divider: u32,
    /// The current value.
    pub current_value: u32,
}

/// One of the four counters.
pub struct Timeus {
    /// The counter's registers.
    pub counter: Counter,
    /// Which counter, 0 to 3.
    pub idx: usize,
}

impl Timeus {
    /// The counter `idx`.
    pub fn new(counter: Counter, idx: usize) -> (t: Timeus)
        requires
            idx <= 3,
        ensures
            t.counter == counter,
            t.idx == idx,
    {
        Timeus { counter, idx }
    }

    /// The current count.
    pub fn now(&self) -> (v: u32)
        ensures
            v == self.counter.current_value,
    {
        self.counter.current_value
    }

    /// Starts the counter wrapping around at the largest value, counting
    /// every cycle.
    pub fn start(&mut self)
        ensures
            final(self).counter == (Counter {
                max_value: 0xffff_ffff,
                divider: 1,
                wrapping: Enable::Enabled,
                ..old(self).counter
            }),
            final(self).idx == old(self).idx,
    {
        self.counter.max_value = 0xffff_ffff;
        self.counter.divider = 1;
        self.counter.wrapping = Enable::Enabled;
    }
}

} // verus!
