//! Low speed timer used as the kernel's alarm: it counts down from a load
//! value, and the time is kept as the sum of the periods that expired.

use vstd::prelude::*;
use crate::return_code::ReturnCode;

verus! {

/// The 256 kHz frequency of the timer.
pub struct Freq256Khz;

impl Freq256Khz {
    /// Ticks per second.
    pub fn frequency() -> (f: u32)
        ensures
            f == 256000,
    {
        256000
    }
}

/// The registers of the timer.
#[derive(Clone, Copy, PartialEq, Eq, Structural, Debug)]
pub struct TimelsRegisters {
    /// Control: bit 0 runs the timer.
    pub control: u32,
    /// Value loaded when the timer starts.
    pub load: u32,
    /// Value reloaded when the timer expires.
    pub reload: u32,
    /// Current count, counting down.
    pub value: u32,
    /// Interrupt enable.
    pub interrupt_enable: u32,
}

/// A timer.
#[derive(Clone, Copy, PartialEq, Eq, Structural, Debug)]
pub struct Timels {
    /// The registers.
    pub registers: TimelsRegisters,
    /// The time at which the current period started.
    pub now: u32,
    /// Whether an alarm client is set.
    pub has_client: bool,
}

/// The current time: the start of the period plus the ticks elapsed in it,
/// wrapping around at 2^32.
pub open spec fn spec_now(t: Timels) -> u32 {
    vstd::wrapping::u32_specs::wrapping_add(
        t.now,
        vstd::wrapping::u32_specs::wrapping_sub(t.registers.reload, t.registers.value),
    )
}

/// The ticks until an alarm at `reference + dt`, seen at time `now`: at
/// least one.
pub open spec fn alarm_distance(reference: u32, dt: u32, now: u32) -> u32 {
    let target = vstd::wrapping::u32_specs::wrapping_add(reference, dt);
    if target <= now {
        1
    } else {
        (target - now) as u32
    }
}

impl Timels {
    /// A timer over `registers`, at time zero, without a client.
    pub fn new(registers: TimelsRegisters) -> (t: Timels)
        ensures
            t == (Timels { registers, now: 0, has_client: false }),
    {
        Timels { registers, now: 0, has_client: false }
    }

    /// Sets the alarm client.
    pub fn set_alarm_client(&mut self)
        ensures
            *final(self) == (Timels { has_client: true, ..*old(self) }),
    {
        self.has_client = true;
    }

    /// Handles the timer's interrupt: stops the timer and moves the time on
    /// by the period that expired. Returns whether the client is told.
    pub fn handle_interrupt(&mut self) -> (fired: bool)
        ensures
            fired == old(self).has_client,
            *final(self) == (Timels {
                registers: TimelsRegisters { control: 0, reload: 0, ..old(self).registers },
                now: vstd::wrapping::u32_specs::wrapping_add(old(self).now, old(self).registers.reload),
                ..*old(self)
            }),
    {
        self.registers.control = 0;
        self.now = self.now.wrapping_add(self.registers.reload);
        self.registers.reload = 0;
        self.has_client
    }

    /// The current time.
    pub fn now(&self) -> (t: u32)
        ensures
            t == spec_now(*self),
    {
        let elapsed = self.registers.reload.wrapping_sub(self.registers.value);
        self.now.wrapping_add(elapsed)
    }

    /// Sets an alarm at `reference + dt`. The timer is stopped first; an
    /// alarm that is already due fires after one tick.
    pub fn set_alarm(&mut self, reference: u32, dt: u32)
        ensures
            ({
                let stopped = Timels { registers: TimelsRegisters { control: 0, ..old(self).registers }, ..*old(self) };
                let distance = alarm_distance(reference, dt, spec_now(stopped));
                *final(self) == (Timels {
                    registers: TimelsRegisters {
                        load: distance,
                        reload: distance,
                        interrupt_enable: 1,
                        control: 1,
                        ..old(self).registers
                    },
                    ..*old(self)
                })
            }),
    {
        // Stop the timer so it doesn't expire before it is reset.
        self.registers.control = 0;
        // Recomputing now() here sees what the caller saw, or later.
        let now = self.now();
        let target = reference.wrapping_add(dt);
        let distance: u32 = if target <= now {
            1
        } else {
            target - now
        };
        self.registers.load = distance;
        self.registers.reload = distance;
        self.registers.interrupt_enable = 1;
        self.registers.control = 1;
    }

    /// The alarm's period.
    pub fn get_alarm(&self) -> (t: u32)
        ensures
            t == self.registers.reload,
    {
        self.registers.reload
    }

    /// Whether the timer runs with a count left.
    pub fn is_armed(&self) -> (b: bool)
        ensures
            b == (self.registers.control & 1 == 1 && self.registers.value != 0),
    {
        self.registers.control & 1 == 1 && self.registers.value != 0
    }

    /// Stops the timer.
    pub fn disarm(&mut self) -> (rc: ReturnCode)
        ensures
            rc == ReturnCode::SUCCESS,
            *final(self) == (Timels { registers: TimelsRegisters { control: 0, ..old(self).registers }, ..*old(self) }),
    {
        self.registers.control = 0;
        ReturnCode::SUCCESS
    }

    /// The shortest alarm interval.
    pub fn minimum_dt(&self) -> (t: u32)
        ensures
            t == 1,
    {
        1
    }
}

/// An alarm is never set to fire in zero ticks, and one not yet due fires
/// exactly at its target.
pub proof fn lemma_alarm_distance(reference: u32, dt: u32, now: u32)
    ensures
        alarm_distance(reference, dt, now) >= 1,
        vstd::wrapping::u32_specs::wrapping_add(reference, dt) > now ==> now + alarm_distance(reference, dt, now)
            == vstd::wrapping::u32_specs::wrapping_add(reference, dt),
{
}

} // verus!
