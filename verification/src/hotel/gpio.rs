//! GPIO pins of the first port of the Hotel chip.

use vstd::prelude::*;
use crate::h1::gpio::{pin_mask, PortRegisters};

verus! {

/// A pin number.
#[derive(Clone, Copy, PartialEq, Eq, Structural, Debug)]
pub enum PinNum {
    P0,
    P1,
    P2,
    P3,
    P4,
    P5,
    P6,
    P7,
    P8,
    P9,
    P10,
    P11,
    P12,
    P13,
    P14,
    P15,
}

impl PinNum {
    /// The pin's number.
    pub open spec fn spec_index(self) -> u32 {
        match self {
            PinNum::P0 => 0,
            PinNum::P1 => 1,
            PinNum::P2 => 2,
            PinNum::P3 => 3,
            PinNum::P4 => 4,
            PinNum::P5 => 5,
            PinNum::P6 => 6,
            PinNum::P7 => 7,
            PinNum::P8 => 8,
            PinNum::P9 => 9,
            PinNum::P10 => 10,
            PinNum::P11 => 11,
            PinNum::P12 => 12,
            PinNum::P13 => 13,
            PinNum::P14 => 14,
            PinNum::P15 => 15,
        }
    }

    /// Returns the pin's number.
    pub fn index(self) -> (i: u32)
        ensures
            i == self.spec_index(),
            i < 16,
    {
        match self {
            PinNum::P0 => 0,
            PinNum::P1 => 1,
            PinNum::P2 => 2,
            PinNum::P3 => 3,
            PinNum::P4 => 4,
            PinNum::P5 => 5,
            PinNum::P6 => 6,
            PinNum::P7 => 7,
            PinNum::P8 => 8,
            PinNum::P9 => 9,
            PinNum::P10 => 10,
            PinNum::P11 => 11,
            PinNum::P12 => 12,
            PinNum::P13 => 13,
            PinNum::P14 => 14,
            PinNum::P15 => 15,
        }
    }
}

/// Edges that raise an interrupt.
#[derive(Clone, Copy, PartialEq, Eq, Structural, Debug)]
pub enum InterruptMode {
    RisingEdge,
    FallingEdge,
    Change,
}

/// A pin.
#[derive(Clone, Copy, PartialEq, Eq, Structural, Debug)]
pub struct Pin {
    /// The pin.
    pub pin: PinNum,
    /// The value handed to the client with each interrupt.
    pub client_data: usize,
    /// Whether changes in either direction are emulated.
    pub change: bool,
    /// Whether a client is set.
    pub has_client: bool,
}

impl Pin {
    /// Pin `pin`, without a client.
    pub fn new(pin: PinNum) -> (p: Pin)
        ensures
            p == (Pin { pin, client_data: 0, change: false, has_client: false }),
    {
        Pin { pin, client_data: 0, change: false, has_client: false }
    }

    /// Handles the pin's interrupt: acknowledges it, flips the polarity
    /// when changes are emulated, and returns the value for the client, if
    /// one is set.
    pub fn handle_interrupt(&self, port: &mut PortRegisters) -> (fired: Option<usize>)
        ensures
            fired == if self.has_client { Some(self.client_data) } else { None },
            final(port).interrupt_status == old(port).interrupt_status & !pin_mask(self.pin.spec_index()),
            final(port).interrupt_pol == if self.change {
                old(port).interrupt_pol ^ pin_mask(self.pin.spec_index())
            } else {
                old(port).interrupt_pol
            },
            final(port).data_out == old(port).data_out,
    {
        let idx = self.pin.index();
        let mask = 1u32 << idx;
        port.interrupt_status = port.interrupt_status & !mask;
        if self.change {
            let pol = port.interrupt_pol;
            if pol & mask != 0 {
                port.interrupt_pol = pol & !mask;
            } else {
                port.interrupt_pol = pol | mask;
            }
            assert(pol & mask != 0 ==> pol & !mask == pol ^ mask) by (bit_vector)
                requires
                    mask == 1u32 << idx,
                    idx < 16,
            ;
            assert(pol & mask == 0 ==> pol | mask == pol ^ mask) by (bit_vector);
        }
        if self.has_client {
            Some(self.client_data)
        } else {
            None
        }
    }

    /// Enables the pin's interrupt on `mode`'s edges, with `identifier` for
    /// the client. Changes are emulated: the polarity is set against the
    /// pin's current level and flipped at each interrupt.
    pub fn enable_interrupt(&mut self, identifier: usize, mode: InterruptMode, port: &mut PortRegisters)
        ensures
            final(self).client_data == identifier,
            final(self).change == (mode == InterruptMode::Change),
            final(self).pin == old(self).pin,
            final(self).has_client == old(self).has_client,
            ({
                let m = pin_mask(old(self).pin.spec_index());
                let rising = match mode {
                    InterruptMode::RisingEdge => true,
                    InterruptMode::FallingEdge => false,
                    InterruptMode::Change => old(port).data_in & m == 0,
                };
                *final(port) == (PortRegisters {
                    interrupt_pol: if rising { old(port).interrupt_pol | m } else { old(port).interrupt_pol & !m },
                    interrupt_type: old(port).interrupt_type | m,
                    interrupt_enable: old(port).interrupt_enable | m,
                    ..*old(port)
                })
            }),
    {
        self.client_data = identifier;
        let mask = 1u32 << self.pin.index();
        match mode {
            InterruptMode::RisingEdge => {
                port.interrupt_pol = port.interrupt_pol | mask;
                self.change = false;
            },
            InterruptMode::FallingEdge => {
                port.interrupt_pol = port.interrupt_pol & !mask;
                self.change = false;
            },
            InterruptMode::Change => {
                self.change = true;
                if port.data_in & mask != 0 {
                    port.interrupt_pol = port.interrupt_pol & !mask;
                } else {
                    port.interrupt_pol = port.interrupt_pol | mask;
                }
            },
        }
        port.interrupt_type = port.interrupt_type | mask;
        port.interrupt_enable = port.interrupt_enable | mask;
    }

    /// Disables the pin's output.
    pub fn disable(&self, port: &mut PortRegisters)
        ensures
            *final(port) == (PortRegisters { output_enable: old(port).output_enable & !pin_mask(self.pin.spec_index()), ..*old(port) }),
    {
        port.output_enable = port.output_enable & !(1u32 << self.pin.index());
    }
}

} // verus!
