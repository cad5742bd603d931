//! GPIO pins: the bit of each pin in its port's registers, interrupt
//! polarity handling (including the software emulation of "either edge"),
//! and the pinmux pad that a pin is routed to with its pull resistors.

use vstd::prelude::*;

verus! {

/// A GPIO port.
#[derive(Clone, Copy, PartialEq, Eq, Structural, Debug)]
pub enum GpioPort {
    /// The first port.
    Port0,
    /// The second port.
    Port1,
}

/// A pin of a port.
#[derive(Clone, Copy, PartialEq, Eq, Structural, Debug)]
pub enum Pin {
    P0,
    P1,
    P2,
    P3,
    P4,
    P5,
    P6,
    P7,
    P8,
    P9,
    P10,
    P11,
    P12,
    P13,
    P14,
    P15,
}

impl Pin {
    /// The pin's number.
    pub open spec fn spec_index(self) -> u32 {
        match self {
            Pin::P0 => 0,
            Pin::P1 => 1,
            Pin::P2 => 2,
            Pin::P3 => 3,
            Pin::P4 => 4,
            Pin::P5 => 5,
            Pin::P6 => 6,
            Pin::P7 => 7,
            Pin::P8 => 8,
            Pin::P9 => 9,
            Pin::P10 => 10,
            Pin::P11 => 11,
            Pin::P12 => 12,
            Pin::P13 => 13,
            Pin::P14 => 14,
            Pin::P15 => 15,
        }
    }

    /// Returns the pin's number.
    pub fn index(self) -> (i: u32)
        ensures
            i == self.spec_index(),
            i < 16,
    {
        match self {
            Pin::P0 => 0,
            Pin::P1 => 1,
            Pin::P2 => 2,
            Pin::P3 => 3,
            Pin::P4 => 4,
            Pin::P5 => 5,
            Pin::P6 => 6,
            Pin::P7 => 7,
            Pin::P8 => 8,
            Pin::P9 => 9,
            Pin::P10 => 10,
            Pin::P11 => 11,
            Pin::P12 => 12,
            Pin::P13 => 13,
            Pin::P14 => 14,
            Pin::P15 => 15,
        }
    }

    /// The pin with number `i`, if there is one.
    pub fn from_index(i: u32) -> (p: Option<Pin>)
        ensures
            i < 16 ==> (p matches Some(q) && q.spec_index() == i),
            i >= 16 ==> p is None,
    {
        match i {
            0 => Some(Pin::P0),
            1 => Some(Pin::P1),
            2 => Some(Pin::P2),
            3 => Some(Pin::P3),
            4 => Some(Pin::P4),
            5 => Some(Pin::P5),
            6 => Some(Pin::P6),
            7 => Some(Pin::P7),
            8 => Some(Pin::P8),
            9 => Some(Pin::P9),
            10 => Some(Pin::P10),
            11 => Some(Pin::P11),
            12 => Some(Pin::P12),
            13 => Some(Pin::P13),
            14 => Some(Pin::P14),
            15 => Some(Pin::P15),
            _ => None,
        }
    }
}

/// The bit of pin number `i` in its port's registers.
pub open spec fn pin_mask(i: u32) -> u32 {
    (1u32 << i) as u32
}

/// Computes the bit of a pin.
fn mask_of(pin: Pin) -> (m: u32)
    ensures
        m == pin_mask(pin.spec_index()),
{
    1u32 << pin.index()
}

/// The registers of a GPIO port, by what they hold. The hardware has
/// separate registers to set and to clear the output enables, interrupt
/// enables, types and polarities; here each is one value.
#[derive(Clone, Copy, PartialEq, Eq, Structural, Debug)]
pub struct PortRegisters {
    /// Pin levels.
    pub data_in: u32,
    /// Driven levels.
    pub data_out: u32,
    /// Enabled outputs.
    pub output_enable: u32,
    /// Enabled interrupts.
    pub interrupt_enable: u32,
    /// Edge triggered interrupts.
    pub interrupt_type: u32,
    /// Interrupts on rising (set) or falling (clear) edges.
    pub interrupt_pol: u32,
    /// Pending interrupts.
    pub interrupt_status: u32,
}

/// Edges that raise an interrupt.
#[derive(Clone, Copy, PartialEq, Eq, Structural, Debug)]
pub enum InterruptEdge {
    RisingEdge,
    FallingEdge,
    EitherEdge,
}

/// Configuration of a pin.
#[derive(Clone, Copy, PartialEq, Eq, Structural, Debug)]
pub enum Configuration {
    Input,
    InputOutput,
}

/// A GPIO pin.
#[derive(Clone, Copy, PartialEq, Eq, Structural, Debug)]
pub struct GPIOPin {
    /// The port.
    pub port: GpioPort,
    /// The pin.
    pub pin: Pin,
    /// Whether interrupts on either edge are emulated.
    pub change: bool,
    /// Whether a client is set.
    pub has_client: bool,
}

impl GPIOPin {
    /// Pin `pin` of `port`, without a client.
    pub fn new(port: GpioPort, pin: Pin) -> (p: GPIOPin)
        ensures
            p == (GPIOPin { port, pin, change: false, has_client: false }),
    {
        GPIOPin { port, pin, change: false, has_client: false }
    }

    /// The pin's bit.
    pub open spec fn mask(self) -> u32 {
        pin_mask(self.pin.spec_index())
    }

    /// Handles the pin's interrupt: acknowledges it and, when either edge is
    /// emulated, flips the polarity so that the next edge fires too.
    /// Returns whether the client is told.
    pub fn handle_interrupt(&self, port: &mut PortRegisters) -> (fired: bool)
        ensures
            fired == self.has_client,
            final(port).interrupt_status == old(port).interrupt_status & !self.mask(),
            final(port).interrupt_pol == if self.change {
                old(port).interrupt_pol ^ self.mask()
            } else {
                old(port).interrupt_pol
            },
            *final(port) == (PortRegisters {
                interrupt_status: final(port).interrupt_status,
                interrupt_pol: final(port).interrupt_pol,
                ..*old(port)
            }),
    {
        let mask = mask_of(self.pin);
        port.interrupt_status = port.interrupt_status & !mask;
        if self.change {
            let pol = port.interrupt_pol;
            if pol & mask != 0 {
                port.interrupt_pol = pol & !mask;
            } else {
                port.interrupt_pol = pol | mask;
            }
            let idx = self.pin.index();
            assert(pol & mask != 0 ==> pol & !mask == pol ^ mask) by (bit_vector)
                requires
                    mask == 1u32 << idx,
                    idx < 16,
            ;
            assert(pol & mask == 0 ==> pol | mask == pol ^ mask) by (bit_vector);
        }
        self.has_client
    }

    /// Whether the pin's output is enabled.
    pub fn is_output(&self, port: &PortRegisters) -> (b: bool)
        ensures
            b == (port.output_enable & self.mask() != 0),
    {
        port.output_enable & mask_of(self.pin) != 0
    }

    /// The pin's configuration; input is always enabled.
    pub fn configuration(&self, port: &PortRegisters) -> (c: Configuration)
        ensures
            c == if port.output_enable & self.mask() != 0 {
                Configuration::InputOutput
            } else {
                Configuration::Input
            },
    {
        if self.is_output(port) {
            Configuration::InputOutput
        } else {
            Configuration::Input
        }
    }

    /// Enables the pin's output.
    pub fn make_output(&self, port: &mut PortRegisters) -> (c: Configuration)
        ensures
            c == Configuration::InputOutput,
            *final(port) == (PortRegisters { output_enable: old(port).output_enable | self.mask(), ..*old(port) }),
    {
        port.output_enable = port.output_enable | mask_of(self.pin);
        Configuration::InputOutput
    }

    /// Reports the pin as an input only. The output enable register is
    /// written the same way as by `make_output`.
    pub fn disable_output(&self, port: &mut PortRegisters) -> (c: Configuration)
        ensures
            c == Configuration::Input,
            *final(port) == (PortRegisters { output_enable: old(port).output_enable | self.mask(), ..*old(port) }),
    {
        port.output_enable = port.output_enable | mask_of(self.pin);
        Configuration::Input
    }

    /// The pin's level.
    pub fn read(&self, port: &PortRegisters) -> (b: bool)
        ensures
            b == (port.data_in & self.mask() != 0),
    {
        port.data_in & mask_of(self.pin) != 0
    }

    /// Drives the pin high.
    pub fn set(&self, port: &mut PortRegisters)
        ensures
            *final(port) == (PortRegisters { data_out: old(port).data_out | self.mask(), ..*old(port) }),
    {
        port.data_out = port.data_out | mask_of(self.pin);
    }

    /// Drives the pin low.
    pub fn clear(&self, port: &mut PortRegisters)
        ensures
            *final(port) == (PortRegisters { data_out: old(port).data_out & !self.mask(), ..*old(port) }),
    {
        port.data_out = port.data_out & !mask_of(self.pin);
    }

    /// Flips the driven level; returns the new one.
    pub fn toggle(&self, port: &mut PortRegisters) -> (high: bool)
        ensures
            *final(port) == (PortRegisters { data_out: old(port).data_out ^ self.mask(), ..*old(port) }),
            high == ((old(port).data_out ^ self.mask()) & self.mask() != 0),
    {
        let bit_to_flip = mask_of(self.pin);
        let new_value = port.data_out ^ bit_to_flip;
        port.data_out = new_value;
        new_value & bit_to_flip != 0
    }

    /// Enables the pin's interrupt on `mode`'s edges. Either edge is
    /// emulated: the polarity is set against the pin's current level and
    /// flipped at each interrupt.
    pub fn enable_interrupts(&mut self, mode: InterruptEdge, port: &mut PortRegisters)
        ensures
            final(self).change == (mode == InterruptEdge::EitherEdge),
            final(self).port == old(self).port,
            final(self).pin == old(self).pin,
            final(self).has_client == old(self).has_client,
            ({
                let m = old(self).mask();
                let rising = match mode {
                    InterruptEdge::RisingEdge => true,
                    InterruptEdge::FallingEdge => false,
                    InterruptEdge::EitherEdge => old(port).data_in & m == 0,
                };
                *final(port) == (PortRegisters {
                    interrupt_pol: if rising {
                        old(port).interrupt_pol | m
                    } else {
                        old(port).interrupt_pol & !m
                    },
                    interrupt_type: old(port).interrupt_type | m,
                    interrupt_enable: old(port).interrupt_enable | m,
                    ..*old(port)
                })
            }),
    {
        let mask = mask_of(self.pin);
        match mode {
            InterruptEdge::RisingEdge => {
                port.interrupt_pol = port.interrupt_pol | mask;
                self.change = false;
            },
            InterruptEdge::FallingEdge => {
                port.interrupt_pol = port.interrupt_pol & !mask;
                self.change = false;
            },
            InterruptEdge::EitherEdge => {
                self.change = true;
                // Set the interrupt polarity based on the current state of
                // the pin.
                if self.read(port) {
                    port.interrupt_pol = port.interrupt_pol & !mask;
                } else {
                    port.interrupt_pol = port.interrupt_pol | mask;
                }
            },
        }
        port.interrupt_type = port.interrupt_type | mask;
        port.interrupt_enable = port.interrupt_enable | mask;
    }

    /// Disables the pin's interrupt.
    pub fn disable_interrupts(&self, port: &mut PortRegisters)
        ensures
            *final(port) == (PortRegisters { interrupt_enable: old(port).interrupt_enable & !self.mask(), ..*old(port) }),
    {
        port.interrupt_enable = port.interrupt_enable & !mask_of(self.pin);
    }

    /// Whether the pin's interrupt is pending.
    pub fn is_pending(&self, port: &PortRegisters) -> (b: bool)
        ensures
            b == (port.interrupt_status & self.mask() != 0),
    {
        port.interrupt_status & mask_of(self.pin) != 0
    }
}

/// A pad of the chip that the pinmux can route a GPIO to.
#[derive(Clone, Copy, PartialEq, Eq, Structural, Debug)]
pub enum SelectablePin {
    Diob7,
    Diob6,
    Diob5,
    Diob4,
    Diob3,
    Diob2,
    Diob1,
    Diob0,
    Dioa14,
    Dioa13,
    Dioa12,
    Dioa11,
    Dioa10,
    Dioa9,
    Dioa8,
    Dioa7,
    Dioa6,
    Dioa5,
    Dioa4,
    Dioa3,
    Dioa2,
    Dioa1,
    Dioa0,
    Diom4,
    Diom3,
    Diom2,
    Diom1,
    Diom0,
    /// Any other selection: not a pad with pull resistors.
    Other,
}

/// The pinmux register that selects what a GPIO pin is routed to: the
/// peripheral `gpio<port>_gpio<pin>`. Pins of any port but the first one are
/// those of the second.
#[derive(Clone, Copy, PartialEq, Eq, Structural, Debug)]
pub struct PinmuxPeripheral {
    /// The port.
    pub port: GpioPort,
    /// The pin.
    pub pin: Pin,
}

/// Returns the pinmux peripheral of a GPIO pin.
pub fn pinmux_peripheral(port: GpioPort, pin: Pin) -> (p: PinmuxPeripheral)
    ensures
        p == (PinmuxPeripheral { port, pin }),
{
    PinmuxPeripheral { port, pin }
}

/// The pad that a GPIO pin is routed to, given its pinmux peripheral's
/// selection, when that is a pad with pull resistors.
pub open spec fn spec_pinmux_pin(selected: SelectablePin) -> Option<SelectablePin> {
    if selected is Other {
        None
    } else {
        Some(selected)
    }
}

/// Returns the pad that a GPIO pin is routed to, given its pinmux
/// peripheral's selection; `None` when it is not one of the pads with pull
/// resistors.
pub fn get_pinmux_pin(selected: SelectablePin) -> (p: Option<SelectablePin>)
    ensures
        p == spec_pinmux_pin(selected),
{
    match selected {
        SelectablePin::Other => None,
        pad => Some(pad),
    }
}

/// Pull resistors of a pad.
#[derive(Clone, Copy, PartialEq, Eq, Structural, Debug)]
pub enum FloatingState {
    PullUp,
    PullDown,
    PullNone,
}

/// Pulldown enable bit of a pad's control register.
pub const PULLDOWN_BIT: u32 = 0x8;

/// Pullup enable bit of a pad's control register.
pub const PULLUP_BIT: u32 = 0x10;

/// The control register value of a pad with its pull resistors set to
/// `state`: only the pulldown and pullup bits change.
pub open spec fn spec_with_floating_state(control: u32, state: FloatingState) -> u32 {
    match state {
        FloatingState::PullUp => (control & !PULLDOWN_BIT) | PULLUP_BIT,
        FloatingState::PullDown => (control & !PULLUP_BIT) | PULLDOWN_BIT,
        FloatingState::PullNone => control & !(PULLDOWN_BIT | PULLUP_BIT),
    }
}

/// The pull resistors that a pad's control register selects; both or
/// neither bit mean none.
pub open spec fn spec_floating_state(control: u32) -> FloatingState {
    let pulldown = control & PULLDOWN_BIT != 0;
    let pullup = control & PULLUP_BIT != 0;
    if pullup && !pulldown {
        FloatingState::PullUp
    } else if pulldown && !pullup {
        FloatingState::PullDown
    } else {
        FloatingState::PullNone
    }
}

/// Returns the control register value of a pad with its pull resistors set
/// to `state`.
pub fn set_floating_state(control: u32, state: FloatingState) -> (c: u32)
    ensures
        c == spec_with_floating_state(control, state),
{
    match state {
        FloatingState::PullUp => (control & !PULLDOWN_BIT) | PULLUP_BIT,
        FloatingState::PullDown => (control & !PULLUP_BIT) | PULLDOWN_BIT,
        FloatingState::PullNone => control & !(PULLDOWN_BIT | PULLUP_BIT),
    }
}

/// Returns the pull resistors that a pad's control register selects.
pub fn floating_state(control: u32) -> (s: FloatingState)
    ensures
        s == spec_floating_state(control),
{
    let pulldown = control & PULLDOWN_BIT != 0;
    let pullup = control & PULLUP_BIT != 0;
    if pullup && !pulldown {
        FloatingState::PullUp
    } else if pulldown && !pullup {
        FloatingState::PullDown
    } else {
        FloatingState::PullNone
    }
}

/// Setting a pad's pull resistors and reading them back gives what was set.
pub proof fn lemma_floating_state_roundtrip(control: u32, state: FloatingState)
    ensures
        spec_floating_state(spec_with_floating_state(control, state)) == state,
{
    assert(((control & !0x8u32) | 0x10u32) & 0x10u32 != 0 && ((control & !0x8u32) | 0x10u32) & 0x8u32 == 0) by (bit_vector);
    assert(((control & !0x10u32) | 0x8u32) & 0x8u32 != 0 && ((control & !0x10u32) | 0x8u32) & 0x10u32 == 0) by (bit_vector);
    assert((control & !(0x8u32 | 0x10u32)) & 0x8u32 == 0 && (control & !(0x8u32 | 0x10u32)) & 0x10u32 == 0) by (bit_vector);
}

/// Toggling a pin's output twice restores it.
pub proof fn lemma_toggle_twice(data_out: u32, mask: u32)
    ensures
        (data_out ^ mask) ^ mask == data_out,
{
    assert((data_out ^ mask) ^ mask == data_out) by (bit_vector);
}

} // verus!
