//! Interrupt dispatch: which driver handles each interrupt line.

use vstd::prelude::*;
use crate::cortexm3::{Nvic, NVIC_LINES};
use crate::h1::gpio::{GpioPort, Pin};

verus! {

/// The handler of an interrupt line.
#[derive(Clone, Copy, PartialEq, Eq, Structural, Debug)]
pub enum Interrupt {
    /// Crypto engine error, with the line.
    DcryptoError(u32),
    /// Crypto engine wipe.
    DcryptoWipe,
    /// Crypto engine done.
    DcryptoDone,
    /// Crypto engine receive.
    DcryptoReceive,
    /// Key manager AES, with the line.
    KeymgrAes(u32),
    /// Key manager SHA, with the line.
    KeymgrSha(u32),
    /// Lines that are acknowledged and otherwise ignored.
    Ignored,
    /// SPI host, with its number.
    SpiHost(u8),
    /// SPI device: command address FIFO not empty.
    SpiDevice,
    /// Low speed timer, with its number.
    Timels(u8),
    /// Random number generator.
    Trng,
    /// UART receive, with its number.
    UartRx(u8),
    /// UART transmit, with its number.
    UartTx(u8),
    /// USB.
    Usb,
    /// A GPIO pin.
    Gpio(GpioPort, Pin),
}

/// The pin of a GPIO line, counted from the port's first line.
pub open spec fn gpio_pin(offset: u32) -> Pin {
    match offset {
        0 => Pin::P0,
        1 => Pin::P1,
        2 => Pin::P2,
        3 => Pin::P3,
        4 => Pin::P4,
        5 => Pin::P5,
        6 => Pin::P6,
        7 => Pin::P7,
        8 => Pin::P8,
        9 => Pin::P9,
        10 => Pin::P10,
        11 => Pin::P11,
        12 => Pin::P12,
        13 => Pin::P13,
        14 => Pin::P14,
        _ => Pin::P15,
    }
}

/// The handler of interrupt line `nvic_num`; `None` for a line that no
/// driver expects.
pub open spec fn spec_interrupt_handler(nvic_num: u32) -> Option<Interrupt> {
    if nvic_num == 1 || nvic_num == 3 || (6 <= nvic_num <= 11) {
        Some(Interrupt::DcryptoError(nvic_num))
    } else if nvic_num == 2 {
        Some(Interrupt::DcryptoWipe)
    } else if nvic_num == 4 {
        Some(Interrupt::DcryptoDone)
    } else if nvic_num == 5 {
        Some(Interrupt::DcryptoReceive)
    } else if 104 <= nvic_num <= 109 {
        Some(Interrupt::KeymgrAes(nvic_num))
    } else if nvic_num == 110 {
        Some(Interrupt::KeymgrSha(nvic_num))
    } else if nvic_num == 111 || nvic_num == 81 || nvic_num == 98 {
        Some(Interrupt::Ignored)
    } else if nvic_num == 127 {
        Some(Interrupt::SpiHost(0))
    } else if nvic_num == 128 {
        Some(Interrupt::SpiHost(1))
    } else if nvic_num == 131 {
        Some(Interrupt::SpiDevice)
    } else if nvic_num == 159 {
        Some(Interrupt::Timels(0))
    } else if nvic_num == 160 {
        Some(Interrupt::Timels(1))
    } else if nvic_num == 169 {
        Some(Interrupt::Trng)
    } else if nvic_num == 174 {
        Some(Interrupt::UartRx(0))
    } else if nvic_num == 177 {
        Some(Interrupt::UartTx(0))
    } else if nvic_num == 181 {
        Some(Interrupt::UartRx(1))
    } else if nvic_num == 184 {
        Some(Interrupt::UartTx(1))
    } else if nvic_num == 188 {
        Some(Interrupt::UartRx(2))
    } else if nvic_num == 191 {
        Some(Interrupt::UartTx(2))
    } else if nvic_num == 193 {
        Some(Interrupt::Usb)
    } else if 65 <= nvic_num <= 80 {
        Some(Interrupt::Gpio(GpioPort::Port0, gpio_pin((nvic_num - 65) as u32)))
    } else if 82 <= nvic_num <= 97 {
        Some(Interrupt::Gpio(GpioPort::Port1, gpio_pin((nvic_num - 82) as u32)))
    } else {
        None
    }
}

/// Returns the handler of interrupt line `nvic_num`; `None` for a line that
/// no driver expects.
pub fn interrupt_handler(nvic_num: u32) -> (h: Option<Interrupt>)
    ensures
        h == spec_interrupt_handler(nvic_num),
{
    match nvic_num {
        1 | 3 | 6 | 7 | 8 | 9 | 10 | 11 => Some(Interrupt::DcryptoError(nvic_num)),
        2 => Some(Interrupt::DcryptoWipe),
        4 => Some(Interrupt::DcryptoDone),
        5 => Some(Interrupt::DcryptoReceive),
        104..=109 => Some(Interrupt::KeymgrAes(nvic_num)),
        110 => Some(Interrupt::KeymgrSha(nvic_num)),
        111 => Some(Interrupt::Ignored),
        127 => Some(Interrupt::SpiHost(0)),
        128 => Some(Interrupt::SpiHost(1)),
        131 => Some(Interrupt::SpiDevice),
        159 => Some(Interrupt::Timels(0)),
        160 => Some(Interrupt::Timels(1)),
        169 => Some(Interrupt::Trng),
        174 => Some(Interrupt::UartRx(0)),
        177 => Some(Interrupt::UartTx(0)),
        181 => Some(Interrupt::UartRx(1)),
        184 => Some(Interrupt::UartTx(1)),
        188 => Some(Interrupt::UartRx(2)),
        191 => Some(Interrupt::UartTx(2)),
        193 => Some(Interrupt::Usb),
        65..=80 => Some(Interrupt::Gpio(GpioPort::Port0, gpio_pin_of(nvic_num - 65))),
        81 => Some(Interrupt::Ignored),
        82..=97 => Some(Interrupt::Gpio(GpioPort::Port1, gpio_pin_of(nvic_num - 82))),
        98 => Some(Interrupt::Ignored),
        _ => None,
    }
}

/// Returns the pin of a GPIO line, counted from the port's first line.
fn gpio_pin_of(offset: u32) -> (p: Pin)
    requires
        offset < 16,
    ensures
        p == gpio_pin(offset),
{
    match Pin::from_index(offset) {
        Some(p) => p,
        None => Pin::P15,
    }
}

/// Services the pending interrupt lines, lowest first, until none is
/// pending: for each, its handler is named (the caller runs them in this
/// order), then its pending flag is cleared and the line enabled. A line
/// that no driver expects stops the servicing, with that line returned.
/// Returns the serviced lines with their handlers.
pub fn service_pending_interrupts(nvic: &mut Nvic) -> (r: (Vec<(u32, Interrupt)>, Option<u32>))
    requires
        old(nvic).well_formed(),
    ensures
        final(nvic).well_formed(),
        forall|k: int|
            0 <= k < r.0@.len() ==> {
                let (line, handler) = #[trigger] r.0@[k];
                &&& line < NVIC_LINES
                &&& old(nvic).pending@[line as int]
                &&& spec_interrupt_handler(line) == Some(handler)
            },
        forall|a: int, b: int| 0 <= a < b < r.0@.len() ==> r.0@[a].0 < r.0@[b].0,
        r.1 matches Some(n) ==> n < NVIC_LINES && old(nvic).pending@[n as int] && spec_interrupt_handler(n) is None,
        forall|l: int|
            #![trigger old(nvic).pending@[l]]
            0 <= l < NVIC_LINES ==> {
                let serviced = old(nvic).pending@[l] && (r.1 matches Some(n) ==> l < n);
                &&& final(nvic).pending@[l] == (old(nvic).pending@[l] && !serviced)
                &&& final(nvic).enabled@[l] == (old(nvic).enabled@[l] || serviced)
                &&& serviced ==> exists|k: int| 0 <= k < r.0@.len() && (#[trigger] r.0@[k]).0 == l
            },
{
    let mut serviced: Vec<(u32, Interrupt)> = Vec::new();
    let mut stop: Option<u32> = None;
    let mut done = false;
    let mut cursor: usize = 0;
    while !done
        invariant
            nvic.well_formed(),
            old(nvic).well_formed(),
            cursor <= NVIC_LINES,
            forall|l: int| 0 <= l < cursor ==> !nvic.pending@[l],
            forall|l: int| cursor <= l < NVIC_LINES ==> nvic.pending@[l] == old(nvic).pending@[l],
            forall|k: int|
                0 <= k < serviced@.len() ==> {
                    let (line, handler) = #[trigger] serviced@[k];
                    &&& line < cursor
                    &&& old(nvic).pending@[line as int]
                    &&& spec_interrupt_handler(line) == Some(handler)
                },
            forall|a: int, b: int| 0 <= a < b < serviced@.len() ==> serviced@[a].0 < serviced@[b].0,
            forall|l: int|
                #![trigger old(nvic).pending@[l]]
                0 <= l < NVIC_LINES ==> {
                    let passed = old(nvic).pending@[l] && l < cursor;
                    &&& nvic.pending@[l] == (old(nvic).pending@[l] && !passed)
                    &&& nvic.enabled@[l] == (old(nvic).enabled@[l] || passed)
                    &&& passed ==> exists|k: int| 0 <= k < serviced@.len() && (#[trigger] serviced@[k]).0 == l
                },
            !done ==> stop is None,
            done ==> match stop {
                None => forall|l: int| 0 <= l < NVIC_LINES ==> !nvic.pending@[l],
                Some(n) => n < NVIC_LINES && cursor <= n && old(nvic).pending@[n as int]
                    && spec_interrupt_handler(n) is None && forall|l: int| cursor <= l < n ==> !old(nvic).pending@[l],
            },
        decreases NVIC_LINES - cursor + if done {
            0int
        } else {
            1int
        },
    {
        match nvic.next_pending() {
            None => {
                done = true;
            },
            Some(n) => {
                assert(n >= cursor);
                match interrupt_handler(n) {
                    None => {
                        assert forall|l: int| cursor <= l < n implies !old(nvic).pending@[l] by {
                            assert(!nvic.pending@[l]);
                        }
                        assert(nvic.pending@[n as int] == old(nvic).pending@[n as int]);
                        assert(spec_interrupt_handler(n) is None);
                        stop = Some(n);
                        done = true;
                    },
                    Some(handler) => {
                        let ghost before = serviced@;
                        serviced.push((n, handler));
                        nvic.pending.set(n as usize, false);
                        nvic.enabled.set(n as usize, true);
                        assert forall|l: int| 0 <= l < NVIC_LINES && old(nvic).pending@[l] && l < n + 1 implies
                            exists|k: int| 0 <= k < serviced@.len() && (#[trigger] serviced@[k]).0 == l by {
                            if l == n {
                                assert(serviced@[before.len() as int].0 == l);
                            } else {
                                assert(l < cursor);
                                let k = choose|k: int| 0 <= k < before.len() && (#[trigger] before[k]).0 == l;
                                assert(serviced@[k] == before[k]);
                            }
                        }
                        assert forall|l: int| cursor <= l < n implies !old(nvic).pending@[l] by {
                            assert(!old(nvic).pending@[l] || nvic.pending@[l]);
                        }
                        cursor = n as usize + 1;
                    },
                }
            },
        }
    }
    proof {
        match stop {
            None => {
                assert forall|l: int| 0 <= l < NVIC_LINES && old(nvic).pending@[l] implies l < cursor by {
                    assert(!nvic.pending@[l]);
                }
            },
            Some(n) => {
                assert forall|l: int| 0 <= l < NVIC_LINES && old(nvic).pending@[l] && l < n implies l < cursor by {
                    if l >= cursor {
                        assert(!old(nvic).pending@[l]);
                    }
                }
            },
        }
    }
    (serviced, stop)
}

/// The handler of interrupt line `nvic_num` on the older Hotel chip, which
/// only has UARTs and the first GPIO port.
pub open spec fn spec_hotel_interrupt_handler(nvic_num: u32) -> Option<Interrupt> {
    if nvic_num == 174 {
        Some(Interrupt::UartRx(0))
    } else if nvic_num == 177 {
        Some(Interrupt::UartTx(0))
    } else if nvic_num == 181 {
        Some(Interrupt::UartRx(1))
    } else if nvic_num == 184 {
        Some(Interrupt::UartTx(1))
    } else if nvic_num == 188 {
        Some(Interrupt::UartRx(2))
    } else if nvic_num == 191 {
        Some(Interrupt::UartTx(2))
    } else if 65 <= nvic_num <= 80 {
        Some(Interrupt::Gpio(GpioPort::Port0, gpio_pin((nvic_num - 65) as u32)))
    } else if nvic_num == 81 {
        Some(Interrupt::Ignored)
    } else {
        None
    }
}

/// Returns the handler of interrupt line `nvic_num` on the older Hotel chip.
pub fn hotel_interrupt_handler(nvic_num: u32) -> (h: Option<Interrupt>)
    ensures
        h == spec_hotel_interrupt_handler(nvic_num),
{
    match nvic_num {
        174 => Some(Interrupt::UartRx(0)),
        177 => Some(Interrupt::UartTx(0)),
        181 => Some(Interrupt::UartRx(1)),
        184 => Some(Interrupt::UartTx(1)),
        188 => Some(Interrupt::UartRx(2)),
        191 => Some(Interrupt::UartTx(2)),
        65..=80 => Some(Interrupt::Gpio(GpioPort::Port0, gpio_pin_of(nvic_num - 65))),
        81 => Some(Interrupt::Ignored),
        _ => None,
    }
}

} // verus!
