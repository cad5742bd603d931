//! UART: transmission of a buffer through the transmit FIFO, as far as it
//! has room, and the control bits of the transmitter and receiver.

use vstd::prelude::*;

verus! {

/// Control: transmitter enabled.
pub const CTRL_TX: u32 = 0x1;

/// Control: receiver enabled.
pub const CTRL_RX: u32 = 0x2;

/// The baud rate divider for `baudrate`: 2^20 times the baud rate over the
/// 24 MHz peripheral clock, computed as 2^14 times the baud rate over
/// 375000 so that it fits.
pub open spec fn nco(baudrate: u32) -> u32 {
    ((16384 * baudrate) / 375000) as u32
}

/// A buffer being sent: the bytes, the next one to send, and where to stop.
pub struct Buffer {
    /// The bytes.
    pub bytes: Vec<u8>,
    /// Whether the client lent the buffer for writing (and gets it back).
    pub mutable: bool,
    /// The next byte to send.
    pub cursor: usize,
    /// Where to stop.
    pub limit: usize,
}

/// A UART.
pub struct UART {
    /// Control register.
    pub control: u32,
    /// Interrupt control register.
    pub interrupt_control: u32,
    /// Baud rate divider.
    pub nco: u32,
    /// Whether the UART's clock runs.
    pub clock_enabled: bool,
    /// The buffer being sent.
    pub buffer: Option<Buffer>,
    /// Whether a client is set.
    pub has_client: bool,
}

impl UART {
    /// The buffer's cursor stays within its limit and its bytes.
    pub open spec fn well_formed(&self) -> bool {
        self.buffer matches Some(b) ==> b.cursor <= b.limit <= b.bytes@.len()
    }

    /// A UART with everything off.
    pub fn new() -> (u: UART)
        ensures
            u.well_formed(),
            u.control == 0,
            u.buffer is None,
            !u.clock_enabled,
    {
        UART { control: 0, interrupt_control: 0, nco: 0, clock_enabled: false, buffer: None, has_client: false }
    }

    /// Sets the baud rate.
    pub fn config(&mut self, baudrate: u32)
        requires
            16384 * baudrate <= u32::MAX,
        ensures
            final(self).nco == nco(baudrate),
            final(self).control == old(self).control,
    {
        self.nco = (16384 * baudrate) / 375000;
    }

    /// Sets the baud rate, on the older UART driver, which does not touch
    /// the state registers.
    pub fn set_baudrate(&mut self, baudrate: u32)
        requires
            16384 * baudrate <= u32::MAX,
        ensures
            final(self).nco == nco(baudrate),
            final(self).control == old(self).control,
    {
        self.nco = (16384 * baudrate) / 375000;
    }

    /// Enables the transmitter.
    pub fn enable_tx(&mut self)
        ensures
            final(self).control == old(self).control | CTRL_TX,
            final(self).clock_enabled,
            final(self).interrupt_control == old(self).interrupt_control,
    {
        self.clock_enabled = true;
        self.control = self.control | CTRL_TX;
    }

    /// Disables the transmitter; the clock stops when the receiver is off
    /// too.
    pub fn disable_tx(&mut self)
        ensures
            final(self).control == old(self).control & !CTRL_TX,
            final(self).clock_enabled == (old(self).clock_enabled && (old(self).control & !CTRL_TX) & 0x3 != 0),
    {
        let ctrl = self.control & !CTRL_TX;
        self.control = ctrl;
        if ctrl & 0x3 == 0 {
            self.clock_enabled = false;
        }
    }

    /// Enables the receiver and its interrupt.
    pub fn enable_rx(&mut self)
        ensures
            final(self).control == old(self).control | CTRL_RX,
            final(self).interrupt_control == old(self).interrupt_control | 2,
            final(self).clock_enabled,
    {
        self.clock_enabled = true;
        self.control = self.control | CTRL_RX;
        self.interrupt_control = self.interrupt_control | 2;
    }

    /// Disables the receiver and its interrupt; the clock stops when the
    /// transmitter is off too.
    pub fn disable_rx(&mut self)
        ensures
            final(self).control == old(self).control & !CTRL_RX,
            final(self).interrupt_control == old(self).interrupt_control & !2u32,
            final(self).clock_enabled == (old(self).clock_enabled && (old(self).control & !CTRL_RX) & 0x3 != 0),
    {
        let ctrl = self.control & !CTRL_RX;
        self.control = ctrl;
        if ctrl & 0x3 == 0 {
            self.clock_enabled = false;
        }
        self.interrupt_control = self.interrupt_control & !2u32;
    }

    /// Writes the buffer's remaining bytes to the transmit FIFO until none
    /// remain or the FIFO is full (it takes `room` more bytes). When any
    /// byte was written, the transmit interrupt is enabled, to learn when
    /// the FIFO has room again. Returns the bytes written.
    pub fn send_remaining_bytes(&mut self, room: usize) -> (written: Vec<u8>)
        requires
            old(self).well_formed(),
        ensures
            final(self).well_formed(),
            final(self).control == old(self).control,
            final(self).has_client == old(self).has_client,
            match old(self).buffer {
                None => written@.len() == 0 && final(self).buffer is None
                    && final(self).interrupt_control == old(self).interrupt_control,
                Some(b) => {
                    let left = b.limit - b.cursor;
                    let n = if room < left { room as int } else { left };
                    &&& written@ == b.bytes@.subrange(b.cursor as int, b.cursor + n)
                    &&& final(self).buffer matches Some(b1) && b1.bytes == b.bytes && b1.mutable == b.mutable
                        && b1.limit == b.limit && b1.cursor == b.cursor + n
                    &&& final(self).interrupt_control == if n > 0 {
                        old(self).interrupt_control | 1
                    } else {
                        old(self).interrupt_control
                    }
                },
            },
    {
        let mut written: Vec<u8> = Vec::new();
        let mut taken: Option<Buffer> = None;
        std::mem::swap(&mut taken, &mut self.buffer);
        let mut buffer = match taken {
            Some(b) => b,
            None => return written,
        };
        let init_cursor = buffer.cursor;
        let ghost bytes0 = buffer.bytes;
        let ghost limit0 = buffer.limit;
        let ghost mutable0 = buffer.mutable;
        while buffer.cursor < buffer.limit
            invariant_except_break
                buffer.bytes == bytes0,
                buffer.limit == limit0,
                buffer.mutable == mutable0,
                init_cursor <= buffer.cursor <= buffer.limit <= buffer.bytes@.len(),
                buffer.cursor - init_cursor <= room,
                written@ == buffer.bytes@.subrange(init_cursor as int, buffer.cursor as int),
            ensures
                buffer.bytes == bytes0,
                buffer.limit == limit0,
                buffer.mutable == mutable0,
                init_cursor <= buffer.cursor <= buffer.limit <= buffer.bytes@.len(),
                written@ == buffer.bytes@.subrange(init_cursor as int, buffer.cursor as int),
                buffer.cursor - init_cursor == if room < buffer.limit - init_cursor { room as int } else { buffer.limit - init_cursor },
            decreases buffer.limit - buffer.cursor,
        {
            if buffer.cursor - init_cursor >= room {
                // The transmit FIFO is full; the rest goes later.
                break;
            }
            written.push(buffer.bytes[buffer.cursor]);
            buffer.cursor = buffer.cursor + 1;
            assert(written@ =~= buffer.bytes@.subrange(init_cursor as int, buffer.cursor as int));
        }
        let nwritten = buffer.cursor - init_cursor;
        self.buffer = Some(buffer);
        if nwritten > 0 {
            self.interrupt_control = self.interrupt_control | 1;
        }
        written
    }

    /// Starts sending the first `len` bytes of `bytes`, lent by the client.
    pub fn send_bytes(&mut self, bytes: Vec<u8>, len: usize, room: usize) -> (written: Vec<u8>)
        requires
            len <= bytes@.len(),
        ensures
            final(self).well_formed(),
            written@ == bytes@.subrange(0, if room < len { room as int } else { len as int }),
    {
        self.buffer = Some(Buffer { bytes, mutable: true, cursor: 0, limit: len });
        self.send_remaining_bytes(room)
    }

    /// Starts sending all of `bytes`, lent by the client.
    pub fn send_mut_bytes(&mut self, bytes: Vec<u8>, room: usize) -> (written: Vec<u8>)
        ensures
            final(self).well_formed(),
            written@ == bytes@.subrange(0, if room < bytes@.len() { room as int } else { bytes@.len() as int }),
    {
        let len = bytes.len();
        self.send_bytes(bytes, len, room)
    }

    /// Handles the transmit interrupt: sends more bytes; when none remain,
    /// the client gets a lent buffer back.
    pub fn handle_tx_interrupt(&mut self, room: usize) -> (r: (Vec<u8>, Option<Vec<u8>>))
        requires
            old(self).well_formed(),
        ensures
            final(self).well_formed(),
            final(self).has_client == old(self).has_client,
            match old(self).buffer {
                None => r.0@.len() == 0 && r.1 is None && final(self).buffer is None,
                Some(b) => {
                    let left = b.limit - b.cursor;
                    let n = if room < left { room as int } else { left };
                    &&& r.0@ == b.bytes@.subrange(b.cursor as int, b.cursor + n)
                    &&& if n == 0 && old(self).has_client {
                        &&& final(self).buffer is None
                        &&& r.1 == if b.mutable { Some(b.bytes) } else { None }
                    } else {
                        &&& r.1 is None
                        &&& final(self).buffer matches Some(b1) && b1.bytes == b.bytes
                            && b1.cursor == b.cursor + n && b1.limit == b.limit && b1.mutable == b.mutable
                    }
                },
            },
    {
        let written = self.send_remaining_bytes(room);
        if written.len() == 0 && self.has_client {
            let mut taken: Option<Buffer> = None;
            std::mem::swap(&mut taken, &mut self.buffer);
            match taken {
                Some(b) => {
                    if b.mutable {
                        return (written, Some(b.bytes));
                    }
                    return (written, None);
                },
                None => return (written, None),
            }
        }
        (written, None)
    }
}

} // verus!
