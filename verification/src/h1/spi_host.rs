//! SPI host controller: transactions through its transmit and receive
//! FIFOs, and the passthrough from the SPI device.

use vstd::prelude::*;
use crate::return_code::ReturnCode;

verus! {

/// Bytes in each FIFO.
pub const FIFO_LEN: usize = 128;

/// CTRL after `init`: clock divider 2, bits transmitted and received most
/// significant first, passthrough disabled.
pub const CTRL_INIT: u32 = 0x0280_0800;

/// CTRL: passthrough from the SPI device enabled.
pub const CTRL_ENPASSTHRU: u32 = 0x0800_0000;

/// XACT: start.
pub const XACT_START: u32 = 0x1;

/// The registers of the SPI host controller.
pub struct SpiHostRegisters {
    /// Control register.
    pub ctrl: u32,
    /// Transaction register.
    pub xact: u32,
    /// Interrupt enables.
    pub ictrl: u32,
    /// The "transaction done" interrupt state.
    pub txdone: bool,
    /// Transmit FIFO.
    pub tx_fifo: Vec<u8>,
    /// Receive FIFO.
    pub rx_fifo: Vec<u8>,
}

/// The XACT value for a transaction of `len` bytes: a bit count of 7 and a
/// size of `len - 1`, other bits as in `xact`.
pub open spec fn xact_for(xact: u32, len: usize) -> u32 {
    let with_bcnt = (xact & !0xeu32) | 0xeu32;
    (with_bcnt & !0x7f0u32) | ((((len - 1) as u32) & 0x7fu32) << 4u32)
}

/// A finished transaction, to be reported to the client.
pub struct ReadWriteDone {
    /// The data that was sent.
    pub write_buffer: Vec<u8>,
    /// The buffer that received data, if one was given.
    pub read_buffer: Option<Vec<u8>>,
    /// The transaction length.
    pub len: usize,
}

/// The SPI host driver.
pub struct SpiHostHardware {
    /// The registers.
    pub registers: SpiHostRegisters,
    /// Length of the transaction in progress.
    pub transaction_len: usize,
    /// The data of the transaction in progress.
    pub tx_buffer: Option<Vec<u8>>,
    /// The buffer that receives the transaction's data.
    pub rx_buffer: Option<Vec<u8>>,
    /// Whether a client is set.
    pub has_client: bool,
    /// Whether transactions wait for the flash's BUSY bit to clear.
    pub wait_busy_clear: bool,
}

impl SpiHostHardware {
    /// The FIFOs have the hardware's size and a transaction fits in them.
    pub open spec fn well_formed(&self) -> bool {
        &&& self.registers.tx_fifo@.len() == FIFO_LEN
        &&& self.registers.rx_fifo@.len() == FIFO_LEN
        &&& self.transaction_len < FIFO_LEN
    }

    /// A driver over `registers` with no transaction.
    pub fn new(registers: SpiHostRegisters) -> (h: SpiHostHardware)
        requires
            registers.tx_fifo@.len() == FIFO_LEN,
            registers.rx_fifo@.len() == FIFO_LEN,
        ensures
            h.well_formed(),
            h.registers == registers,
            h.transaction_len == 0,
            h.tx_buffer is None,
            h.rx_buffer is None,
            !h.has_client,
    {
        SpiHostHardware {
            registers,
            transaction_len: 0,
            tx_buffer: None,
            rx_buffer: None,
            has_client: false,
            wait_busy_clear: false,
        }
    }

    /// Configures the controller.
    pub fn init(&mut self)
        ensures
            final(self).registers.ctrl == CTRL_INIT,
            final(self).registers.xact == old(self).registers.xact,
            final(self).registers.tx_fifo == old(self).registers.tx_fifo,
            final(self).transaction_len == old(self).transaction_len,
    {
        self.registers.ctrl = CTRL_INIT;
    }

    /// Sets the client.
    pub fn set_client(&mut self)
        ensures
            final(self).has_client,
            final(self).registers == old(self).registers,
            final(self).transaction_len == old(self).transaction_len,
    {
        self.has_client = true;
    }

    /// Whether the "transaction done" interrupt is pending.
    pub fn is_busy(&self) -> (b: bool)
        ensures
            b == self.registers.txdone,
    {
        self.registers.txdone
    }

    /// Starts a transaction of `transaction_len` bytes: the write buffer's
    /// bytes, padded with `0xff`, go into the transmit FIFO. Refused with
    /// `ESIZE` for an empty transaction or one that does not fit in the
    /// FIFOs.
    pub fn start_transaction(
        &mut self,
        write_buffer: Option<Vec<u8>>,
        read_buffer: Option<Vec<u8>>,
        transaction_len: usize,
    ) -> (rc: ReturnCode)
        requires
            old(self).well_formed(),
        ensures
            final(self).well_formed(),
            transaction_len == 0 || transaction_len >= FIFO_LEN ==> rc == ReturnCode::ESIZE
                && *final(self) == *old(self),
            0 < transaction_len < FIFO_LEN ==> {
                let tx_len: int = match write_buffer {
                    Some(b) => if b@.len() < transaction_len { b@.len() as int } else { transaction_len as int },
                    None => 0,
                };
                let fifo = final(self).registers.tx_fifo@;
                &&& rc == ReturnCode::SUCCESS
                &&& final(self).transaction_len == transaction_len
                &&& final(self).registers.xact == xact_for(old(self).registers.xact, transaction_len) | XACT_START
                &&& final(self).registers.ictrl == old(self).registers.ictrl | 1
                &&& !final(self).registers.txdone
                &&& final(self).registers.ctrl == old(self).registers.ctrl
                &&& final(self).registers.rx_fifo == old(self).registers.rx_fifo
                &&& forall|i: int| 0 <= i < tx_len ==> fifo[i] == write_buffer->0@[i]
                &&& forall|i: int| tx_len <= i < transaction_len ==> fifo[i] == 0xff
                &&& forall|i: int| transaction_len <= i < FIFO_LEN ==> fifo[i] == old(self).registers.tx_fifo@[i]
                &&& final(self).tx_buffer == if write_buffer is Some { write_buffer } else { old(self).tx_buffer }
                &&& final(self).rx_buffer == if read_buffer is Some { read_buffer } else { old(self).rx_buffer }
                &&& final(self).has_client == old(self).has_client
            },
    {
        // The transaction needs at least one byte and fits in the FIFOs.
        if transaction_len == 0 || transaction_len >= FIFO_LEN {
            return ReturnCode::ESIZE;
        }
        let size = (transaction_len - 1) as u32;
        let xact0 = self.registers.xact;
        let xact1 = (xact0 & !0xeu32) | 0xeu32;
        let xact2 = (xact1 & !0x7f0u32) | ((size & 0x7fu32) << 4u32);
        self.registers.xact = xact2;

        let mut tx_buf_len: usize = 0;
        let ghost fifo0 = self.registers.tx_fifo@;
        let ghost regs0 = self.registers;
        let ghost self0 = *self;
        match &write_buffer {
            Some(tx_buf) => {
                tx_buf_len = if tx_buf.len() < transaction_len {
                    tx_buf.len()
                } else {
                    transaction_len
                };
                let mut idx: usize = 0;
                while idx < tx_buf_len
                    invariant
                        idx <= tx_buf_len,
                        tx_buf_len <= tx_buf@.len(),
                        tx_buf_len <= transaction_len < FIFO_LEN,
                        self.registers.tx_fifo@.len() == FIFO_LEN,
                        fifo0.len() == FIFO_LEN,
                        self.registers.rx_fifo == regs0.rx_fifo,
                        self.registers.ctrl == regs0.ctrl,
                        self.registers.xact == regs0.xact,
                        self.registers.ictrl == regs0.ictrl,
                        self.registers.txdone == regs0.txdone,
                        self.tx_buffer == self0.tx_buffer,
                        self.rx_buffer == self0.rx_buffer,
                        self.has_client == self0.has_client,
                        self.transaction_len == self0.transaction_len,
                        self.wait_busy_clear == self0.wait_busy_clear,
                        forall|i: int| 0 <= i < idx ==> self.registers.tx_fifo@[i] == tx_buf@[i],
                        forall|i: int| idx <= i < FIFO_LEN ==> self.registers.tx_fifo@[i] == fifo0[i],
                    decreases tx_buf_len - idx,
                {
                    self.registers.tx_fifo.set(idx, tx_buf[idx]);
                    idx = idx + 1;
                }
            },
            None => {},
        }
        // Pad the FIFO for the bytes the write buffer does not supply.
        let mut idx: usize = tx_buf_len;
        while idx < transaction_len
            invariant
                tx_buf_len <= idx <= transaction_len < FIFO_LEN,
                self.registers.tx_fifo@.len() == FIFO_LEN,
                fifo0.len() == FIFO_LEN,
                self.registers.rx_fifo == regs0.rx_fifo,
                self.registers.ctrl == regs0.ctrl,
                self.registers.xact == regs0.xact,
                self.registers.ictrl == regs0.ictrl,
                self.registers.txdone == regs0.txdone,
                self.tx_buffer == self0.tx_buffer,
                self.rx_buffer == self0.rx_buffer,
                self.has_client == self0.has_client,
                self.transaction_len == self0.transaction_len,
                self.wait_busy_clear == self0.wait_busy_clear,
                write_buffer is Some ==> forall|i: int| 0 <= i < tx_buf_len ==> self.registers.tx_fifo@[i] == write_buffer->0@[i],
                write_buffer is None ==> tx_buf_len == 0,
                write_buffer matches Some(b) ==> tx_buf_len == if b@.len() < transaction_len { b@.len() as int } else { transaction_len as int },
                forall|i: int| tx_buf_len <= i < idx ==> self.registers.tx_fifo@[i] == 0xff,
                forall|i: int| idx <= i < FIFO_LEN ==> self.registers.tx_fifo@[i] == fifo0[i],
            decreases transaction_len - idx,
        {
            self.registers.tx_fifo.set(idx, 0xff);
            idx = idx + 1;
        }
        if write_buffer.is_some() {
            self.tx_buffer = write_buffer;
        }
        if read_buffer.is_some() {
            self.rx_buffer = read_buffer;
        }
        self.transaction_len = transaction_len;
        self.registers.txdone = false;
        self.registers.ictrl = self.registers.ictrl | 1;
        self.registers.xact = self.registers.xact | XACT_START;
        ReturnCode::SUCCESS
    }

    /// Starts a transaction unless the previous one's "done" interrupt is
    /// pending, in which case it is refused with `EBUSY`.
    pub fn read_write_bytes(&mut self, write_buffer: Vec<u8>, read_buffer: Option<Vec<u8>>, len: usize) -> (rc:
        ReturnCode)
        requires
            old(self).well_formed(),
        ensures
            final(self).well_formed(),
            old(self).registers.txdone ==> rc == ReturnCode::EBUSY && *final(self) == *old(self),
            !old(self).registers.txdone && (len == 0 || len >= FIFO_LEN) ==> rc == ReturnCode::ESIZE,
            !old(self).registers.txdone && 0 < len < FIFO_LEN ==> rc == ReturnCode::SUCCESS
                && final(self).tx_buffer == Some(write_buffer) && final(self).transaction_len == len,
    {
        if self.is_busy() {
            return ReturnCode::EBUSY;
        }
        self.start_transaction(Some(write_buffer), read_buffer, len)
    }

    /// Copies the received bytes of the transaction into `read_buffer`, as
    /// many as fit.
    fn read_data(&self, read_buffer: &mut Vec<u8>)
        requires
            self.well_formed(),
        ensures
            ({
                let n = if old(read_buffer)@.len() < self.transaction_len {
                    old(read_buffer)@.len() as int
                } else {
                    self.transaction_len as int
                };
                final(read_buffer)@ == self.registers.rx_fifo@.take(n) + old(read_buffer)@.skip(n)
            }),
    {
        let read_len = if read_buffer.len() < self.transaction_len {
            read_buffer.len()
        } else {
            self.transaction_len
        };
        let ghost before = read_buffer@;
        let mut idx: usize = 0;
        while idx < read_len
            invariant
                idx <= read_len,
                read_len <= before.len(),
                read_len <= self.transaction_len < FIFO_LEN,
                self.registers.rx_fifo@.len() == FIFO_LEN,
                read_buffer@.len() == before.len(),
                forall|i: int| 0 <= i < idx ==> read_buffer@[i] == self.registers.rx_fifo@[i],
                forall|i: int| idx <= i < before.len() ==> read_buffer@[i] == before[i],
            decreases read_len - idx,
        {
            read_buffer.set(idx, self.registers.rx_fifo[idx]);
            idx = idx + 1;
        }
        assert(read_buffer@ =~= self.registers.rx_fifo@.take(read_len as int) + before.skip(read_len as int));
    }

    /// Handles the controller's interrupt: when the transaction is done,
    /// the client gets the buffers back, the receive buffer filled with the
    /// received bytes. The interrupt is disabled either way.
    pub fn handle_interrupt(&mut self) -> (done: Option<ReadWriteDone>)
        requires
            old(self).well_formed(),
        ensures
            final(self).well_formed(),
            final(self).registers.ictrl == old(self).registers.ictrl & !1u32,
            !old(self).registers.txdone ==> done is None && final(self).tx_buffer == old(self).tx_buffer,
            old(self).registers.txdone && old(self).has_client && old(self).tx_buffer is Some ==> (done matches Some(d)
                && d.write_buffer == old(self).tx_buffer->0
                && d.len == old(self).transaction_len
                && final(self).tx_buffer is None
                && final(self).rx_buffer is None
                && match (old(self).rx_buffer, d.read_buffer) {
                    (Some(r0), Some(r1)) => {
                        let n = if r0@.len() < old(self).transaction_len { r0@.len() as int } else { old(self).transaction_len as int };
                        r1@ == old(self).registers.rx_fifo@.take(n) + r0@.skip(n)
                    },
                    (None, None) => true,
                    _ => false,
                }),
            old(self).registers.txdone && !(old(self).has_client && old(self).tx_buffer is Some) ==> done is None,
    {
        let mut done: Option<ReadWriteDone> = None;
        if self.registers.txdone {
            self.registers.txdone = false;
            if self.has_client {
                let mut tx: Option<Vec<u8>> = None;
                std::mem::swap(&mut tx, &mut self.tx_buffer);
                match tx {
                    Some(tx_buf) => {
                        let mut rx: Option<Vec<u8>> = None;
                        std::mem::swap(&mut rx, &mut self.rx_buffer);
                        let rx_out = match rx {
                            Some(mut rx_buf) => {
                                self.read_data(&mut rx_buf);
                                Some(rx_buf)
                            },
                            None => None,
                        };
                        done = Some(ReadWriteDone { write_buffer: tx_buf, read_buffer: rx_out, len: self.transaction_len });
                    },
                    None => {},
                }
            }
        }
        self.registers.ictrl = self.registers.ictrl & !1u32;
        done
    }
}

/// Passthrough between the SPI device and the SPI host, and waiting for
/// the flash's BUSY bit.
pub trait SpiHost {
    /// Enables or disables the passthrough from the SPI device.
    fn spi_device_spi_host_passthrough(&mut self, enable: bool);

    /// Enables or disables waiting for the BUSY bit of the connected flash
    /// to clear at the end of transactions.
    fn wait_busy_clear_in_transactions(&mut self, enable: bool);
}

impl SpiHost for SpiHostHardware {
    fn spi_device_spi_host_passthrough(&mut self, enable: bool)
        ensures
            final(self).registers.ctrl == if enable {
                old(self).registers.ctrl | CTRL_ENPASSTHRU
            } else {
                old(self).registers.ctrl & !CTRL_ENPASSTHRU
            },
            final(self).registers.xact == old(self).registers.xact,
            final(self).registers.tx_fifo == old(self).registers.tx_fifo,
            final(self).registers.rx_fifo == old(self).registers.rx_fifo,
            final(self).transaction_len == old(self).transaction_len,
    {
        if enable {
            self.registers.ctrl = self.registers.ctrl | CTRL_ENPASSTHRU;
        } else {
            self.registers.ctrl = self.registers.ctrl & !CTRL_ENPASSTHRU;
        }
    }

    fn wait_busy_clear_in_transactions(&mut self, enable: bool)
        ensures
            final(self).wait_busy_clear == enable,
            final(self).registers == old(self).registers,
            final(self).transaction_len == old(self).transaction_len,
    {
        self.wait_busy_clear = enable;
    }
}

} // verus!
