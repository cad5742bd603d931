//! Flash driver: validation of erase and write requests, the parameters of
//! the smart programming procedure that carries them out, and the splitting
//! of long writes into chunks.
//!
//! The smart programming procedure itself runs against the hardware outside
//! this library: the driver asks for it through `FlashImpl::program`, and is
//! told, each time the alarm fires, whether it finished and with which code.

use vstd::prelude::*;
use crate::return_code::ReturnCode;

verus! {

/// Maximum single write is 32 words.
pub const MAX_WRITE_SIZE: usize = 32;

/// 64ki words per bank.
pub const WORDS_PER_BANK: usize = 0x10000;

/// Words in a flash page (2 KiB pages).
pub const WORDS_PER_PAGE: usize = 512;

/// Op code of an erase.
pub const ERASE_OPCODE: u32 = 0x31415927;

/// Op code of a write.
pub const WRITE_OPCODE: u32 = 0x27182818;

/// A flash bank.
#[derive(Clone, Copy, PartialEq, Eq, Structural, Debug)]
pub enum Bank {
    /// The first bank.
    Zero,
    /// The second bank.
    One,
}

/// The bank that holds word `target`, if any.
pub open spec fn bank_of(target: int) -> Option<Bank> {
    if 0 <= target < WORDS_PER_BANK {
        Some(Bank::Zero)
    } else if WORDS_PER_BANK <= target < 2 * WORDS_PER_BANK {
        Some(Bank::One)
    } else {
        None
    }
}

/// Returns the bank that holds word `target`, if any.
pub fn get_bank_from_target(target: usize) -> (b: Option<Bank>)
    ensures
        b == bank_of(target as int),
{
    if target < WORDS_PER_BANK {
        Some(Bank::Zero)
    } else if target < 2 * WORDS_PER_BANK {
        Some(Bank::One)
    } else {
        None
    }
}

/// An erase or write handed to a flash, with the flash's answer.
pub enum FlashOp {
    /// An erase of the page.
    Erase(usize, ReturnCode),
    /// A write of the words at the word offset.
    Write(usize, Seq<u32>, ReturnCode),
}

/// The flash interface that the drivers above this one use. A flash keeps
/// the record `ops` of the erases and writes handed to it, with its
/// answers, and answers a read of a word as `word` says; what the answers
/// are is the flash's business. Every implementation is held to this
/// contract: those in this library are verified against it, others are
/// trusted to keep it.
pub trait Flash {
    /// The erases and writes handed to the flash so far, with its answers.
    spec fn ops(&self) -> Seq<FlashOp>;

    /// The answer of the flash to a read of word `word`.
    spec fn word(&self, word: usize) -> ReturnCode;

    /// Starts erasing page `page`.
    fn erase(&mut self, page: usize) -> (rc: ReturnCode)
        ensures
            final(self).ops() == old(self).ops().push(FlashOp::Erase(page, rc)),
    ;

    /// Reads word `word`: `SuccessWithValue` with the word, or an error.
    fn read(&self, word: usize) -> (rc: ReturnCode)
        ensures
            rc == self.word(word),
    ;

    /// Starts writing `data` at word `target`; hands the data back when the
    /// write does not start.
    fn write(&mut self, target: usize, data: Vec<u32>) -> (r: (ReturnCode, Option<Vec<u32>>))
        ensures
            final(self).ops() == old(self).ops().push(FlashOp::Write(target, data@, r.0)),
    ;
}

/// A flash kept in memory, for running the drivers on a host: it answers
/// reads from its words, keeps the erases and writes it is handed, and
/// answers them with fixed codes; a write that it does not take (any code
/// but `SUCCESS`) hands the data back.
pub struct MemoryFlash {
    /// The words, from word 0.
    pub words: Vec<u32>,
    /// The answer to every erase.
    pub erase_answer: ReturnCode,
    /// The answer to every write.
    pub write_answer: ReturnCode,
    /// The pages handed to erases, in order.
    pub erased: Vec<usize>,
    /// The targets and data handed to writes, in order.
    pub written: Vec<(usize, Vec<u32>)>,
    /// The record of the erases and writes with their answers.
    pub log: Ghost<Seq<FlashOp>>,
}

impl MemoryFlash {
    /// A flash holding `words`, answering erases and writes with the codes.
    pub fn new(words: Vec<u32>, erase_answer: ReturnCode, write_answer: ReturnCode) -> (f: Self)
        ensures
            f.words@ == words@,
            f.erase_answer == erase_answer,
            f.write_answer == write_answer,
            f.erased@.len() == 0,
            f.written@.len() == 0,
            f.log@.len() == 0,
    {
        MemoryFlash { words, erase_answer, write_answer, erased: Vec::new(), written: Vec::new(), log: Ghost(Seq::empty()) }
    }
}

impl Flash for MemoryFlash {
    open spec fn ops(&self) -> Seq<FlashOp> {
        self.log@
    }

    open spec fn word(&self, word: usize) -> ReturnCode {
        if word < self.words@.len() {
            ReturnCode::SuccessWithValue { value: self.words@[word as int] as usize }
        } else {
            ReturnCode::EINVAL
        }
    }

    fn erase(&mut self, page: usize) -> (rc: ReturnCode) {
        self.erased.push(page);
        let rc = self.erase_answer;
        self.log = Ghost(self.log@.push(FlashOp::Erase(page, rc)));
        rc
    }

    fn read(&self, word: usize) -> (rc: ReturnCode) {
        if word < self.words.len() {
            ReturnCode::SuccessWithValue { value: self.words[word] as usize }
        } else {
            ReturnCode::EINVAL
        }
    }

    fn write(&mut self, target: usize, data: Vec<u32>) -> (r: (ReturnCode, Option<Vec<u32>>)) {
        let rc = self.write_answer;
        self.log = Ghost(self.log@.push(FlashOp::Write(target, data@, rc)));
        self.written.push((target, data.clone()));
        match rc {
            ReturnCode::SUCCESS => (rc, None),
            _ => (rc, Some(data)),
        }
    }
}

/// A run of the smart programming procedure.
#[derive(Clone, Copy, PartialEq, Eq, Structural, Debug)]
pub struct SmartProgram {
    /// Erase or write.
    pub opcode: u32,
    /// How many programming pulses may be tried.
    pub max_attempts: u8,
    /// Whether a final pulse is needed after success.
    pub final_pulse_needed: bool,
    /// Timeout of one pulse.
    pub timeout_nanoseconds: u32,
    /// The bank.
    pub bank: Bank,
    /// The target word within the bank.
    pub bank_target: usize,
    /// Number of words.
    pub size: usize,
}

/// The smart programming run of an erase at `bank_target` of `bank`.
pub open spec fn erase_program(bank: Bank, bank_target: usize) -> SmartProgram {
    SmartProgram {
        opcode: ERASE_OPCODE,
        max_attempts: 45,
        final_pulse_needed: false,
        timeout_nanoseconds: 3_353_267,
        bank,
        bank_target,
        size: 1,
    }
}

/// The smart programming run of a write of `len` words at `bank_target` of
/// `bank`.
pub open spec fn write_program(bank: Bank, bank_target: usize, len: usize) -> SmartProgram {
    SmartProgram {
        opcode: WRITE_OPCODE,
        max_attempts: 8,
        final_pulse_needed: true,
        timeout_nanoseconds: (48734 + len * 3734) as u32,
        bank,
        bank_target,
        size: len,
    }
}

/// What happened when the alarm fired.
pub enum AlarmOutcome {
    /// No operation was in progress.
    Idle,
    /// The operation goes on.
    Running,
    /// The operation finished but nobody is told.
    NoClient,
    /// A write finished: the data goes back to the client with the code.
    WriteDone(Vec<u32>, ReturnCode),
    /// An erase finished with the code.
    EraseDone(ReturnCode),
    /// A chunk of a write finished and the next one started.
    NextChunk,
}

/// The flash driver.
pub struct FlashImpl {
    /// The data of the write in progress.
    pub write_data: Option<Vec<u32>>,
    /// Offset of the current chunk in `write_data`.
    pub write_pos: usize,
    /// Length of the first chunk.
    pub write_len: usize,
    /// Bank of the operation.
    pub write_bank: Bank,
    /// Target address within the bank.
    pub write_bank_target: usize,
    /// The data handed to the hardware for the current chunk.
    pub hw_write_data: Vec<u32>,
    /// The smart programming run in progress, if any.
    pub program: Option<SmartProgram>,
    /// Op code of the last operation.
    pub opcode: u32,
    /// Whether a client is set.
    pub has_client: bool,
}

impl FlashImpl {
    /// The driver's invariant: a write in progress has its data, and the
    /// data is at most one write long.
    pub open spec fn well_formed(&self) -> bool {
        &&& (self.program is Some && self.opcode == WRITE_OPCODE) ==> self.write_data is Some
        &&& self.write_data matches Some(d) ==> d@.len() <= MAX_WRITE_SIZE
        &&& self.write_bank_target < WORDS_PER_BANK
        &&& self.write_len <= MAX_WRITE_SIZE
        &&& self.write_pos <= MAX_WRITE_SIZE
    }

    /// A driver with no operation in progress and no client.
    pub fn new() -> (f: FlashImpl)
        ensures
            f.well_formed(),
            f.program is None,
            f.write_data is None,
            !f.has_client,
            f.write_pos == 0,
            f.write_len == 0,
            f.write_bank == Bank::Zero,
            f.write_bank_target == 0,
            f.hw_write_data@.len() == 0,
            f.opcode == 0,
    {
        FlashImpl {
            write_data: None,
            write_pos: 0,
            write_len: 0,
            write_bank: Bank::Zero,
            write_bank_target: 0,
            hw_write_data: Vec::new(),
            program: None,
            opcode: 0,
            has_client: false,
        }
    }

    /// Sets the client.
    pub fn set_client(&mut self)
        ensures
            *final(self) == (FlashImpl { has_client: true, ..*old(self) }),
    {
        self.has_client = true;
    }

    /// Whether an operation is in progress.
    pub fn program_in_progress(&self) -> (b: bool)
        ensures
            b == self.program is Some,
    {
        self.program.is_some()
    }

    /// Starts erasing `page`. Refused with `EBUSY` while an operation is in
    /// progress and with `EINVAL` for a page outside both banks.
    pub fn erase(&mut self, page: usize) -> (rc: ReturnCode)
        requires
            old(self).well_formed(),
        ensures
            final(self).well_formed(),
            old(self).program is Some ==> rc == ReturnCode::EBUSY && *final(self) == *old(self),
            old(self).program is None && bank_of(page * WORDS_PER_PAGE) is None ==> rc
                == ReturnCode::EINVAL && *final(self) == *old(self),
            old(self).program is None && bank_of(page * WORDS_PER_PAGE) is Some ==> {
                let bank = bank_of(page * WORDS_PER_PAGE)->0;
                let bank_target = ((page * WORDS_PER_PAGE) % (WORDS_PER_BANK as int)) as usize;
                &&& rc == ReturnCode::SUCCESS
                &&& *final(self) == (FlashImpl {
                    write_bank: bank,
                    write_bank_target: bank_target,
                    program: Some(erase_program(bank, bank_target)),
                    opcode: ERASE_OPCODE,
                    ..*old(self)
                })
            },
    {
        if self.program_in_progress() {
            return ReturnCode::EBUSY;
        }
        let target: usize = match page.checked_mul(WORDS_PER_PAGE) {
            Some(t) => t,
            None => return ReturnCode::EINVAL,
        };
        let bank = match get_bank_from_target(target) {
            Some(b) => b,
            None => return ReturnCode::EINVAL,
        };
        self.write_bank = bank;
        self.write_bank_target = target % WORDS_PER_BANK;
        self.program = Some(
            SmartProgram {
                opcode: ERASE_OPCODE,
                max_attempts: 45,
                final_pulse_needed: false,
                timeout_nanoseconds: 3_353_267,
                bank,
                bank_target: self.write_bank_target,
                size: 1,
            },
        );
        self.opcode = ERASE_OPCODE;
        ReturnCode::SUCCESS
    }

    /// Starts writing `data` at word `target`. Refused, with the data handed
    /// back, with `ESIZE` for more than `MAX_WRITE_SIZE` words, with `EBUSY`
    /// while an operation is in progress and with `EINVAL` for a target
    /// outside both banks.
    pub fn write(&mut self, target: usize, data: Vec<u32>) -> (r: (ReturnCode, Option<Vec<u32>>))
        requires
            old(self).well_formed(),
        ensures
            final(self).well_formed(),
            data@.len() > MAX_WRITE_SIZE ==> r.0 == ReturnCode::ESIZE && r.1 == Some(data)
                && *final(self) == *old(self),
            data@.len() <= MAX_WRITE_SIZE && old(self).program is Some ==> r.0 == ReturnCode::EBUSY
                && r.1 == Some(data) && *final(self) == *old(self),
            data@.len() <= MAX_WRITE_SIZE && old(self).program is None && bank_of(target as int)
                is None ==> r.0 == ReturnCode::EINVAL && r.1 == Some(data) && *final(self)
                == *old(self),
            data@.len() <= MAX_WRITE_SIZE && old(self).program is None && bank_of(target as int)
                is Some ==> {
                let bank = bank_of(target as int)->0;
                let bank_target = target % WORDS_PER_BANK;
                &&& r.0 == ReturnCode::SUCCESS
                &&& r.1 is None
                &&& final(self).hw_write_data@ == data@
                &&& *final(self) == (FlashImpl {
                    write_data: Some(data),
                    write_pos: 0,
                    write_len: data.len(),
                    write_bank: bank,
                    write_bank_target: bank_target,
                    hw_write_data: final(self).hw_write_data,
                    program: Some(write_program(bank, bank_target, data.len())),
                    opcode: WRITE_OPCODE,
                    ..*old(self)
                })
            },
    {
        let write_len = if data.len() < MAX_WRITE_SIZE {
            data.len()
        } else {
            MAX_WRITE_SIZE
        };
        if data.len() > MAX_WRITE_SIZE {
            return (ReturnCode::ESIZE, Some(data));
        }
        if self.program_in_progress() {
            return (ReturnCode::EBUSY, Some(data));
        }
        let bank = match get_bank_from_target(target) {
            Some(b) => b,
            None => return (ReturnCode::EINVAL, Some(data)),
        };
        self.write_pos = 0;
        self.write_bank = bank;
        self.write_bank_target = target % WORDS_PER_BANK;
        self.write_len = write_len;
        self.hw_write_data = copy_range(&data, 0, write_len);
        assert(data@.subrange(0, write_len as int) =~= data@);
        self.write_data = Some(data);
        self.program = Some(
            SmartProgram {
                opcode: WRITE_OPCODE,
                max_attempts: 8,
                final_pulse_needed: true,
                timeout_nanoseconds: 48734 + write_len as u32 * 3734,
                bank,
                bank_target: self.write_bank_target,
                size: write_len,
            },
        );
        self.opcode = WRITE_OPCODE;
        (ReturnCode::SUCCESS, None)
    }

    /// Handles the alarm. `step` is what the step of the smart programming
    /// procedure reported: `None` while it goes on, or its final code. A
    /// finished erase is reported to the client; a finished write too,
    /// unless it failed or more data remains, in which case the next chunk
    /// of at most `MAX_WRITE_SIZE` words starts.
    pub fn alarm(&mut self, step: Option<ReturnCode>) -> (out: AlarmOutcome)
        requires
            old(self).well_formed(),
        ensures
            final(self).well_formed(),
            alarm_post(*old(self), *final(self), step, out),
    {
        if self.program.is_none() {
            return AlarmOutcome::Idle;
        }
        let code = match step {
            None => return AlarmOutcome::Running,
            Some(c) => c,
        };
        self.program = None;
        if !self.has_client {
            return AlarmOutcome::NoClient;
        }
        if self.opcode == WRITE_OPCODE {
            let subwrite_end = self.write_pos + self.write_len;
            let fullwrite_end = match &self.write_data {
                Some(d) => d.len(),
                None => 0,
            };
            let failed = match code {
                ReturnCode::SUCCESS => false,
                _ => true,
            };
            if subwrite_end >= fullwrite_end || failed {
                let mut taken: Option<Vec<u32>> = None;
                std::mem::swap(&mut taken, &mut self.write_data);
                match taken {
                    Some(d) => AlarmOutcome::WriteDone(d, code),
                    None => AlarmOutcome::Idle,
                }
            } else {
                let rest = fullwrite_end - subwrite_end;
                let next_len = if MAX_WRITE_SIZE < rest {
                    MAX_WRITE_SIZE
                } else {
                    rest
                };
                let next_end = subwrite_end + next_len;
                let target = self.write_bank_target + subwrite_end;
                self.write_pos = subwrite_end;
                match &self.write_data {
                    Some(d) => {
                        self.hw_write_data = copy_range(d, subwrite_end, next_end);
                    },
                    None => {},
                }
                self.program = Some(
                    SmartProgram {
                        opcode: WRITE_OPCODE,
                        max_attempts: 8,
                        final_pulse_needed: true,
                        timeout_nanoseconds: 48734 + next_len as u32 * 3734,
                        bank: self.write_bank,
                        bank_target: target,
                        size: next_len,
                    },
                );
                self.opcode = WRITE_OPCODE;
                AlarmOutcome::NextChunk
            }
        } else {
            AlarmOutcome::EraseDone(code)
        }
    }
}

/// What handling the alarm does.
pub open spec fn alarm_post(f0: FlashImpl, f1: FlashImpl, step: Option<ReturnCode>, out: AlarmOutcome) -> bool {
    if f0.program is None {
        out is Idle && f1 == f0
    } else if step is None {
        out is Running && f1 == f0
    } else {
        let code = step->0;
        let stopped = FlashImpl { program: None, ..f0 };
        if !f0.has_client {
            out is NoClient && f1 == stopped
        } else if f0.opcode == WRITE_OPCODE {
            let full = f0.write_data->0@.len();
            let end = f0.write_pos + f0.write_len;
            if end >= full || code != ReturnCode::SUCCESS {
                &&& out matches AlarmOutcome::WriteDone(d, c) && d == f0.write_data->0 && c == code
                &&& f1 == FlashImpl { write_data: None, ..stopped }
            } else {
                let next_len = if MAX_WRITE_SIZE < full - end {
                    MAX_WRITE_SIZE as int
                } else {
                    full - end
                };
                &&& out is NextChunk
                &&& f1.hw_write_data@ == f0.write_data->0@.subrange(end, end + next_len)
                &&& f1 == FlashImpl {
                    write_pos: end as usize,
                    hw_write_data: f1.hw_write_data,
                    program: Some(
                        write_program(
                            f0.write_bank,
                            (f0.write_bank_target + end) as usize,
                            next_len as usize,
                        ),
                    ),
                    ..f0
                }
            }
        } else {
            out matches AlarmOutcome::EraseDone(c) && c == code && f1 == stopped
        }
    }
}

/// Copies words `start..end` of `data`.
fn copy_range(data: &Vec<u32>, start: usize, end: usize) -> (r: Vec<u32>)
    requires
        start <= end <= data@.len(),
    ensures
        r@ == data@.subrange(start as int, end as int),
{
    let mut r: Vec<u32> = Vec::new();
    let mut i = start;
    while i < end
        invariant
            start <= i <= end <= data@.len(),
            r@ == data@.subrange(start as int, i as int),
        decreases end - i,
    {
        r.push(data[i]);
        i = i + 1;
        assert(r@ =~= data@.subrange(start as int, i as int));
    }
    r
}

} // verus!
