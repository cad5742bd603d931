//! System call interface of the flash: erase pages, and read and write
//! words through byte buffers that the process shares.

use vstd::prelude::*;
use crate::endian::lsb_first4;
use crate::h1::flash::{Flash, FlashOp};
use crate::return_code::ReturnCode;
use crate::syscalls::upcall::Upcall;

verus! {

/// The driver number of the flash system calls.
pub const DRIVER_NUM: usize = 0x40040;

/// Bytes in a flash word.
pub const BYTES_PER_WORD: usize = 4;

/// The little-endian bytes of a word.
pub open spec fn word_bytes(v: u32) -> Seq<u8> {
    seq![
        (v % 0x100) as u8,
        ((v / 0x100) % 0x100) as u8,
        ((v / 0x1_0000) % 0x100) as u8,
        ((v / 0x100_0000) % 0x100) as u8,
    ]
}

/// The word whose little-endian bytes are `b[k..k + 4]`.
pub open spec fn word_at(b: Seq<u8>, k: int) -> u32 {
    (b[k] + b[k + 1] * 0x100 + b[k + 2] * 0x1_0000 + b[k + 3] * 0x100_0000) as u32
}

/// Byte `i` of the little-endian encoding of `v`.
fn le_byte(v: u32, i: usize) -> (b: u8)
    requires
        i < 4,
    ensures
        b == word_bytes(v)[i as int],
{
    let shift: u32 = (i as u32) * 8;
    let b = ((v >> shift) & 0xff) as u8;
    assert(((v >> 0u32) & 0xff) as u8 == (v % 0x100) as u8 && ((v >> 8u32) & 0xff) as u8 == ((v / 0x100)
        % 0x100) as u8 && ((v >> 16u32) & 0xff) as u8 == ((v / 0x1_0000) % 0x100) as u8 && ((v >> 24u32)
        & 0xff) as u8 == ((v / 0x100_0000) % 0x100) as u8) by (bit_vector);
    b
}

/// The word whose little-endian bytes are `b0`, `b1`, `b2`, `b3`.
fn le_word(b0: u8, b1: u8, b2: u8, b3: u8) -> (w: u32)
    ensures
        w == (b0 + b1 * 0x100 + b2 * 0x1_0000 + b3 * 0x100_0000) as u32,
{
    let w = (b0 as u32) | ((b1 as u32) << 8u32) | ((b2 as u32) << 16u32) | ((b3 as u32) << 24u32);
    assert(w == (b0 + b1 * 0x100 + b2 * 0x1_0000 + b3 * 0x100_0000)) by (bit_vector)
        requires
            w == (b0 as u32) | ((b1 as u32) << 8u32) | ((b2 as u32) << 16u32) | ((b3 as u32)
                << 24u32),
    ;
    w
}

/// Stores what the flash answered for the word at byte `idx` of a read of
/// `length` bytes: the bytes of a value that lie within `length` go into
/// `buf`; `SUCCESS` without a value ends the read with `FAIL`, and an error
/// ends it with that error.
pub fn store_read_word(buf: &mut Vec<u8>, idx: usize, length: usize, result: ReturnCode) -> (r:
    Option<ReturnCode>)
    requires
        length <= old(buf)@.len(),
    ensures
        final(buf)@.len() == old(buf)@.len(),
        match result {
            ReturnCode::SuccessWithValue { value } => {
                &&& r is None
                &&& forall|j: int|
                    0 <= j < final(buf)@.len() ==> final(buf)@[j] == if idx <= j < idx + 4 && j
                        < length {
                        word_bytes(value as u32)[j - idx]
                    } else {
                        old(buf)@[j]
                    }
            },
            ReturnCode::SUCCESS => r == Some(ReturnCode::FAIL) && final(buf)@ == old(buf)@,
            _ => r == Some(result) && final(buf)@ == old(buf)@,
        },
{
    match result {
        ReturnCode::SuccessWithValue { value: read_val } => {
            let val = read_val as u32;
            let ghost before = buf@;
            let mut byte_idx: usize = 0;
            while byte_idx < 4
                invariant
                    byte_idx <= 4,
                    length <= buf@.len(),
                    buf@.len() == before.len(),
                    forall|j: int|
                        0 <= j < buf@.len() ==> buf@[j] == if idx <= j < idx + byte_idx && j
                            < length {
                            word_bytes(val)[j - idx]
                        } else {
                            before[j]
                        },
                decreases 4 - byte_idx,
            {
                if idx < length && byte_idx < length - idx {
                    let b = le_byte(val, byte_idx);
                    buf.set(idx + byte_idx, b);
                }
                byte_idx = byte_idx + 1;
            }
            None
        },
        ReturnCode::SUCCESS => {
            // A read should result in a SuccessWithValue or a failure; a plain
            // SUCCESS means something is seriously wrong.
            Some(ReturnCode::FAIL)
        },
        failure => Some(failure),
    }
}

/// The words a write of `write_len` bytes of `app_buf` hands to the flash
/// through a kernel buffer of `kernel_len` words: the whole little-endian
/// words within both `app_buf` and `write_len` bytes, as many as the kernel
/// buffer holds.
pub open spec fn packed_words(kernel_len: int, app_buf: Seq<u8>, write_len: int) -> Seq<u32> {
    let within = if app_buf.len() < write_len {
        app_buf.len() as int
    } else {
        write_len
    };
    let words = if kernel_len < within / 4 {
        kernel_len
    } else {
        within / 4
    };
    Seq::new(words as nat, |w: int| word_at(app_buf, w * 4))
}

/// Fills the first `words` words of `buffer` with the little-endian words
/// of `app_buf`, where `words` is the least of the buffer's length and the
/// number of whole words within both `app_buf` and `write_len` bytes, and
/// returns those words.
pub fn pack_words(buffer: Vec<u32>, app_buf: &[u8], write_len: usize) -> (r: Vec<u32>)
    ensures
        ({
            let within = if app_buf@.len() < write_len {
                app_buf@.len() as int
            } else {
                write_len as int
            };
            let words = if buffer@.len() < within / 4 {
                buffer@.len() as int
            } else {
                within / 4
            };
            &&& r@.len() == words
            &&& forall|w: int| 0 <= w < words ==> r@[w] == word_at(app_buf@, w * 4)
        }),
        r@ == packed_words(buffer@.len() as int, app_buf@, write_len as int),
{
    let within = if app_buf.len() < write_len {
        app_buf.len()
    } else {
        write_len
    };
    let words = if buffer.len() < within / BYTES_PER_WORD {
        buffer.len()
    } else {
        within / BYTES_PER_WORD
    };
    let ghost old_len = buffer@.len();
    let mut buffer = buffer;
    let mut word: usize = 0;
    while word < words
        invariant
            words <= buffer@.len(),
            words * 4 <= within,
            within <= app_buf@.len(),
            within <= write_len,
            buffer@.len() == buffer@.len(),
            word <= words,
            forall|w: int| 0 <= w < word ==> buffer@[w] == word_at(app_buf@, w * 4),
        decreases words - word,
    {
        assert(word * 4 + 4 <= words * 4) by (nonlinear_arith)
            requires
                word < words,
        ;
        let offset = word * BYTES_PER_WORD;
        let v = le_word(app_buf[offset], app_buf[offset + 1], app_buf[offset + 2], app_buf[offset + 3]);
        buffer.set(word, v);
        word = word + 1;
    }
    buffer.truncate(words);
    assert(buffer@ =~= packed_words(old_len as int, app_buf@, write_len as int));
    buffer
}

/// The bytes that a read stores for a word are the bytes that a write packs
/// back into the same word.
pub proof fn lemma_word_bytes_roundtrip(v: u32)
    ensures
        word_at(word_bytes(v), 0) == v,
{
    let b = word_bytes(v);
    assert(b[0] + b[1] * 0x100 + b[2] * 0x1_0000 + b[3] * 0x100_0000 == v) by (nonlinear_arith)
        requires
            b[0] == v % 0x100,
            b[1] == (v / 0x100) % 0x100,
            b[2] == (v / 0x1_0000) % 0x100,
            b[3] == (v / 0x100_0000) % 0x100,
            v < 0x1_0000_0000,
    ;
}

/// The number of words that hold `length` bytes.
pub open spec fn words_in(length: int) -> int {
    (length + 3) / 4
}

/// The word in a `SuccessWithValue` answer.
pub open spec fn value_of(answer: ReturnCode) -> u32 {
    match answer {
        ReturnCode::SuccessWithValue { value } => value as u32,
        _ => 0,
    }
}

/// What a read returns when the flash answers a word with `answer`, which
/// is no value: `FAIL` for a plain `SUCCESS`, else the answer.
pub open spec fn answer_code(answer: ReturnCode) -> ReturnCode {
    if answer == ReturnCode::SUCCESS {
        ReturnCode::FAIL
    } else {
        answer
    }
}

/// The flash's answers to the reads of the words that hold `length` bytes
/// from byte `offset`, word by word.
pub open spec fn read_answers<F: Flash>(device: F, offset: usize, length: int) -> Seq<ReturnCode> {
    Seq::new(words_in(length) as nat, |k: int| device.word((offset / 4 + k) as usize))
}

/// Whether the first `n` answers are all words.
pub open spec fn all_words(answers: Seq<ReturnCode>, n: int) -> bool {
    forall|k: int| 0 <= k < n ==> (#[trigger] answers[k]) is SuccessWithValue
}

/// The buffer after the words of `answers` went in: byte `j` below `length`
/// whose word is among them is byte `j % 4` of word `j / 4`; the other
/// bytes are as they were.
pub open spec fn read_into(before: Seq<u8>, length: int, answers: Seq<ReturnCode>) -> Seq<u8> {
    Seq::new(
        before.len(),
        |j: int|
            if j < length && j / 4 < answers.len() {
                word_bytes(value_of(answers[j / 4]))[j % 4]
            } else {
                before[j]
            },
    )
}

/// What the read command does with process data `before`, leaving `after`,
/// on the flash `device`: `EINVAL` off a word boundary and `ENOMEM` without
/// a read buffer, changing nothing; else it reads the words that hold the
/// least of the buffer's length and `read_len` bytes, in order, into the
/// buffer, and stops at the first answer that is no word, whose code it
/// returns (`FAIL` for a plain `SUCCESS`).
pub open spec fn read_command<F: Flash>(
    device: F,
    offset: usize,
    read_len: usize,
    before: Option<FlashAppData>,
    after: Option<FlashAppData>,
    rc: ReturnCode,
) -> bool {
    if offset % 4 != 0 {
        rc == ReturnCode::EINVAL && after == before
    } else if before is None || before->0.read_buffer is None {
        rc == ReturnCode::ENOMEM && after == before
    } else {
        let a0 = before->0;
        let b0 = a0.read_buffer->0@;
        let length = if b0.len() < read_len {
            b0.len() as int
        } else {
            read_len as int
        };
        let answers = read_answers(device, offset, length);
        &&& after matches Some(a1)
        &&& a1.write_buffer == a0.write_buffer
        &&& a1.operation_done_callback == a0.operation_done_callback
        &&& a1.read_buffer matches Some(b1)
        &&& read_outcome(answers, b0, length, b1@, rc)
    }
}

/// How a read with the flash's `answers` of `length` bytes into `before`
/// ends, with the buffer `after` and the code `rc`: all answers are words
/// and the read succeeds, or the first answer that is no word stops it
/// with its code, the words before it read in.
pub open spec fn read_outcome(answers: Seq<ReturnCode>, before: Seq<u8>, length: int, after: Seq<u8>, rc: ReturnCode) -> bool {
    ||| all_words(answers, answers.len() as int) && rc == ReturnCode::SUCCESS && after == read_into(before, length, answers)
    ||| exists|stop: int|
        #![trigger answers.take(stop)]
        0 <= stop < answers.len() && all_words(answers, stop) && !(answers[stop] is SuccessWithValue) && rc
            == answer_code(answers[stop]) && after == read_into(before, length, answers.take(stop))
}

/// What the kernel keeps for one process.
pub struct FlashAppData {
    /// The buffer with data to write.
    pub write_buffer: Option<Vec<u8>>,
    /// The buffer that receives read data.
    pub read_buffer: Option<Vec<u8>>,
    /// Called with the return code of a finished erase or write.
    pub operation_done_callback: Option<usize>,
}

impl FlashAppData {
    /// No buffers, no callback.
    pub fn new() -> (a: FlashAppData)
        ensures
            a.write_buffer is None,
            a.read_buffer is None,
            a.operation_done_callback is None,
    {
        FlashAppData { write_buffer: None, read_buffer: None, operation_done_callback: None }
    }
}

/// The callback that tells the process of a finished operation, if it
/// subscribed one.
pub open spec fn done_upcall(app: Option<FlashAppData>, rc: ReturnCode) -> Option<Upcall> {
    match app {
        Some(a) => match a.operation_done_callback {
            Some(cb) => Some(Upcall { callback: cb, arg0: rc.spec_number() as usize, arg1: 0, arg2: 0 }),
            None => None,
        },
        None => None,
    }
}

/// The callback that tells the process of a finished operation.
fn notify(app: &Option<FlashAppData>, rc: ReturnCode) -> (up: Option<Upcall>)
    ensures
        up == done_upcall(*app, rc),
{
    match app {
        Some(a) => match a.operation_done_callback {
            Some(cb) => Some(Upcall { callback: cb, arg0: rc.number() as usize, arg1: 0, arg2: 0 }),
            None => None,
        },
        None => None,
    }
}

/// The flash system call driver.
pub struct FlashSyscalls<F: Flash> {
    /// The flash.
    pub device: F,
    /// The kernel's buffer for the words of a write, while it is not lent to
    /// the flash.
    pub write_buffer: Option<Vec<u32>>,
    /// The process that receives the notifications: the first one that
    /// issued a command.
    pub current_user: Option<usize>,
}

impl<F: Flash> FlashSyscalls<F> {
    /// A driver over `device` with the kernel's write buffer `write_buffer`.
    pub fn new(device: F, write_buffer: Vec<u32>) -> (s: Self)
        ensures
            s.device == device,
            s.write_buffer == Some(write_buffer),
            s.current_user is None,
    {
        FlashSyscalls { device, write_buffer: Some(write_buffer), current_user: None }
    }

    /// Erases page `page`; the flash's answer is returned.
    fn erase(&mut self, app: &Option<FlashAppData>, page: usize) -> (rc: ReturnCode)
        ensures
            final(self).write_buffer == old(self).write_buffer,
            final(self).current_user == old(self).current_user,
            app is None ==> rc == ReturnCode::ENOMEM && final(self).device == old(self).device,
            app is Some ==> final(self).device.ops() == old(self).device.ops().push(FlashOp::Erase(page, rc)),
    {
        match app {
            Some(_) => self.device.erase(page),
            None => ReturnCode::ENOMEM,
        }
    }

    /// Reads `read_len` bytes from byte `offset` of the flash into the read
    /// buffer, word by word, as far as the buffer goes. The offset must be a
    /// word boundary. A read stops at the first word that the flash does not
    /// give (see `store_read_word`).
    fn read(&self, app: &mut Option<FlashAppData>, offset: usize, read_len: usize) -> (rc: ReturnCode)
        ensures
            read_command(self.device, offset, read_len, *old(app), *final(app), rc),
    {
        // We can only start at word boundaries.
        if offset % BYTES_PER_WORD != 0 {
            return ReturnCode::EINVAL;
        }
        let mut taken: Option<FlashAppData> = None;
        std::mem::swap(&mut taken, app);
        let a = match taken {
            Some(a) => a,
            None => {
                *app = None;
                return ReturnCode::ENOMEM;
            },
        };
        let FlashAppData { write_buffer, read_buffer, operation_done_callback } = a;
        let mut read_buffer = match read_buffer {
            Some(b) => b,
            None => {
                *app = Some(FlashAppData { write_buffer, read_buffer: None, operation_done_callback });
                return ReturnCode::ENOMEM;
            },
        };
        let length = if read_buffer.len() < read_len {
            read_buffer.len()
        } else {
            read_len
        };
        let count = length / BYTES_PER_WORD + if length % BYTES_PER_WORD != 0 {
            1
        } else {
            0
        };
        let ghost before = read_buffer@;
        let ghost answers = read_answers(self.device, offset, length as int);
        let mut rc = ReturnCode::SUCCESS;
        let mut stopped = false;
        let mut k: usize = 0;
        while k < count && !stopped
            invariant
                length <= before.len(),
                count == words_in(length as int),
                answers == read_answers(self.device, offset, length as int),
                read_buffer@.len() == before.len(),
                k <= count,
                all_words(answers, k as int),
                stopped ==> k < count && !(answers[k as int] is SuccessWithValue) && rc == answer_code(answers[k as int]),
                !stopped ==> rc == ReturnCode::SUCCESS,
                forall|j: int|
                    0 <= j < before.len() ==> #[trigger] read_buffer@[j] == if j < length && j / 4 < k {
                        word_bytes(value_of(answers[j / 4]))[j % 4]
                    } else {
                        before[j]
                    },
            decreases count - k + if stopped {
                0int
            } else {
                1int
            },
        {
            let word = offset / BYTES_PER_WORD + k;
            let result = self.device.read(word);
            assert(result == answers[k as int]);
            let idx = k * BYTES_PER_WORD;
            match store_read_word(&mut read_buffer, idx, length, result) {
                Some(code) => {
                    rc = code;
                    stopped = true;
                },
                None => {
                    assert forall|j: int| 0 <= j < before.len() implies #[trigger] read_buffer@[j] == if j
                        < length && j / 4 < k + 1 {
                        word_bytes(value_of(answers[j / 4]))[j % 4]
                    } else {
                        before[j]
                    } by {
                        if idx <= j < idx + 4 {
                            assert(j / 4 == k && j % 4 == j - idx);
                        } else {
                            assert(j / 4 != k);
                        }
                    }
                    k = k + 1;
                },
            }
        }
        proof {
            if stopped {
                let t = answers.take(k as int);
                assert forall|j: int| 0 <= j < before.len() implies read_buffer@[j] == read_into(before, length as int, t)[j] by {
                    assert(read_buffer@[j] == if j < length && j / 4 < k {
                        word_bytes(value_of(answers[j / 4]))[j % 4]
                    } else {
                        before[j]
                    });
                }
                assert(read_buffer@ =~= read_into(before, length as int, t));
                assert(answers.len() == count);
                let stop = k as int;
                assert(0 <= stop < answers.len() && all_words(answers, stop) && !(answers[stop] is SuccessWithValue)
                    && rc == answer_code(answers[stop]) && read_buffer@ == read_into(before, length as int, answers.take(stop)));
            } else {
                assert(k == count);
                assert forall|j: int| 0 <= j < before.len() implies read_buffer@[j] == read_into(before, length as int, answers)[j] by {
                    assert(read_buffer@[j] == if j < length && j / 4 < k {
                        word_bytes(value_of(answers[j / 4]))[j % 4]
                    } else {
                        before[j]
                    });
                }
                assert(read_buffer@ =~= read_into(before, length as int, answers));
                assert(answers.len() == count);
            }
        }
        *app = Some(FlashAppData { write_buffer, read_buffer: Some(read_buffer), operation_done_callback });
        proof {
            let a0 = old(app)->0;
            let b0 = a0.read_buffer->0@;
            assert(b0 == before);
            let slen = if b0.len() < read_len {
                b0.len() as int
            } else {
                read_len as int
            };
            assert(slen == length as int);
            assert(read_answers(self.device, offset, slen) == answers);
            let b1 = app->0.read_buffer->0@;
            assert(app->0.write_buffer == a0.write_buffer);
            assert(app->0.operation_done_callback == a0.operation_done_callback);
            if stopped {
                let stop = k as int;
                assert(b1 == read_into(before, length as int, answers.take(stop)));
            } else {
                assert(all_words(answers, answers.len() as int) && rc == ReturnCode::SUCCESS && b1 == read_into(b0, slen, answers));
            }
            assert(read_outcome(answers, b0, slen, b1, rc));
        }
        assert(read_command(self.device, offset, read_len, *old(app), *app, rc));
        rc
    }

    /// Writes `write_len` bytes of the write buffer at byte `target` of the
    /// flash. Target and length must be whole words. The words go through
    /// the kernel's write buffer (see `pack_words`); the flash's answer is
    /// returned, and the kernel keeps what the flash hands back of its
    /// buffer.
    fn write(&mut self, app: &Option<FlashAppData>, target: usize, write_len: usize) -> (rc:
        ReturnCode)
        ensures
            final(self).current_user == old(self).current_user,
            target % 4 != 0 || write_len % 4 != 0 ==> rc == ReturnCode::EINVAL && *final(self) == *old(self),
            target % 4 == 0 && write_len % 4 == 0 && (*app is None || app->0.write_buffer is None)
                ==> rc == ReturnCode::ENOMEM && *final(self) == *old(self),
            target % 4 == 0 && write_len % 4 == 0 && *app is Some && app->0.write_buffer is Some
                && old(self).write_buffer is None ==> rc == ReturnCode::ENOMEM && *final(self) == *old(self),
            target % 4 == 0 && write_len % 4 == 0 && *app is Some && app->0.write_buffer is Some
                && old(self).write_buffer is Some ==> final(self).device.ops() == old(self).device.ops().push(
                FlashOp::Write(
                    target / 4,
                    packed_words(old(self).write_buffer->0@.len() as int, app->0.write_buffer->0@, write_len as int),
                    rc,
                ),
            ),
    {
        // We cannot write partial words.
        if target % BYTES_PER_WORD != 0 || write_len % BYTES_PER_WORD != 0 {
            return ReturnCode::EINVAL;
        }
        match app {
            Some(a) => match &a.write_buffer {
                Some(app_buf) => {
                    let mut taken: Option<Vec<u32>> = None;
                    std::mem::swap(&mut taken, &mut self.write_buffer);
                    match taken {
                        Some(buffer) => {
                            let data = pack_words(buffer, app_buf.as_slice(), write_len);
                            let (return_code, returned) = self.device.write(
                                target / BYTES_PER_WORD,
                                data,
                            );
                            self.write_buffer = returned;
                            return_code
                        },
                        None => {
                            self.write_buffer = None;
                            ReturnCode::ENOMEM
                        },
                    }
                },
                None => ReturnCode::ENOMEM,
            },
            None => ReturnCode::ENOMEM,
        }
    }

    /// Handles a command of a process. The first process that issues a
    /// command becomes the current user, which receives the notifications.
    /// The commands: 0 checks that the driver is present; 1 erases page
    /// `arg1`; 2 writes `arg2` bytes at byte `arg1`; 3 reads `arg2` bytes from
    /// byte `arg1`.
    pub fn command(
        &mut self,
        command_num: usize,
        arg1: usize,
        arg2: usize,
        caller_id: usize,
        app: &mut Option<FlashAppData>,
    ) -> (rc: ReturnCode)
        ensures
            final(self).current_user == (if old(self).current_user is None {
                Some(caller_id)
            } else {
                old(self).current_user
            }),
            command_num != 3 ==> *final(app) == *old(app),
            command_num == 0 ==> rc == ReturnCode::SUCCESS && final(self).device == old(self).device,
            command_num > 3 ==> rc == ReturnCode::ENOSUPPORT && final(self).device == old(self).device,
            command_num == 0 || command_num >= 3 ==> final(self).device == old(self).device,
            command_num == 1 && *old(app) is None ==> rc == ReturnCode::ENOMEM && final(self).device == old(self).device,
            command_num == 1 && *old(app) is Some ==> final(self).device.ops() == old(self).device.ops().push(
                FlashOp::Erase(arg1, rc),
            ),
            command_num == 2 && arg1 % 4 == 0 && arg2 % 4 == 0 && (*old(app) is None || old(app)->0.write_buffer is None
                || old(self).write_buffer is None) ==> rc == ReturnCode::ENOMEM && final(self).device == old(self).device,
            command_num == 2 && arg1 % 4 == 0 && arg2 % 4 == 0 && *old(app) is Some && old(app)->0.write_buffer is Some
                && old(self).write_buffer is Some ==> final(self).device.ops() == old(self).device.ops().push(
                FlashOp::Write(
                    arg1 / 4,
                    packed_words(old(self).write_buffer->0@.len() as int, old(app)->0.write_buffer->0@, arg2 as int),
                    rc,
                ),
            ),
            command_num == 2 && (arg1 % 4 != 0 || arg2 % 4 != 0) ==> rc == ReturnCode::EINVAL,
            command_num == 3 ==> read_command(old(self).device, arg1, arg2, *old(app), *final(app), rc),
    {
        if self.current_user.is_none() {
            self.current_user = Some(caller_id);
        }
        match command_num {
            0 => ReturnCode::SUCCESS,
            1 => self.erase(app, arg1),
            2 => self.write(app, arg1, arg2),
            3 => self.read(app, arg1, arg2),
            _ => ReturnCode::ENOSUPPORT,
        }
    }

    /// Subscribes the callback for finished operations (number 0).
    pub fn subscribe(&self, subscribe_num: usize, callback: Option<usize>, app: &mut Option<FlashAppData>) -> (rc:
        ReturnCode)
        ensures
            subscribe_num != 0 ==> rc == ReturnCode::ENOSUPPORT && *final(app) == *old(app),
            subscribe_num == 0 && *old(app) is None ==> rc == ReturnCode::ENOMEM && *final(app)
                is None,
            subscribe_num == 0 && *old(app) is Some ==> rc == ReturnCode::SUCCESS && *final(app)
                == Some(FlashAppData { operation_done_callback: callback, ..old(app)->0 }),
    {
        if subscribe_num != 0 {
            return ReturnCode::ENOSUPPORT;
        }
        let mut taken: Option<FlashAppData> = None;
        std::mem::swap(&mut taken, app);
        match taken {
            Some(mut a) => {
                a.operation_done_callback = callback;
                *app = Some(a);
                ReturnCode::SUCCESS
            },
            None => {
                *app = None;
                ReturnCode::ENOMEM
            },
        }
    }

    /// Shares a buffer: 0 for the write buffer, 1 for the read buffer.
    pub fn allow(&self, minor_num: usize, slice: Option<Vec<u8>>, app: &mut Option<FlashAppData>) -> (rc:
        ReturnCode)
        ensures
            minor_num > 1 ==> rc == ReturnCode::ENOSUPPORT && *final(app) == *old(app),
            minor_num <= 1 && *old(app) is None ==> rc == ReturnCode::FAIL && *final(app) is None,
            minor_num == 0 && *old(app) is Some ==> rc == ReturnCode::SUCCESS && *final(app)
                == Some(FlashAppData { write_buffer: slice, ..old(app)->0 }),
            minor_num == 1 && *old(app) is Some ==> rc == ReturnCode::SUCCESS && *final(app)
                == Some(FlashAppData { read_buffer: slice, ..old(app)->0 }),
    {
        if minor_num > 1 {
            return ReturnCode::ENOSUPPORT;
        }
        let mut taken: Option<FlashAppData> = None;
        std::mem::swap(&mut taken, app);
        match taken {
            Some(mut a) => {
                if minor_num == 0 {
                    a.write_buffer = slice;
                } else {
                    a.read_buffer = slice;
                }
                *app = Some(a);
                ReturnCode::SUCCESS
            },
            None => {
                *app = None;
                ReturnCode::FAIL
            },
        }
    }

    /// Handles a finished erase: the current user, if any, is called back
    /// with the code (`app` is its data).
    pub fn erase_done(&self, return_code: ReturnCode, app: &Option<FlashAppData>) -> (up: Option<
        Upcall,
    >)
        ensures
            up == (if self.current_user is Some {
                done_upcall(*app, return_code)
            } else {
                None
            }),
    {
        if self.current_user.is_none() {
            return None;
        }
        notify(app, return_code)
    }

    /// Handles a finished write: the kernel gets its buffer back and the
    /// current user, if any, is called back with the code.
    pub fn write_done(&mut self, write_buffer: Vec<u32>, return_code: ReturnCode, app: &Option<FlashAppData>) -> (up:
        Option<Upcall>)
        ensures
            final(self).write_buffer == Some(write_buffer),
            final(self).device == old(self).device,
            final(self).current_user == old(self).current_user,
            up == (if old(self).current_user is Some {
                done_upcall(*app, return_code)
            } else {
                None
            }),
    {
        self.write_buffer = Some(write_buffer);
        if self.current_user.is_none() {
            return None;
        }
        notify(app, return_code)
    }
}


/// Flash words travel to and from the process buffers least significant
/// byte first: a word's bytes are its four bytes from the least significant
/// one, and the word packed from such bytes is the word.
pub proof fn lemma_word_bytes_little_endian(v: u32)
    ensures
        word_bytes(v) == lsb_first4(v),
        word_at(lsb_first4(v), 0) == v,
{
    assert(word_bytes(v) =~= lsb_first4(v));
    lemma_word_bytes_roundtrip(v);
}

} // verus!
