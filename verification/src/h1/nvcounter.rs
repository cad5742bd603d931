//! A non-volatile counter kept in two flash pages.
//!
//! Four bits are struck in a page per count. The low page is struck for
//! every increment; when it is full (4096 counts) the increment is a
//! rollover: the high page is struck once (Rollover1, even to odd), the low
//! page is erased (Rollover2) and the high page is struck again (Rollover3,
//! odd to even). The last two steps run in the background, and the counter
//! can resume them after an interruption: an odd high count means that a
//! rollover is under way. Initialization erases the low page (Init1), then
//! the high page (Init2). The high page holds 2048 rollovers, so the largest
//! value is 4097 * 2048 + 4096 = 8394752.
//!
//! The counter decides each step from the page counts it reads and the codes
//! the flash reports. Reading counts and striking bits is the business of
//! the store (`CounterFlash`), which keeps the record `log` of the erases and
//! increments handed to it with its answers; each operation's contract says
//! what it reads, which calls it adds to that record, and what follows from
//! their answers.

use vstd::prelude::*;
use crate::h1::flash::WORDS_PER_PAGE;
use crate::return_code::ReturnCode;

verus! {

/// One of the two pages of the counter.
#[derive(Clone, Copy, PartialEq, Eq, Structural, Debug)]
pub enum Page {
    /// The page counted in units.
    Low,
    /// The page counted in half rollovers of the low page.
    High,
}

/// What the client waits for.
#[derive(Clone, Copy, PartialEq, Eq, Structural, Debug)]
pub enum Task {
    /// Setting the counter to zero.
    Initialize,
    /// Incrementing the counter.
    Increment,
}

/// A report to the client.
#[derive(Clone, Copy, PartialEq, Eq, Structural, Debug)]
pub enum CounterEvent {
    /// The initialization finished with the code.
    InitializeDone(ReturnCode),
    /// The increment finished with the code.
    IncrementDone(ReturnCode),
}

/// An erase or increment handed to the counter's store, with its answer.
pub enum StoreCall {
    /// `erase(number)` answered the code.
    Erase(usize, ReturnCode),
    /// `start_increment(page, count, ..)` answered the code, and handed the
    /// buffer back or not.
    Increment(Page, u32, ReturnCode, bool),
}

/// The flash pages of the counter and the encoding of counts in them. A
/// store answers its queries as its spec functions say and keeps the record
/// `log` of the erases and increments handed to it, with its answers; what
/// the answers are is the store's business. Every implementation is held
/// to this contract: those in this library are verified against it, others
/// are trusted to keep it.
pub trait CounterFlash {
    /// The erases and increments handed to the store so far.
    spec fn log(&self) -> Seq<StoreCall>;

    /// The number of the flash page that holds `page`.
    spec fn number(&self, page: Page) -> usize;

    /// The count recorded in `page`.
    spec fn count(&self, page: Page) -> u32;

    /// Whether `page` is erased.
    spec fn empty(&self, page: Page) -> bool;

    /// Whether the low page is full.
    spec fn low_full(&self) -> bool;

    /// Number of the flash page that holds `page`.
    fn page_number(&self, page: Page) -> (n: usize)
        ensures
            n == self.number(page),
    ;

    /// Starts erasing the flash page `page_number`.
    fn erase(&mut self, page_number: usize) -> (rc: ReturnCode)
        ensures
            final(self).log() == old(self).log().push(StoreCall::Erase(page_number, rc)),
    ;

    /// The count recorded in `page`.
    fn read_page_count(&self, page: Page) -> (c: u32)
        ensures
            c == self.count(page),
    ;

    /// Starts recording one more than `count` in `page`, using `buffer`;
    /// hands the buffer back when the write does not start. `ESIZE` means
    /// that the page is full.
    fn start_increment(&mut self, page: Page, count: u32, buffer: Vec<u32>) -> (r: (ReturnCode, Option<Vec<u32>>))
        ensures
            final(self).log() == old(self).log().push(StoreCall::Increment(page, count, r.0, r.1 is Some)),
    ;

    /// Whether `page` is erased.
    fn page_empty(&self, page: Page) -> (b: bool)
        ensures
            b == self.empty(page),
    ;

    /// Whether the low page is full.
    fn low_page_full(&self) -> (b: bool)
        ensures
            b == self.low_full(),
    ;
}

/// Counter pages kept in memory, for running the counter on a host: the
/// low page is flash page 0 and the high page flash page 1; a page is empty
/// when its count is zero; erases and increments are kept and answered with
/// fixed codes, and an increment that does not start (any code but
/// `SUCCESS`) hands the buffer back.
pub struct MemoryCounterFlash {
    /// The count of the high page.
    pub high_count: u32,
    /// The count of the low page.
    pub low_count: u32,
    /// Whether the low page is full.
    pub low_full: bool,
    /// The answer to every erase.
    pub erase_answer: ReturnCode,
    /// The answer to every increment.
    pub increment_answer: ReturnCode,
    /// The flash pages handed to erases, in order.
    pub erased: Vec<usize>,
    /// The pages and counts handed to increments, in order.
    pub increments: Vec<(Page, u32)>,
    /// The record of the erases and increments with their answers.
    pub record: Ghost<Seq<StoreCall>>,
}

impl MemoryCounterFlash {
    /// Pages with the counts, answering erases and increments with `SUCCESS`.
    pub fn new(high_count: u32, low_count: u32) -> (f: Self)
        ensures
            f.high_count == high_count,
            f.low_count == low_count,
            !f.low_full,
            f.erase_answer == ReturnCode::SUCCESS,
            f.increment_answer == ReturnCode::SUCCESS,
            f.erased@.len() == 0,
            f.increments@.len() == 0,
            f.record@.len() == 0,
    {
        MemoryCounterFlash {
            high_count,
            low_count,
            low_full: false,
            erase_answer: ReturnCode::SUCCESS,
            increment_answer: ReturnCode::SUCCESS,
            erased: Vec::new(),
            increments: Vec::new(),
            record: Ghost(Seq::empty()),
        }
    }
}

impl CounterFlash for MemoryCounterFlash {
    open spec fn log(&self) -> Seq<StoreCall> {
        self.record@
    }

    open spec fn number(&self, page: Page) -> usize {
        match page {
            Page::Low => 0,
            Page::High => 1,
        }
    }

    open spec fn count(&self, page: Page) -> u32 {
        match page {
            Page::Low => self.low_count,
            Page::High => self.high_count,
        }
    }

    open spec fn empty(&self, page: Page) -> bool {
        self.count(page) == 0
    }

    open spec fn low_full(&self) -> bool {
        self.low_full
    }

    fn page_number(&self, page: Page) -> (n: usize) {
        match page {
            Page::Low => 0,
            Page::High => 1,
        }
    }

    fn erase(&mut self, page_number: usize) -> (rc: ReturnCode) {
        self.erased.push(page_number);
        let rc = self.erase_answer;
        self.record = Ghost(self.record@.push(StoreCall::Erase(page_number, rc)));
        rc
    }

    fn read_page_count(&self, page: Page) -> (c: u32) {
        match page {
            Page::Low => self.low_count,
            Page::High => self.high_count,
        }
    }

    fn start_increment(&mut self, page: Page, count: u32, buffer: Vec<u32>) -> (r: (ReturnCode, Option<Vec<u32>>)) {
        self.increments.push((page, count));
        let rc = self.increment_answer;
        match rc {
            ReturnCode::SUCCESS => {
                self.record = Ghost(self.record@.push(StoreCall::Increment(page, count, rc, false)));
                (rc, None)
            },
            _ => {
                self.record = Ghost(self.record@.push(StoreCall::Increment(page, count, rc, true)));
                (rc, Some(buffer))
            },
        }
    }

    fn page_empty(&self, page: Page) -> (b: bool) {
        self.read_page_count(page) == 0
    }

    fn low_page_full(&self) -> (b: bool) {
        self.low_full
    }
}

/// The counter's value for the page counts: 4097 per completed rollover
/// (two high counts) plus the low count; while a rollover is under way (odd
/// high count) the value already includes it.
pub open spec fn counter_value_spec(high_count: u32, low_count: u32) -> int {
    if high_count % 2 == 0 {
        (high_count / 2) as int * 4097 + low_count as int
    } else {
        (high_count / 2 + 1) as int * 4097
    }
}

/// The counter's value for the page counts.
pub fn counter_value(high_count: u32, low_count: u32) -> (v: u64)
    ensures
        v == counter_value_spec(high_count, low_count),
{
    let rollovers: u64 = (high_count / 2) as u64;
    if high_count % 2 == 0 {
        rollovers * 4097 + low_count as u64
    } else {
        (rollovers + 1) * 4097
    }
}

/// Each increment adds one to the value exactly once. From an even high
/// count, striking the low page (Incr1) adds one; from a full low page
/// (4096 counts), striking the high page (Rollover1) adds one; erasing the
/// low page (Rollover2) and striking the high page again (Rollover3) keep the
/// value, so an interrupted rollover reads as a finished one. Both pages
/// full is the largest value, 8394752.
pub proof fn lemma_steps_count_once(high_count: u32, low_count: u32)
    requires
        high_count % 2 == 0,
        high_count <= u32::MAX - 2,
        low_count < u32::MAX,
    ensures
        counter_value_spec(high_count, (low_count + 1) as u32) == counter_value_spec(high_count, low_count) + 1,
        counter_value_spec((high_count + 1) as u32, low_count) == counter_value_spec(high_count, 4096) + 1,
        counter_value_spec((high_count + 1) as u32, 0) == counter_value_spec((high_count + 1) as u32, low_count),
        counter_value_spec((high_count + 2) as u32, 0) == counter_value_spec((high_count + 1) as u32, low_count),
        counter_value_spec(4096, 4096) == 8394752,
{
}

/// The step an increment starts with.
#[derive(Clone, Copy, PartialEq, Eq, Structural, Debug)]
pub enum IncrementStep {
    /// Strike the low page (Incr1), or the high page once the low page
    /// turns out full (Rollover1).
    WriteLow,
    /// Erase the low page (Rollover2).
    EraseLow,
    /// Strike the high page (Rollover3).
    WriteHigh,
    /// Rollover3 is running already and holds the buffer.
    AwaitRollover3,
}

/// The step an increment starts with, for the page counts and whether the
/// write buffer is at hand. Since no operation runs, the flash is idle or
/// runs Rollover2 or Rollover3.
pub open spec fn increment_step_spec(high_count: u32, low_count: u32, buffer_available: bool) -> IncrementStep {
    if high_count % 2 == 0 {
        IncrementStep::WriteLow
    } else if low_count != 0 {
        IncrementStep::EraseLow
    } else if buffer_available {
        IncrementStep::WriteHigh
    } else {
        IncrementStep::AwaitRollover3
    }
}

/// The page counts after `step` has run from the counts `high_count` and
/// `low_count`: striking the low page adds one to its count, or, when the
/// low page is full (4096 counts), striking the high page adds one to that
/// (Rollover1); erasing the low page clears it; striking the high page adds
/// one to it; waiting for Rollover3 changes nothing yet.
pub open spec fn after_step(step: IncrementStep, high_count: int, low_count: int) -> (int, int) {
    match step {
        IncrementStep::WriteLow => if low_count < 4096 {
            (high_count, low_count + 1)
        } else {
            (high_count + 1, low_count)
        },
        IncrementStep::EraseLow => (high_count, 0),
        IncrementStep::WriteHigh => (high_count + 1, low_count),
        IncrementStep::AwaitRollover3 => (high_count, low_count),
    }
}

/// Whether the step hands the flash an operation; waiting for Rollover3,
/// which holds the write buffer, hands it none.
pub open spec fn starts_operation(step: IncrementStep) -> bool {
    !(step is AwaitRollover3)
}

/// The value the counter reads for counts given as integers.
pub open spec fn value_of_counts(counts: (int, int)) -> int {
    if counts.0 % 2 == 0 {
        (counts.0 / 2) * 4097 + counts.1
    } else {
        (counts.0 / 2 + 1) * 4097
    }
}

/// The step an increment starts with never moves the counter by more than
/// one, nor back: for counts that the pages can hold (below 4096 on the
/// high page, at most 4096 on the low page), the value after the step is
/// the value before it or one more; from an even high count it is exactly
/// one more. A rollover under way (odd high count) goes on: a low page that
/// is not empty is erased, an erased one is followed by the second strike
/// of the high page, unless that strike runs already (no write buffer at
/// hand), in which case nothing starts.
pub proof fn lemma_increment_step_moves_by_one(high_count: u32, low_count: u32, buffer_available: bool)
    requires
        high_count < 4096,
        low_count <= 4096,
    ensures
        ({
            let before = value_of_counts((high_count as int, low_count as int));
            let after = value_of_counts(
                after_step(increment_step_spec(high_count, low_count, buffer_available), high_count as int, low_count as int),
            );
            &&& before == counter_value_spec(high_count, low_count)
            &&& before <= after <= before + 1
            &&& high_count % 2 == 0 ==> after == before + 1
            &&& high_count % 2 == 1 ==> after == before
        }),
        ({
            let step = increment_step_spec(high_count, low_count, buffer_available);
            let counts = after_step(step, high_count as int, low_count as int);
            &&& high_count % 2 == 1 && low_count != 0 ==> counts == (high_count as int, 0int)
            &&& high_count % 2 == 1 && low_count == 0 && buffer_available ==> counts == (high_count + 1, 0int)
            &&& high_count % 2 == 1 && low_count == 0 && !buffer_available ==> !starts_operation(step)
        }),
{
}

/// Chooses the step an increment starts with.
pub fn increment_step(high_count: u32, low_count: u32, buffer_available: bool) -> (s: IncrementStep)
    ensures
        s == increment_step_spec(high_count, low_count, buffer_available),
{
    if high_count % 2 == 0 {
        IncrementStep::WriteLow
    } else if low_count != 0 {
        IncrementStep::EraseLow
    } else if buffer_available {
        IncrementStep::WriteHigh
    } else {
        IncrementStep::AwaitRollover3
    }
}

/// Whether a code is `SUCCESS` or `EBUSY`: the operation started or will
/// start once the current one finishes.
pub open spec fn started(code: ReturnCode) -> bool {
    code == ReturnCode::SUCCESS || code == ReturnCode::EBUSY
}

/// The answer to a read and increment whose step the flash answered with
/// `code`, with the task that follows.
pub open spec fn increment_answer(code: ReturnCode, high_count: u32, low_count: u32) -> (ReturnCode, Option<CounterEvent>, Option<Task>) {
    if started(code) {
        (
            ReturnCode::SuccessWithValue { value: counter_value_spec(high_count, low_count) as usize },
            None,
            Some(Task::Increment),
        )
    } else {
        (code, None, None)
    }
}

/// The event for the client, if there is one.
pub open spec fn to_client(has_client: bool, event: CounterEvent) -> Option<CounterEvent> {
    if has_client {
        Some(event)
    } else {
        None
    }
}

/// The code an `Erase` or `Increment` call answered.
pub open spec fn code_of(call: StoreCall) -> ReturnCode {
    match call {
        StoreCall::Erase(_, c) => c,
        StoreCall::Increment(_, _, c, _) => c,
    }
}

/// Whether an `Increment` call handed the buffer back.
pub open spec fn buffer_back(call: StoreCall) -> bool {
    match call {
        StoreCall::Increment(_, _, _, back) => back,
        _ => false,
    }
}

/// Whether the call is an erase of the flash page `number`.
pub open spec fn is_erase(call: StoreCall, number: usize) -> bool {
    call matches StoreCall::Erase(n, _) && n == number
}

/// Whether the call is an increment of `page` from `count`.
pub open spec fn is_increment(call: StoreCall, page: Page, count: u32) -> bool {
    call matches StoreCall::Increment(p, n, _, _) && p == page && n == count
}

/// Whether the record `after` is `before` with more calls added.
pub open spec fn extends(before: Seq<StoreCall>, after: Seq<StoreCall>) -> bool {
    before.len() <= after.len() && after.take(before.len() as int) == before
}

/// The calls added to the record `before` to make `after`.
pub open spec fn added(before: Seq<StoreCall>, after: Seq<StoreCall>) -> Seq<StoreCall> {
    after.skip(before.len() as int)
}

proof fn lemma_added(before: Seq<StoreCall>, more: Seq<StoreCall>)
    ensures
        extends(before, before + more),
        added(before, before + more) == more,
{
    assert((before + more).take(before.len() as int) =~= before);
    assert((before + more).skip(before.len() as int) =~= more);
}

/// What `initialize` hands the store and makes of its answer: the erase of
/// the low page's flash page (Init1).
pub open spec fn initialize_run<F: CounterFlash>(f: F, calls: Seq<StoreCall>) -> Option<(ReturnCode, Option<Task>)> {
    if calls.len() == 1 && is_erase(calls[0], f.number(Page::Low)) {
        if started(code_of(calls[0])) {
            Some((ReturnCode::SUCCESS, Some(Task::Initialize)))
        } else {
            Some((code_of(calls[0]), None))
        }
    } else {
        None
    }
}

/// What `read_and_increment` hands the store `f`, when no operation runs,
/// and makes of its answers: the step of `increment_step_spec` for the page
/// counts; when the low page is full it strikes the high page (Rollover1),
/// and when that page is full too the counter is at its largest value,
/// nothing starts and the client hears `ESIZE`.
pub open spec fn increment_run<F: CounterFlash>(f: F, buffer: bool, calls: Seq<StoreCall>, has_client: bool) -> Option<
    (ReturnCode, Option<CounterEvent>, Option<Task>),
> {
    let h = f.count(Page::High);
    let l = f.count(Page::Low);
    let n = calls.len();
    match increment_step_spec(h, l, buffer) {
        IncrementStep::AwaitRollover3 => if n == 0 {
            Some(increment_answer(ReturnCode::SUCCESS, h, l))
        } else {
            None
        },
        IncrementStep::WriteHigh => if n == 1 && is_increment(calls[0], Page::High, h) {
            Some(increment_answer(code_of(calls[0]), h, l))
        } else {
            None
        },
        IncrementStep::EraseLow => if n == 1 && is_erase(calls[0], f.number(Page::Low)) {
            Some(increment_answer(code_of(calls[0]), h, l))
        } else {
            None
        },
        IncrementStep::WriteLow => if !buffer {
            if n == 0 {
                Some((ReturnCode::FAIL, None, None))
            } else {
                None
            }
        } else if n >= 1 && is_increment(calls[0], Page::Low, l) {
            if code_of(calls[0]) != ReturnCode::ESIZE {
                if n == 1 {
                    Some(increment_answer(code_of(calls[0]), h, l))
                } else {
                    None
                }
            } else if !buffer_back(calls[0]) {
                if n == 1 {
                    Some((ReturnCode::FAIL, None, None))
                } else {
                    None
                }
            } else if n == 2 && is_increment(calls[1], Page::High, h) {
                if code_of(calls[1]) == ReturnCode::ESIZE {
                    Some(
                        (
                            ReturnCode::SuccessWithValue { value: counter_value_spec(h, l) as usize },
                            to_client(has_client, CounterEvent::IncrementDone(ReturnCode::ESIZE)),
                            None,
                        ),
                    )
                } else {
                    Some(increment_answer(code_of(calls[1]), h, l))
                }
            } else {
                None
            }
        } else {
            None
        },
    }
}

/// The event for a failed erase: it ends the task.
pub open spec fn erase_failure_event(task: Option<Task>, has_client: bool) -> Option<CounterEvent> {
    match task {
        Some(Task::Initialize) => to_client(has_client, CounterEvent::InitializeDone(ReturnCode::FAIL)),
        Some(Task::Increment) => to_client(has_client, CounterEvent::IncrementDone(ReturnCode::FAIL)),
        None => None,
    }
}

/// What `erase_done` hands the store `f` after a finished erase, and makes
/// of its answers. A failed erase hands it nothing. Init1, Init2 and
/// Rollover2 leave the low page erased: an initialization is done once the
/// high page is empty, else it erases the high page (Init2); otherwise
/// Rollover2 finished and Rollover3 strikes the high page. A write that does
/// not start hands the buffer back and ends a waiting increment.
pub open spec fn erase_run<F: CounterFlash>(
    f: F,
    task: Option<Task>,
    buffer: bool,
    has_client: bool,
    code: ReturnCode,
    calls: Seq<StoreCall>,
) -> Option<(Option<CounterEvent>, Option<Task>)> {
    let n = calls.len();
    if code != ReturnCode::SUCCESS {
        if n == 0 {
            Some((erase_failure_event(task, has_client), None))
        } else {
            None
        }
    } else if task == Some(Task::Initialize) {
        if f.empty(Page::High) {
            if n == 0 {
                Some((to_client(has_client, CounterEvent::InitializeDone(ReturnCode::SUCCESS)), None))
            } else {
                None
            }
        } else if n == 1 && is_erase(calls[0], f.number(Page::High)) {
            if code_of(calls[0]) == ReturnCode::SUCCESS {
                Some((None, Some(Task::Initialize)))
            } else {
                Some((to_client(has_client, CounterEvent::InitializeDone(code_of(calls[0]))), None))
            }
        } else {
            None
        }
    } else if !buffer {
        if n == 0 {
            Some((None, task))
        } else {
            None
        }
    } else if n == 1 && is_increment(calls[0], Page::High, f.count(Page::High)) {
        if buffer_back(calls[0]) {
            if task == Some(Task::Increment) {
                Some((to_client(has_client, CounterEvent::IncrementDone(ReturnCode::FAIL)), None))
            } else {
                Some((None, None))
            }
        } else {
            Some((None, task))
        }
    } else {
        None
    }
}

/// What `write_done` hands the store `f` after a finished write, and makes
/// of its answers. A failed write ends an increment. A waiting
/// initialization erases the low page (Init1). A waiting increment after
/// Rollover3 (low page empty) strikes the low page (Incr1); after Incr1 or
/// Rollover1 the increment is done, and after Rollover1 (low page full, odd
/// high count) Rollover2 erases the low page.
pub open spec fn write_run<F: CounterFlash>(f: F, task: Option<Task>, has_client: bool, code: ReturnCode, calls: Seq<StoreCall>) -> Option<
    (Option<CounterEvent>, Option<Task>),
> {
    let n = calls.len();
    if code != ReturnCode::SUCCESS && task == Some(Task::Increment) {
        if n == 0 {
            Some((to_client(has_client, CounterEvent::IncrementDone(code)), None))
        } else {
            None
        }
    } else if task is None {
        if n == 0 {
            Some((None, None))
        } else {
            None
        }
    } else if task == Some(Task::Initialize) {
        if n == 1 && is_erase(calls[0], f.number(Page::Low).wrapping_mul(WORDS_PER_PAGE)) {
            if code_of(calls[0]) == ReturnCode::SUCCESS {
                Some((None, Some(Task::Initialize)))
            } else {
                Some((to_client(has_client, CounterEvent::InitializeDone(code_of(calls[0]))), None))
            }
        } else {
            None
        }
    } else if f.empty(Page::Low) {
        if n == 1 && is_increment(calls[0], Page::Low, f.count(Page::Low)) {
            if code_of(calls[0]) != ReturnCode::SUCCESS {
                Some((to_client(has_client, CounterEvent::IncrementDone(code_of(calls[0]))), None))
            } else {
                Some((None, Some(Task::Increment)))
            }
        } else {
            None
        }
    } else {
        let done = Some((to_client(has_client, CounterEvent::IncrementDone(ReturnCode::SUCCESS)), None));
        if f.low_full() && f.count(Page::High) % 2 != 0 {
            if n == 1 && is_erase(calls[0], f.number(Page::Low)) {
                done
            } else {
                None
            }
        } else if n == 0 {
            done
        } else {
            None
        }
    }
}

/// The client hears of each operation once. A finished flash operation
/// that reports to the client ends the task it reports on (an increment's
/// report is an `IncrementDone`, an initialization's an `InitializeDone`),
/// and with no task waiting, finished flash operations report nothing, so
/// nothing more reaches the client until it asks again.
pub proof fn lemma_one_report_per_task<F: CounterFlash>(
    f: F,
    task: Task,
    buffer: bool,
    has_client: bool,
    code: ReturnCode,
    calls: Seq<StoreCall>,
)
    ensures
        erase_run(f, None, buffer, has_client, code, calls) matches Some((ev, t)) ==> ev is None && t is None,
        write_run(f, None, has_client, code, calls) matches Some((ev, t)) ==> ev is None && t is None,
        erase_run(f, Some(task), buffer, has_client, code, calls) matches Some((Some(e), t)) ==> t is None && match task {
            Task::Increment => e is IncrementDone,
            Task::Initialize => e is InitializeDone,
        },
        write_run(f, Some(task), has_client, code, calls) matches Some((Some(e), t)) ==> t is None && match task {
            Task::Increment => e is IncrementDone,
            Task::Initialize => e is InitializeDone,
        },
{
}

/// The steps of the counter follow one another as its pages require, for
/// every store and every answer: after Rollover1 (a successful write, low
/// page full, odd high count) the increment is reported done and the low
/// page is erased (Rollover2); after Incr1 (low page neither empty nor full)
/// it is reported done and nothing more starts; after Rollover3 with an
/// increment waiting (low page empty) the low page is struck from its count
/// (Incr1); after Rollover2 the high page is struck from its count
/// (Rollover3); after Init1 a high page that is not empty is erased (Init2);
/// and a full low page under an even high count is followed by a strike of
/// the high page (Rollover1), whose success answers the value before.
pub proof fn lemma_counter_step_order<F: CounterFlash>(
    f: F,
    has_client: bool,
    code: ReturnCode,
    back: bool,
    buffer: bool,
)
    ensures
        f.low_full() && f.count(Page::High) % 2 == 1 && !f.empty(Page::Low) ==> write_run(
            f,
            Some(Task::Increment),
            has_client,
            ReturnCode::SUCCESS,
            seq![StoreCall::Erase(f.number(Page::Low), code)],
        ) == Some((to_client(has_client, CounterEvent::IncrementDone(ReturnCode::SUCCESS)), None::<Task>)),
        !f.low_full() && !f.empty(Page::Low) ==> write_run(
            f,
            Some(Task::Increment),
            has_client,
            ReturnCode::SUCCESS,
            Seq::empty(),
        ) == Some((to_client(has_client, CounterEvent::IncrementDone(ReturnCode::SUCCESS)), None::<Task>)),
        f.empty(Page::Low) ==> write_run(
            f,
            Some(Task::Increment),
            has_client,
            ReturnCode::SUCCESS,
            seq![StoreCall::Increment(Page::Low, f.count(Page::Low), ReturnCode::SUCCESS, back)],
        ) == Some((None::<CounterEvent>, Some(Task::Increment))),
        erase_run(
            f,
            Some(Task::Increment),
            true,
            has_client,
            ReturnCode::SUCCESS,
            seq![StoreCall::Increment(Page::High, f.count(Page::High), code, false)],
        ) == Some((None::<CounterEvent>, Some(Task::Increment))),
        !f.empty(Page::High) ==> erase_run(
            f,
            Some(Task::Initialize),
            buffer,
            has_client,
            ReturnCode::SUCCESS,
            seq![StoreCall::Erase(f.number(Page::High), ReturnCode::SUCCESS)],
        ) == Some((None::<CounterEvent>, Some(Task::Initialize))),
        f.count(Page::High) % 2 == 0 && started(code) ==> increment_run(
            f,
            true,
            seq![
                StoreCall::Increment(Page::Low, f.count(Page::Low), ReturnCode::ESIZE, true),
                StoreCall::Increment(Page::High, f.count(Page::High), code, back),
            ],
            has_client,
        ) == Some(
            (
                ReturnCode::SuccessWithValue {
                    value: counter_value_spec(f.count(Page::High), f.count(Page::Low)) as usize,
                },
                None::<CounterEvent>,
                Some(Task::Increment),
            ),
        ),
{
}

fn is_started(code: ReturnCode) -> (b: bool)
    ensures
        b == started(code),
{
    match code {
        ReturnCode::SUCCESS | ReturnCode::EBUSY => true,
        _ => false,
    }
}

fn is_success(code: ReturnCode) -> (b: bool)
    ensures
        b == (code == ReturnCode::SUCCESS),
{
    match code {
        ReturnCode::SUCCESS => true,
        _ => false,
    }
}

fn is_esize(code: ReturnCode) -> (b: bool)
    ensures
        b == (code == ReturnCode::ESIZE),
{
    match code {
        ReturnCode::ESIZE => true,
        _ => false,
    }
}

proof fn lemma_grown(before: Seq<StoreCall>, after: Seq<StoreCall>, more: Seq<StoreCall>)
    requires
        after =~= before + more,
    ensures
        extends(before, after),
        added(before, after) == more,
{
    lemma_added(before, more);
}

/// The counter.
pub struct FlashCounter<F: CounterFlash> {
    /// The flash pages.
    pub flash: F,
    /// The buffer for writes, while the flash does not hold it.
    pub write_buffer: Option<Vec<u32>>,
    /// What the client waits for. While steps Rollover2 and Rollover3 run,
    /// this is what the client wants the counter to do next.
    pub task: Option<Task>,
    /// Whether a client is set.
    pub has_client: bool,
}

impl<F: CounterFlash> FlashCounter<F> {
    /// A counter over `flash` with the one-word write buffer `buffer`.
    pub fn new(buffer: Vec<u32>, flash: F) -> (c: Self)
        ensures
            c.flash == flash,
            c.write_buffer == Some(buffer),
            c.task is None,
            !c.has_client,
    {
        FlashCounter { flash, write_buffer: Some(buffer), task: None, has_client: false }
    }

    /// Sets the client.
    pub fn set_client(&mut self)
        ensures
            *final(self) == (FlashCounter { has_client: true, ..*old(self) }),
    {
        self.has_client = true;
    }

    /// Hands the write buffer to the store for an increment of `page` from
    /// `count`; the buffer is back if the store returned it.
    fn store_increment(&mut self, page: Page, count: u32) -> (code: ReturnCode)
        requires
            old(self).write_buffer is Some,
        ensures
            final(self).flash.log() == old(self).flash.log().push(
                StoreCall::Increment(page, count, code, final(self).write_buffer is Some),
            ),
            final(self).task == old(self).task,
            final(self).has_client == old(self).has_client,
    {
        let mut taken: Option<Vec<u32>> = None;
        std::mem::swap(&mut taken, &mut self.write_buffer);
        let buffer = match taken {
            Some(b) => b,
            None => Vec::new(),
        };
        let (code, returned) = self.flash.start_increment(page, count, buffer);
        self.write_buffer = returned;
        code
    }

    /// Starts setting the counter to zero (step Init1). Refused with `EBUSY`
    /// while an operation is ongoing; an erase that the flash refuses with
    /// another error is refused with that error.
    pub fn initialize(&mut self) -> (rc: ReturnCode)
        ensures
            final(self).write_buffer == old(self).write_buffer,
            final(self).has_client == old(self).has_client,
            old(self).task is Some ==> rc == ReturnCode::EBUSY && *final(self) == *old(self),
            old(self).task is None ==> extends(old(self).flash.log(), final(self).flash.log())
                && initialize_run(old(self).flash, added(old(self).flash.log(), final(self).flash.log()))
                == Some((rc, final(self).task)),
    {
        if self.task.is_some() {
            return ReturnCode::EBUSY;
        }
        let ghost log0 = self.flash.log();
        let low = self.flash.page_number(Page::Low);
        let code = self.flash.erase(low);
        proof {
            lemma_grown(log0, self.flash.log(), seq![StoreCall::Erase(low, code)]);
        }
        if is_started(code) {
            self.task = Some(Task::Initialize);
            ReturnCode::SUCCESS
        } else {
            code
        }
    }

    /// Reads the counter and starts incrementing it. Returns the value
    /// before the increment; the client hears how the increment ends. Refused
    /// with `EBUSY` while an operation is ongoing, and with the flash's error
    /// when the step that comes next cannot start. At the counter's largest
    /// value nothing starts and the client hears `ESIZE`. Steps Incr1 and
    /// Rollover1 need the write buffer; the page counts rule out that a write
    /// holds it then, and should one, the increment is refused with `FAIL`.
    pub fn read_and_increment(&mut self) -> (r: (ReturnCode, Option<CounterEvent>))
        ensures
            final(self).has_client == old(self).has_client,
            old(self).task is Some ==> r == (ReturnCode::EBUSY, None::<CounterEvent>) && *final(self) == *old(self),
            old(self).task is None ==> extends(old(self).flash.log(), final(self).flash.log()) && increment_run(
                old(self).flash,
                old(self).write_buffer is Some,
                added(old(self).flash.log(), final(self).flash.log()),
                old(self).has_client,
            ) == Some((r.0, r.1, final(self).task)),
    {
        if self.task.is_some() {
            return (ReturnCode::EBUSY, None);
        }
        let ghost log0 = self.flash.log();
        let buffer_available = self.write_buffer.is_some();
        let high_count = self.flash.read_page_count(Page::High);
        let low_count = self.flash.read_page_count(Page::Low);
        let value = counter_value(high_count, low_count);
        match increment_step(high_count, low_count, buffer_available) {
            IncrementStep::AwaitRollover3 => {
                // Rollover3 is running.
                proof {
                    lemma_grown(log0, self.flash.log(), Seq::empty());
                }
                self.task = Some(Task::Increment);
                (ReturnCode::SuccessWithValue { value: value as usize }, None)
            },
            IncrementStep::WriteHigh => {
                // Rollover3 is not running: start it.
                let code = self.store_increment(Page::High, high_count);
                proof {
                    lemma_grown(log0, self.flash.log(), seq![self.flash.log().last()]);
                }
                (self.finish_start(code, value), None)
            },
            IncrementStep::EraseLow => {
                // Rollover2 runs or must run.
                let low = self.flash.page_number(Page::Low);
                let code = self.flash.erase(low);
                proof {
                    lemma_grown(log0, self.flash.log(), seq![StoreCall::Erase(low, code)]);
                }
                (self.finish_start(code, value), None)
            },
            IncrementStep::WriteLow => {
                if self.write_buffer.is_none() {
                    proof {
                        lemma_grown(log0, self.flash.log(), Seq::empty());
                    }
                    return (ReturnCode::FAIL, None);
                }
                // Step Incr1, or Rollover1 if the low page is maxed out.
                let code = self.store_increment(Page::Low, low_count);
                let ghost first = self.flash.log().last();
                proof {
                    lemma_grown(log0, self.flash.log(), seq![first]);
                }
                if !is_esize(code) {
                    return (self.finish_start(code, value), None);
                }
                if self.write_buffer.is_none() {
                    return (ReturnCode::FAIL, None);
                }
                let high_code = self.store_increment(Page::High, high_count);
                proof {
                    lemma_grown(log0, self.flash.log(), seq![first, self.flash.log().last()]);
                }
                if is_esize(high_code) {
                    // Both pages are full: the counter is at its largest value.
                    let event = if self.has_client {
                        Some(CounterEvent::IncrementDone(ReturnCode::ESIZE))
                    } else {
                        None
                    };
                    (ReturnCode::SuccessWithValue { value: value as usize }, event)
                } else {
                    (self.finish_start(high_code, value), None)
                }
            },
        }
    }

    /// The answer to a read and increment whose step started with `code`.
    fn finish_start(&mut self, code: ReturnCode, value: u64) -> (rc: ReturnCode)
        requires
            old(self).task is None,
        ensures
            final(self).flash == old(self).flash,
            final(self).write_buffer == old(self).write_buffer,
            final(self).has_client == old(self).has_client,
            started(code) ==> rc == (ReturnCode::SuccessWithValue { value: value as usize })
                && final(self).task == Some(Task::Increment),
            !started(code) ==> rc == code && final(self).task is None,
    {
        if is_started(code) {
            self.task = Some(Task::Increment);
            ReturnCode::SuccessWithValue { value: value as usize }
        } else {
            code
        }
    }

    /// Handles a finished erase (steps Init1, Init2 and Rollover2). Any
    /// failure ends the current task and is reported to the client.
    pub fn erase_done(&mut self, code: ReturnCode) -> (ev: Option<CounterEvent>)
        ensures
            final(self).has_client == old(self).has_client,
            extends(old(self).flash.log(), final(self).flash.log()),
            erase_run(
                old(self).flash,
                old(self).task,
                old(self).write_buffer is Some,
                old(self).has_client,
                code,
                added(old(self).flash.log(), final(self).flash.log()),
            ) == Some((ev, final(self).task)),
    {
        let ghost log0 = self.flash.log();
        if !is_success(code) {
            proof {
                lemma_grown(log0, self.flash.log(), Seq::empty());
            }
            let task = self.task;
            self.task = None;
            if !self.has_client {
                return None;
            }
            return match task {
                Some(Task::Initialize) => Some(CounterEvent::InitializeDone(ReturnCode::FAIL)),
                Some(Task::Increment) => Some(CounterEvent::IncrementDone(ReturnCode::FAIL)),
                None => None,
            };
        }
        // The erase steps are Init1, Init2 and Rollover2; at their end the
        // low page is always erased.
        if let Some(Task::Initialize) = self.task {
            if self.flash.page_empty(Page::High) {
                // Initialization is done.
                proof {
                    lemma_grown(log0, self.flash.log(), Seq::empty());
                }
                self.task = None;
                if self.has_client {
                    return Some(CounterEvent::InitializeDone(ReturnCode::SUCCESS));
                }
                return None;
            }
            let high = self.flash.page_number(Page::High);
            let error = self.flash.erase(high);
            proof {
                lemma_grown(log0, self.flash.log(), seq![StoreCall::Erase(high, error)]);
            }
            if is_success(error) {
                return None;
            }
            self.task = None;
            if self.has_client {
                return Some(CounterEvent::InitializeDone(error));
            }
            return None;
        }
        // Step Rollover2 finished: run step Rollover3.
        let high_count = self.flash.read_page_count(Page::High);
        if self.write_buffer.is_none() {
            proof {
                lemma_grown(log0, self.flash.log(), Seq::empty());
            }
            return None;
        }
        let _ = self.store_increment(Page::High, high_count);
        proof {
            lemma_grown(log0, self.flash.log(), seq![self.flash.log().last()]);
        }
        if self.write_buffer.is_some() {
            let task = self.task;
            self.task = None;
            match task {
                Some(Task::Increment) => {
                    if self.has_client {
                        Some(CounterEvent::IncrementDone(ReturnCode::FAIL))
                    } else {
                        None
                    }
                },
                _ => None,
            }
        } else {
            None
        }
    }

    /// Handles a finished write (steps Incr1, Rollover1 and Rollover3): the
    /// buffer comes back.
    pub fn write_done(&mut self, data: Vec<u32>, code: ReturnCode) -> (ev: Option<CounterEvent>)
        ensures
            final(self).has_client == old(self).has_client,
            extends(old(self).flash.log(), final(self).flash.log()),
            write_run(
                old(self).flash,
                old(self).task,
                old(self).has_client,
                code,
                added(old(self).flash.log(), final(self).flash.log()),
            ) == Some((ev, final(self).task)),
    {
        let ghost log0 = self.flash.log();
        self.write_buffer = Some(data);
        // The writes are steps Incr1, Rollover1 and Rollover3. If the task is
        // an increment, this write was needed; report the failure.
        if !is_success(code) {
            if let Some(Task::Increment) = self.task {
                proof {
                    lemma_grown(log0, self.flash.log(), Seq::empty());
                }
                self.task = None;
                if self.has_client {
                    return Some(CounterEvent::IncrementDone(code));
                }
                return None;
            }
        }
        // Step Rollover3 finished with nothing further to do.
        if self.task.is_none() {
            proof {
                lemma_grown(log0, self.flash.log(), Seq::empty());
            }
            return None;
        }
        // An initialization was asked for: go to step Init1.
        if let Some(Task::Initialize) = self.task {
            let low = self.flash.page_number(Page::Low);
            let target = low.wrapping_mul(WORDS_PER_PAGE);
            let error = self.flash.erase(target);
            proof {
                lemma_grown(log0, self.flash.log(), seq![StoreCall::Erase(target, error)]);
            }
            if is_success(error) {
                return None;
            }
            self.task = None;
            if self.has_client {
                return Some(CounterEvent::InitializeDone(error));
            }
            return None;
        }
        // The task is an increment. After Rollover1 and Incr1 the low page
        // has a nonzero count, so an empty low page means Rollover3 finished
        // with a further increment asked for: perform step Incr1.
        if self.flash.page_empty(Page::Low) {
            let low_count = self.flash.read_page_count(Page::Low);
            let increment_code = self.store_increment(Page::Low, low_count);
            proof {
                lemma_grown(log0, self.flash.log(), seq![self.flash.log().last()]);
            }
            if !is_success(increment_code) {
                self.task = None;
                if self.has_client {
                    return Some(CounterEvent::IncrementDone(increment_code));
                }
            }
            return None;
        }
        // Step Incr1 or Rollover1 finished successfully.
        self.task = None;
        // After Rollover1, step Rollover2 follows.
        if self.flash.low_page_full() && self.flash.read_page_count(Page::High) % 2 != 0 {
            let low = self.flash.page_number(Page::Low);
            let erase_code = self.flash.erase(low);
            proof {
                lemma_grown(log0, self.flash.log(), seq![StoreCall::Erase(low, erase_code)]);
            }
        } else {
            proof {
                lemma_grown(log0, self.flash.log(), Seq::empty());
            }
        }
        // The client is called last, in case it calls back into the counter.
        if self.has_client {
            return Some(CounterEvent::IncrementDone(ReturnCode::SUCCESS));
        }
        None
    }
}

} // verus!
