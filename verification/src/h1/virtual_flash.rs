//! Shares one flash among several users: each user has at most one
//! operation pending, and the multiplexer hands them to the flash one at a
//! time, the most recently registered user first.

use vstd::prelude::*;
use crate::h1::flash::{Flash, FlashOp};
use crate::return_code::ReturnCode;

verus! {

/// The operation a user waits for.
#[derive(Clone, Copy, PartialEq, Eq, Structural, Debug)]
pub enum Operation {
    /// None.
    Idle,
    /// A write at the offset, in words.
    Write(usize),
    /// An erase of the page.
    Erase(usize),
}

/// One user of the flash.
pub struct FlashUser {
    /// The data of a pending write.
    pub buffer: Option<Vec<u32>>,
    /// Length of the pending write.
    pub write_len: usize,
    /// Target of the pending write.
    pub write_pos: usize,
    /// The pending operation.
    pub operation: Operation,
}

/// A finished operation, to be reported to a user's client.
pub struct Done {
    /// The user.
    pub user: usize,
    /// The data of a finished write.
    pub data: Option<Vec<u32>>,
    /// The code.
    pub code: ReturnCode,
}

/// The user whose operation goes to the flash next: the most recently
/// registered one (the highest index below `n`) with an operation pending.
pub open spec fn next_user(users: Seq<FlashUser>, n: int) -> Option<int>
    decreases n,
{
    if n <= 0 {
        None
    } else if !(users[n - 1].operation is Idle) {
        Some(n - 1)
    } else {
        next_user(users, n - 1)
    }
}

/// A user chosen by `next_user` has an operation pending.
pub proof fn lemma_next_user_pending(users: Seq<FlashUser>, n: int)
    requires
        n <= users.len(),
    ensures
        next_user(users, n) matches Some(i) ==> 0 <= i < n && !(users[i].operation is Idle),
        next_user(users, n) is None ==> forall|i: int| 0 <= i < n ==> users[i].operation is Idle,
    decreases n,
{
    if n > 0 {
        lemma_next_user_pending(users, n - 1);
    }
}

/// An operation handed to the flash.
pub enum DriverRequest {
    /// A write of the words at the offset.
    Write(usize, Seq<u32>),
    /// An erase of the page.
    Erase(usize),
}

/// What the flash is asked to do for a user's pending operation: a write
/// needs the user's buffer, an erase needs nothing.
pub open spec fn request_for(user: FlashUser) -> Option<DriverRequest> {
    match user.operation {
        Operation::Write(offset) => match user.buffer {
            Some(b) => Some(DriverRequest::Write(offset, b@)),
            None => None,
        },
        Operation::Erase(page) => Some(DriverRequest::Erase(page)),
        Operation::Idle => None,
    }
}

/// What the flash is asked to do next: nothing while an operation is in
/// flight, else the operation of the user `next_user` picks.
pub open spec fn next_request(users: Seq<FlashUser>, in_flight: Option<usize>) -> Option<DriverRequest> {
    if in_flight is Some {
        None
    } else {
        match next_user(users, users.len() as int) {
            Some(i) => request_for(users[i]),
            None => None,
        }
    }
}

/// The user with its operation ended.
pub open spec fn idle(user: FlashUser) -> FlashUser {
    FlashUser { operation: Operation::Idle, ..user }
}

/// What an erase or write handed to the flash asked for, without the
/// flash's answer.
pub open spec fn request_of(op: FlashOp) -> DriverRequest {
    match op {
        FlashOp::Erase(page, _) => DriverRequest::Erase(page),
        FlashOp::Write(offset, words, _) => DriverRequest::Write(offset, words),
    }
}

/// The flash's record went from `before` to `after` by `request` alone, or
/// stayed as it was when there is no request.
pub open spec fn handed(before: Seq<FlashOp>, after: Seq<FlashOp>, request: Option<DriverRequest>) -> bool {
    match request {
        None => after == before,
        Some(r) => after.len() == before.len() + 1 && after.drop_last() == before && request_of(after.last()) == r,
    }
}

/// The flash multiplexer.
pub struct MuxFlash<F: Flash> {
    /// The flash.
    pub driver: F,
    /// The users, in the order they registered.
    pub users: Vec<FlashUser>,
    /// The user whose operation the flash is carrying out.
    pub in_flight: Option<usize>,
}

impl<F: Flash> MuxFlash<F> {
    /// The operation in flight belongs to a registered user.
    pub open spec fn well_formed(&self) -> bool {
        self.in_flight matches Some(i) ==> i < self.users@.len()
    }

    /// A multiplexer over `driver` with no users.
    pub fn new(driver: F) -> (m: Self)
        ensures
            m.well_formed(),
            m.driver == driver,
            m.users@.len() == 0,
            m.in_flight is None,
    {
        MuxFlash { driver, users: Vec::new(), in_flight: None }
    }

    /// Registers a new user; returns its number.
    pub fn add_user(&mut self) -> (u: usize)
        requires
            old(self).well_formed(),
            old(self).users@.len() < usize::MAX,
        ensures
            final(self).well_formed(),
            u == old(self).users@.len(),
            final(self).users@.len() == u + 1,
            final(self).users@.take(u as int) == old(self).users@,
            final(self).users@[u as int].operation is Idle,
            final(self).users@[u as int].buffer is None,
            final(self).in_flight == old(self).in_flight,
            final(self).driver == old(self).driver,
    {
        let u = self.users.len();
        self.users.push(FlashUser { buffer: None, write_len: 0, write_pos: 0, operation: Operation::Idle });
        assert(self.users@.take(u as int) =~= old(self).users@);
        u
    }

    /// Hands the next pending operation to the flash, unless one is in
    /// flight already. The user's buffer goes to the flash with a write.
    fn do_next_op(&mut self)
        requires
            old(self).well_formed(),
        ensures
            final(self).well_formed(),
            final(self).users@.len() == old(self).users@.len(),
            handed(old(self).driver.ops(), final(self).driver.ops(), next_request(old(self).users@, old(self).in_flight)),
            old(self).in_flight is Some ==> *final(self) == *old(self),
            old(self).in_flight is None ==> match next_user(old(self).users@, old(self).users@.len() as int) {
                None => *final(self) == *old(self),
                Some(i) => {
                    &&& final(self).in_flight == Some(i as usize)
                    &&& forall|j: int| 0 <= j < old(self).users@.len() && j != i ==> final(self).users@[j] == old(self).users@[j]
                    &&& final(self).users@[i].buffer is None
                    &&& final(self).users@[i].operation == old(self).users@[i].operation
                    &&& final(self).users@[i].write_len == old(self).users@[i].write_len
                    &&& final(self).users@[i].write_pos == old(self).users@[i].write_pos
                },
            },
    {
        if self.in_flight.is_some() {
            return;
        }
        let ghost users0 = self.users@;
        let ghost ops0 = self.driver.ops();
        let mut n = self.users.len();
        let mut found: Option<usize> = None;
        while n > 0
            invariant_except_break
                n <= users0.len(),
                self.users@ == users0,
                found is None,
                next_user(users0, users0.len() as int) == next_user(users0, n as int),
            ensures
                self.users@ == users0,
                found == match next_user(users0, users0.len() as int) {
                    Some(i) => Some(i as usize),
                    None => None::<usize>,
                },
            decreases n,
        {
            let idle = match self.users[n - 1].operation {
                Operation::Idle => true,
                _ => false,
            };
            if !idle {
                found = Some(n - 1);
                break;
            }
            n = n - 1;
        }
        proof {
            lemma_next_user_pending(users0, users0.len() as int);
        }
        let i = match found {
            Some(i) => i,
            None => return,
        };
        let mut user = self.users.remove(i);
        let mut buf: Option<Vec<u32>> = None;
        std::mem::swap(&mut buf, &mut user.buffer);
        match buf {
            None => {
                // Erase doesn't require a buffer.
                match user.operation {
                    Operation::Erase(page_number) => {
                        let _ = self.driver.erase(page_number);
                        assert(self.driver.ops().drop_last() =~= ops0);
                    },
                    _ => {},
                }
            },
            Some(b) => {
                match user.operation {
                    Operation::Write(offset) => {
                        let _ = self.driver.write(offset, b);
                        assert(self.driver.ops().drop_last() =~= ops0);
                    },
                    Operation::Erase(page_number) => {
                        let _ = self.driver.erase(page_number);
                        assert(self.driver.ops().drop_last() =~= ops0);
                    },
                    Operation::Idle => {},
                }
            },
        }
        self.users.insert(i, user);
        assert forall|j: int| 0 <= j < users0.len() && j != i implies self.users@[j] == users0[j] by {
        }
        self.in_flight = Some(i);
    }

    /// Asks for an erase of `page` on behalf of user `u`. Refused with
    /// `EBUSY` while the user has an operation pending.
    pub fn erase(&mut self, u: usize, page: usize) -> (rc: ReturnCode)
        requires
            old(self).well_formed(),
            u < old(self).users@.len(),
        ensures
            final(self).well_formed(),
            final(self).users@.len() == old(self).users@.len(),
            !(old(self).users@[u as int].operation is Idle) ==> rc == ReturnCode::EBUSY
                && *final(self) == *old(self),
            old(self).users@[u as int].operation is Idle ==> rc == ReturnCode::SUCCESS
                && final(self).users@[u as int].operation == Operation::Erase(page)
                && final(self).in_flight is Some
                && handed(old(self).driver.ops(), final(self).driver.ops(), next_request(
                old(self).users@.update(u as int, FlashUser { operation: Operation::Erase(page), ..old(self).users@[u as int] }),
                old(self).in_flight,
            )),
    {
        let idle = match self.users[u].operation {
            Operation::Idle => true,
            _ => false,
        };
        if !idle {
            return ReturnCode::EBUSY;
        }
        let mut user = self.users.remove(u);
        user.operation = Operation::Erase(page);
        self.users.insert(u, user);
        assert(self.users@ =~= old(self).users@.update(u as int, FlashUser { operation: Operation::Erase(page), ..old(self).users@[u as int] }));
        proof {
            lemma_next_user_pending(self.users@, self.users@.len() as int);
        }
        self.do_next_op();
        ReturnCode::SUCCESS
    }

    /// Asks for a write of `data` at word `target` on behalf of user `u`.
    /// Refused, with the data handed back, with `EBUSY` while the user has an
    /// operation pending.
    pub fn write(&mut self, u: usize, target: usize, data: Vec<u32>) -> (r: (ReturnCode, Option<Vec<u32>>))
        requires
            old(self).well_formed(),
            u < old(self).users@.len(),
        ensures
            final(self).well_formed(),
            final(self).users@.len() == old(self).users@.len(),
            !(old(self).users@[u as int].operation is Idle) ==> r.0 == ReturnCode::EBUSY && r.1 == Some(data)
                && *final(self) == *old(self),
            old(self).users@[u as int].operation is Idle ==> r.0 == ReturnCode::SUCCESS && r.1 is None
                && final(self).users@[u as int].operation == Operation::Write(target)
                && final(self).users@[u as int].write_pos == target
                && final(self).users@[u as int].write_len == data@.len()
                && final(self).in_flight is Some
                && handed(old(self).driver.ops(), final(self).driver.ops(), next_request(
                old(self).users@.update(
                    u as int,
                    FlashUser { buffer: Some(data), write_len: data@.len() as usize, write_pos: target, operation: Operation::Write(target) },
                ),
                old(self).in_flight,
            )),
    {
        let idle = match self.users[u].operation {
            Operation::Idle => true,
            _ => false,
        };
        if !idle {
            return (ReturnCode::EBUSY, Some(data));
        }
        let ghost new_user = FlashUser { buffer: Some(data), write_len: data@.len() as usize, write_pos: target, operation: Operation::Write(target) };
        let mut user = self.users.remove(u);
        user.write_pos = target;
        user.write_len = data.len();
        user.buffer = Some(data);
        user.operation = Operation::Write(target);
        self.users.insert(u, user);
        assert(self.users@ =~= old(self).users@.update(u as int, new_user));
        proof {
            lemma_next_user_pending(self.users@, self.users@.len() as int);
        }
        self.do_next_op();
        (ReturnCode::SUCCESS, None)
    }

    /// Reads word `word` of the flash.
    pub fn read(&self, word: usize) -> ReturnCode {
        self.driver.read(word)
    }

    /// Handles the flash's report of a finished erase: the user whose
    /// operation was in flight becomes idle and is reported to, then the
    /// next pending operation starts.
    pub fn erase_done(&mut self, code: ReturnCode) -> (done: Option<Done>)
        requires
            old(self).well_formed(),
        ensures
            final(self).well_formed(),
            final(self).users@.len() == old(self).users@.len(),
            match old(self).in_flight {
                None => done is None,
                Some(i) => done matches Some(d) && d.user == i && d.data is None && d.code == code
                    && final(self).users@[i as int].operation is Idle,
            },
            handed(old(self).driver.ops(), final(self).driver.ops(), next_request(
                match old(self).in_flight {
                    Some(i) => old(self).users@.update(i as int, idle(old(self).users@[i as int])),
                    None => old(self).users@,
                },
                None,
            )),
    {
        let done = self.finish(None, code);
        self.do_next_op();
        done
    }

    /// Handles the flash's report of a finished write: the user whose
    /// operation was in flight becomes idle and gets its data back, then the
    /// next pending operation starts.
    pub fn write_done(&mut self, data: Vec<u32>, code: ReturnCode) -> (done: Option<Done>)
        requires
            old(self).well_formed(),
        ensures
            final(self).well_formed(),
            final(self).users@.len() == old(self).users@.len(),
            match old(self).in_flight {
                None => done is None,
                Some(i) => done matches Some(d) && d.user == i && d.data == Some(data) && d.code == code
                    && final(self).users@[i as int].operation is Idle,
            },
            handed(old(self).driver.ops(), final(self).driver.ops(), next_request(
                match old(self).in_flight {
                    Some(i) => old(self).users@.update(i as int, idle(old(self).users@[i as int])),
                    None => old(self).users@,
                },
                None,
            )),
    {
        let done = self.finish(Some(data), code);
        self.do_next_op();
        done
    }

    /// Ends the operation in flight, if any.
    fn finish(&mut self, data: Option<Vec<u32>>, code: ReturnCode) -> (done: Option<Done>)
        requires
            old(self).well_formed(),
        ensures
            final(self).well_formed(),
            final(self).in_flight is None,
            final(self).driver == old(self).driver,
            final(self).users@.len() == old(self).users@.len(),
            match old(self).in_flight {
                None => done is None && final(self).users@ == old(self).users@,
                Some(i) => done matches Some(d) && d.user == i && d.data == data && d.code == code
                    && final(self).users@ == old(self).users@.update(i as int, idle(old(self).users@[i as int])),
            },
    {
        let i = match self.in_flight {
            Some(i) => i,
            None => return None,
        };
        self.in_flight = None;
        let mut user = self.users.remove(i);
        user.operation = Operation::Idle;
        self.users.insert(i, user);
        assert(self.users@ =~= old(self).users@.update(i as int, idle(old(self).users@[i as int])));
        Some(Done { user: i, data, code })
    }
}


/// The flash serves the most recently registered user first: the user
/// picked next has an operation pending, and every user registered after it
/// is idle; no user is picked only when all are idle.
pub proof fn lemma_next_user_latest(users: Seq<FlashUser>)
    ensures
        next_user(users, users.len() as int) matches Some(i) ==> 0 <= i < users.len() && !(users[i].operation is Idle)
            && forall|j: int| i < j < users.len() ==> (#[trigger] users[j]).operation is Idle,
        next_user(users, users.len() as int) is None <==> forall|j: int| 0 <= j < users.len() ==> (#[trigger] users[j]).operation is Idle,
{
    lemma_next_user_latest_from(users, users.len() as int);
}

proof fn lemma_next_user_latest_from(users: Seq<FlashUser>, n: int)
    requires
        0 <= n <= users.len(),
    ensures
        next_user(users, n) matches Some(i) ==> 0 <= i < n && !(users[i].operation is Idle) && forall|j: int|
            i < j < n ==> (#[trigger] users[j]).operation is Idle,
        next_user(users, n) is None <==> forall|j: int| 0 <= j < n ==> (#[trigger] users[j]).operation is Idle,
    decreases n,
{
    if n > 0 {
        lemma_next_user_latest_from(users, n - 1);
    }
}

} // verus!
