//! Recognition of the end-of-test markers in a console stream.

use vstd::prelude::*;

verus! {

/// The marker of a failed test run.
pub open spec fn fail_message() -> Seq<u8> {
    seq![
        10u8, 84u8, 69u8, 83u8, 84u8, 95u8, 70u8, 73u8, 78u8, 73u8, 83u8, 72u8, 69u8, 68u8, 58u8,
        32u8, 70u8, 65u8, 73u8, 76u8, 10u8,
    ]
}

/// The marker of a successful test run.
pub open spec fn success_message() -> Seq<u8> {
    seq![
        10u8, 84u8, 69u8, 83u8, 84u8, 95u8, 70u8, 73u8, 78u8, 73u8, 83u8, 72u8, 69u8, 68u8, 58u8,
        32u8, 83u8, 85u8, 67u8, 67u8, 69u8, 83u8, 83u8, 10u8,
    ]
}

/// Length of the longer marker, and of the window of recent bytes.
pub const WINDOW_LEN: usize = 24;

/// Length of the failure marker.
pub const FAIL_LEN: usize = 21;

/// How a test run ended.
#[derive(Clone, Copy, PartialEq, Eq, Structural, Debug)]
pub enum TestOutcome {
    /// The failure marker was seen.
    Fail,
    /// The success marker was seen.
    Success,
}

/// The last `WINDOW_LEN` bytes of the stream `s`, preceded by zeros when
/// fewer were seen.
pub open spec fn window_of(s: Seq<u8>) -> Seq<u8> {
    let padded = Seq::new(WINDOW_LEN as nat, |i: int| 0u8) + s;
    padded.subrange(padded.len() - WINDOW_LEN, padded.len() as int)
}

/// What a window of recent bytes shows: the failure marker at its end, or
/// the success marker filling it.
pub open spec fn outcome_of(window: Seq<u8>) -> Option<TestOutcome> {
    if window.subrange((WINDOW_LEN - FAIL_LEN) as int, WINDOW_LEN as int) == fail_message() {
        Some(TestOutcome::Fail)
    } else if window == success_message() {
        Some(TestOutcome::Success)
    } else {
        None
    }
}

/// Watches a console stream for the end-of-test markers.
pub struct MarkerScanner {
    window: Vec<u8>,
    fail: Vec<u8>,
    success: Vec<u8>,
    seen: Ghost<Seq<u8>>,
}

impl MarkerScanner {
    /// The scanner's invariant: the window holds the last bytes seen.
    pub closed spec fn well_formed(&self) -> bool {
        &&& self.window@ == window_of(self.seen@)
        &&& self.fail@ == fail_message()
        &&& self.success@ == success_message()
    }

    /// The bytes seen so far.
    pub closed spec fn seen(&self) -> Seq<u8> {
        self.seen@
    }

    /// A scanner that has seen nothing.
    pub fn new() -> (s: MarkerScanner)
        ensures
            s.well_formed(),
            s.seen() == Seq::<u8>::empty(),
    {
        let mut window: Vec<u8> = Vec::new();
        while window.len() < WINDOW_LEN
            invariant
                window@.len() <= WINDOW_LEN,
                window@ == Seq::new(window@.len(), |i: int| 0u8),
            decreases WINDOW_LEN - window.len(),
        {
            window.push(0);
            assert(window@ =~= Seq::new(window@.len(), |i: int| 0u8));
        }
        let fail: Vec<u8> = vec![10, 84, 69, 83, 84, 95, 70, 73, 78, 73, 83, 72, 69, 68, 58, 32, 70, 65, 73, 76, 10];
        let success: Vec<u8> = vec![10, 84, 69, 83, 84, 95, 70, 73, 78, 73, 83, 72, 69, 68, 58, 32, 83, 85, 67, 67, 69, 83, 83, 10];
        let s = MarkerScanner { window, fail, success, seen: Ghost(Seq::empty()) };
        assert(s.window@ =~= window_of(Seq::empty()));
        assert(s.fail@ =~= fail_message());
        assert(s.success@ =~= success_message());
        s
    }

    /// Takes the next byte of the stream; returns how the test run ended if
    /// a marker is now complete.
    pub fn push(&mut self, byte: u8) -> (r: Option<TestOutcome>)
        requires
            old(self).well_formed(),
        ensures
            final(self).well_formed(),
            final(self).seen() == old(self).seen().push(byte),
            r == outcome_of(window_of(final(self).seen())),
    {
        // Rotate the byte into the window.
        let ghost w0 = self.window@;
        let mut i: usize = 1;
        while i < WINDOW_LEN
            invariant
                1 <= i <= WINDOW_LEN,
                self.window@.len() == WINDOW_LEN,
                w0.len() == WINDOW_LEN,
                w0 == window_of(self.seen@),
                self.seen == old(self).seen,
                self.fail@ == fail_message(),
                self.success@ == success_message(),
                forall|k: int| 0 <= k < i - 1 ==> self.window@[k] == w0[k + 1],
                forall|k: int| i - 1 <= k < WINDOW_LEN ==> self.window@[k] == w0[k],
            decreases WINDOW_LEN - i,
        {
            let b = self.window[i];
            self.window.set(i - 1, b);
            i = i + 1;
        }
        self.window.set(WINDOW_LEN - 1, byte);
        let ghost s1 = self.seen@.push(byte);
        proof {
            let p0 = Seq::new(WINDOW_LEN as nat, |i: int| 0u8) + self.seen@;
            let p1 = Seq::new(WINDOW_LEN as nat, |i: int| 0u8) + s1;
            assert(p1 =~= p0.push(byte));
            let n0 = p0.len() as int;
            assert(w0 =~= p0.subrange(n0 - 24, n0));
            assert(self.window@ =~= w0.subrange(1, 24).push(byte));
            assert(window_of(s1) =~= p0.subrange(n0 - 23, n0).push(byte));
            assert(w0.subrange(1, 24) =~= p0.subrange(n0 - 23, n0));
            assert(self.window@ =~= window_of(s1));
        }
        self.seen = Ghost(s1);
        let mut fail_match = true;
        let mut k: usize = 0;
        while k < FAIL_LEN
            invariant
                k <= FAIL_LEN,
                self.window@.len() == WINDOW_LEN,
                self.fail@.len() == FAIL_LEN,
                self.fail@ == fail_message(),
                self.success@ == success_message(),
                self.window@ == window_of(self.seen@),
                fail_match == (forall|j: int| 0 <= j < k ==> self.window@[j + 3] == self.fail@[j]),
            decreases FAIL_LEN - k,
        {
            if self.window[k + 3] != self.fail[k] {
                fail_match = false;
            }
            k = k + 1;
        }
        let mut success_match = true;
        let mut k2: usize = 0;
        while k2 < WINDOW_LEN
            invariant
                k2 <= WINDOW_LEN,
                self.window@.len() == WINDOW_LEN,
                self.success@.len() == WINDOW_LEN,
                self.fail@ == fail_message(),
                self.success@ == success_message(),
                self.window@ == window_of(self.seen@),
                success_match == (forall|j: int| 0 <= j < k2 ==> self.window@[j] == self.success@[j]),
            decreases WINDOW_LEN - k2,
        {
            if self.window[k2] != self.success[k2] {
                success_match = false;
            }
            k2 = k2 + 1;
        }
        proof {
            let w = self.window@;
            if fail_match {
                assert(w.subrange(3, 24) =~= fail_message());
            } else {
                if w.subrange(3, 24) == fail_message() {
                    assert(forall|j: int| 0 <= j < 21 ==> w[j + 3] == w.subrange(3, 24)[j]);
                }
            }
            if success_match {
                assert(w =~= success_message());
            }
        }
        if fail_match {
            Some(TestOutcome::Fail)
        } else if success_match {
            Some(TestOutcome::Success)
        } else {
            None
        }
    }
}

} // verus!
