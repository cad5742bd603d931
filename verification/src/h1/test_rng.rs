//! A test of the random number generator: it asks for randomness and shows
//! the first words it gets.

use vstd::prelude::*;
use crate::return_code::ReturnCode;

verus! {

/// Number of random words shown.
pub const SHOWN_WORDS: usize = 5;

/// A source of randomness that delivers it later to its client.
pub trait Rng {
    /// Asks for randomness.
    fn get(&mut self) -> ReturnCode;
}

/// Whether the client wants more randomness.
#[derive(Clone, Copy, PartialEq, Eq, Structural, Debug)]
pub enum Continue {
    /// More, please.
    More,
    /// Enough.
    Done,
}

/// The test.
pub struct TestRng<R: Rng> {
    /// The generator.
    pub rng: R,
}

impl<R: Rng> TestRng<R> {
    /// A test of `rng`.
    pub fn new(rng: R) -> (t: Self)
        ensures
            t.rng == rng,
    {
        TestRng { rng }
    }

    /// Asks the generator for randomness.
    pub fn run(&mut self) {
        let _ = self.rng.get();
    }

    /// Takes the randomness delivered: the words to show are the first
    /// `SHOWN_WORDS`, and no more is wanted.
    pub fn randomness_available(&self, randomness: &[u32]) -> (r: (Vec<u32>, Continue))
        ensures
            r.0@ == randomness@.take(if randomness@.len() < SHOWN_WORDS { randomness@.len() as int } else { SHOWN_WORDS as int }),
            r.1 == Continue::Done,
    {
        let n = if randomness.len() < SHOWN_WORDS {
            randomness.len()
        } else {
            SHOWN_WORDS
        };
        let mut shown: Vec<u32> = Vec::new();
        let mut i: usize = 0;
        while i < n
            invariant
                i <= n <= randomness@.len(),
                shown@ == randomness@.take(i as int),
            decreases n - i,
        {
            shown.push(randomness[i]);
            i = i + 1;
            assert(shown@ =~= randomness@.take(i as int));
        }
        (shown, Continue::Done)
    }
}

} // verus!
