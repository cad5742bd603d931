//! The interrupt controller's register bits.

use vstd::prelude::*;

verus! {

/// Number of 32 bit words of each interrupt controller register array.
pub const NVIC_WORDS: usize = 7;

/// The word and the bit of interrupt line `signal` in the interrupt
/// controller's enable, disable and pending registers.
pub fn nvic_bit(signal: u32) -> (r: (usize, u32))
    requires
        signal < 32 * NVIC_WORDS,
    ensures
        r.0 == signal / 32,
        r.0 < NVIC_WORDS,
        r.1 == (1u32 << (signal % 32)),
{
    let idx = (signal / 32) as usize;
    let shift: u32 = signal & 31;
    assert(signal & 31 == signal % 32 && signal % 32 < 32) by (bit_vector);
    let bit = 1u32 << shift;
    (idx, bit)
}


/// Number of interrupt lines of the interrupt controller.
pub const NVIC_LINES: usize = 224;

/// The interrupt controller's pending and enable state, one flag per line.
pub struct Nvic {
    /// Whether each line is pending.
    pub pending: Vec<bool>,
    /// Whether each line is enabled.
    pub enabled: Vec<bool>,
}

impl Nvic {
    /// There is a flag for every line.
    pub open spec fn well_formed(&self) -> bool {
        self.pending@.len() == NVIC_LINES && self.enabled@.len() == NVIC_LINES
    }

    /// An interrupt controller with no line pending or enabled.
    pub fn new() -> (n: Self)
        ensures
            n.well_formed(),
            forall|l: int| 0 <= l < NVIC_LINES ==> !n.pending@[l] && !n.enabled@[l],
    {
        let mut pending: Vec<bool> = Vec::new();
        let mut enabled: Vec<bool> = Vec::new();
        let mut i: usize = 0;
        while i < NVIC_LINES
            invariant
                i <= NVIC_LINES,
                pending@.len() == i,
                enabled@.len() == i,
                forall|l: int| 0 <= l < i ==> !pending@[l] && !enabled@[l],
            decreases NVIC_LINES - i,
        {
            pending.push(false);
            enabled.push(false);
            i = i + 1;
        }
        Nvic { pending, enabled }
    }

    /// The lowest pending line, if any.
    pub fn next_pending(&self) -> (r: Option<u32>)
        requires
            self.well_formed(),
        ensures
            r is None ==> forall|l: int| 0 <= l < NVIC_LINES ==> !self.pending@[l],
            r matches Some(n) ==> n < NVIC_LINES && self.pending@[n as int] && forall|l: int|
                0 <= l < n ==> !self.pending@[l],
    {
        let mut i: usize = 0;
        while i < NVIC_LINES
            invariant
                self.well_formed(),
                i <= NVIC_LINES,
                forall|l: int| 0 <= l < i ==> !self.pending@[l],
            decreases NVIC_LINES - i,
        {
            if self.pending[i] {
                return Some(i as u32);
            }
            i = i + 1;
        }
        None
    }
}
} // verus!
