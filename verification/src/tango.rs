//! Console output of the Tango board through the first UART.

use vstd::prelude::*;
use vstd::string::StringSliceAdditionalSpecFns;

verus! {

/// The UART baud rate divider the console uses.
pub const CONSOLE_NCO: u32 = 5300;

/// The console.
pub struct Writer {
    initialized: bool,
}

/// What writing a string takes: whether the UART is set up first (its
/// transmit pin routed, its baud rate and control set), and the words to
/// write to its data register, one per byte.
pub struct WriteOutput {
    /// Whether the UART is set up first.
    pub init: bool,
    /// The words to write.
    pub words: Vec<u32>,
}

impl Writer {
    /// A console that is not set up yet.
    pub fn new() -> (w: Writer)
        ensures
            !w.is_initialized(),
    {
        Writer { initialized: false }
    }

    /// Whether the UART is set up.
    pub closed spec fn is_initialized(&self) -> bool {
        self.initialized
    }

    /// Writes `s`: the UART is set up the first time only, then each byte
    /// goes out.
    pub fn write_str(&mut self, s: &str) -> (out: WriteOutput)
        ensures
            out.init == !old(self).is_initialized(),
            final(self).is_initialized(),
            out.words@.len() == s.spec_bytes().len(),
            forall|i: int| 0 <= i < out.words@.len() ==> out.words@[i] == s.spec_bytes()[i] as u32,
    {
        let init = !self.initialized;
        if init {
            self.initialized = true;
        }
        let bytes = s.as_bytes();
        let mut words: Vec<u32> = Vec::new();
        let mut i: usize = 0;
        while i < bytes.len()
            invariant
                i <= bytes@.len(),
                bytes@ == s.spec_bytes(),
                words@.len() == i,
                forall|k: int| 0 <= k < i ==> words@[k] == bytes@[k] as u32,
            decreases bytes@.len() - i,
        {
            words.push(bytes[i] as u32);
            i = i + 1;
        }
        WriteOutput { init, words }
    }
}

} // verus!
