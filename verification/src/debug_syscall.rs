//! A driver that prints the numbers a process passes to it, for debugging.

use vstd::prelude::*;
use crate::return_code::ReturnCode;

verus! {

/// The driver number of the number printer.
pub const DRIVER_NUM: usize = 0x00008;

/// The number printer.
pub struct UintPrinter {}

/// The numbers printed for a command: the command number, then the two
/// arguments as far as they are not zero at the end.
pub open spec fn printed(minor_num: usize, r2: usize, r3: usize) -> Seq<usize> {
    if r2 == 0 && r3 == 0 {
        seq![minor_num]
    } else if r3 == 0 {
        seq![minor_num, r2]
    } else {
        seq![minor_num, r2, r3]
    }
}

impl UintPrinter {
    /// A number printer.
    pub fn new() -> (p: UintPrinter) {
        UintPrinter {}
    }

    /// Handles a command: returns the numbers to print, and success.
    pub fn command(&self, minor_num: usize, r2: usize, r3: usize) -> (r: (ReturnCode, Vec<usize>))
        ensures
            r.0 == ReturnCode::SUCCESS,
            r.1@ == printed(minor_num, r2, r3),
    {
        let mut shown: Vec<usize> = Vec::new();
        shown.push(minor_num);
        if r2 == 0 && r3 == 0 {
        } else if r3 == 0 {
            shown.push(r2);
        } else {
            shown.push(r2);
            shown.push(r3);
        }
        assert(shown@ =~= printed(minor_num, r2, r3));
        (ReturnCode::SUCCESS, shown)
    }
}

} // verus!
