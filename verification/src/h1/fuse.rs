//! The fuse controller's device identifier.

use vstd::prelude::*;

verus! {

/// The device identifier fuses: the high word and the low word.
#[derive(Clone, Copy, PartialEq, Eq, Structural, Debug)]
pub struct FuseController {
    /// The high 32 bits of the device identifier.
    pub dev_id0: u32,
    /// The low 32 bits of the device identifier.
    pub dev_id1: u32,
}

/// Reading the device identifier.
pub trait Fuse {
    /// The device identifier.
    spec fn spec_dev_id(&self) -> u64;

    /// Returns the device identifier.
    fn get_dev_id(&self) -> (id: u64)
        ensures
            id == self.spec_dev_id(),
    ;
}

impl Fuse for FuseController {
    open spec fn spec_dev_id(&self) -> u64 {
        (self.dev_id0 * 0x1_0000_0000 + self.dev_id1) as u64
    }

    fn get_dev_id(&self) -> (id: u64) {
        let id = ((self.dev_id0 as u64) << 32u64) | (self.dev_id1 as u64);
        let hi = self.dev_id0;
        let lo = self.dev_id1;
        assert(((hi as u64) << 32u64) | (lo as u64) == hi * 0x1_0000_0000 + lo) by (bit_vector);
        id
    }
}

} // verus!
