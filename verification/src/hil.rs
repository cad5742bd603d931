//! Interfaces between drivers and the platform.

use vstd::prelude::*;

verus! {

/// A peripheral that the platform configures.
pub trait Controller {
    /// Its configuration.
    type Config;

    /// Applies a configuration.
    fn configure(&self, config: Self::Config);
}

/// The client of a SPI device.
pub trait SpiDeviceClient {
    /// Called when data from the SPI host is available. `is_busy` tells
    /// whether the command set the BUSY bit (then the transaction ends when
    /// the device clears it), `is_write_enabled` whether the write enable
    /// latch is set.
    fn data_available(&self, is_busy: bool, is_write_enabled: bool);
}

} // verus!
