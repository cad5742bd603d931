//! Drivers of the Hotel chip.

pub mod usb;
pub mod gpio;
pub mod timeus;
pub mod uart;
