//! The SPI transport protocol: framing, firmware update, error and SPI flash
//! messages.

pub mod error;
pub mod firmware;
pub mod flash;
pub mod payload;
