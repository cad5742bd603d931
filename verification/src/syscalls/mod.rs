//! System call drivers: what the kernel answers to the processes' calls.

pub mod upcall;
pub mod spi_device;
pub mod flash;
pub mod fuse;
pub mod reset;
pub mod spi_host;
