//! Drivers of the H1 chip: the decisions they take over the values of the
//! hardware registers.

pub mod spi_device;
pub mod flash;
pub mod virtual_flash;
pub mod nvcounter;
pub mod gpio;
pub mod spi_host;
pub mod fuse;
pub mod globalsec;
pub mod timels;
pub mod chip;
pub mod test_rng;
