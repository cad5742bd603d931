//! Verified core of the papa firmware support library.

pub mod endian;
pub mod io;
pub mod wire;
pub mod protocol;
pub mod driver;
pub mod compat;
pub mod cmds;
pub mod transport;
pub mod return_code;
pub mod h1;
pub mod syscalls;
pub mod hotel;
pub mod simple_print;
pub mod debug_syscall;
pub mod syscall;
pub mod hil;
pub mod tango;
pub mod runner;
pub mod cortexm3;
