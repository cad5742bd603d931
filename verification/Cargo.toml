[package]
name = "papa"
version = "0.1.0"
edition = "2021"
publish = false

[dependencies]
byteorder = { version = "1", default-features = false }
ux = "0.1"
clap = "2"
libc = "0.2"
