# papa

Firmware support library for a SPI-attached root of trust, verified with
Verus.

- `src/io.rs`, `src/endian.rs`, `src/wire.rs`: bit queues, byte readers and
  writers, big- and little-endian integers, and the wire traits.
- `src/protocol/`, `src/driver/`, `src/compat/`, `src/transport.rs`: the SPI
  flash protocol, its messages and their framing with a CRC-8 checksum.
- `src/h1/`, `src/hotel/`: the chip drivers, described over the values of
  their registers, and the interrupt dispatch.
- `src/syscalls/`: the system call drivers of the kernel.
- `src/runner.rs`: recognition of the end-of-test markers on a console.
- `app/`: the command line tools (message wrapping, the test runner).
- `tests/`: tests of the library.
