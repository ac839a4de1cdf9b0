//! An interpreter for the MOS 6502 8-bit processor: a flat 64 KiB address
//! space, a CPU core that executes the documented instruction set one
//! instruction at a time, and a snapshot codec that freezes a running machine
//! into a portable byte blob and restores it bit for bit.
pub mod cpu;
pub mod memory;
pub mod opcodes;
pub mod snapshots;
pub mod emulator;
