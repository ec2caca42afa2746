//! Instruction core and memory bus of a 6502-family processor as wired in an
//! 8-bit game console: a mirrored 2 KiB work RAM, a register window for the
//! picture unit, and a cartridge program ROM of one or two 16 KiB banks.

pub mod cpu;
pub mod memory;
pub mod opcodes;
