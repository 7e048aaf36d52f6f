//! An emulator of the NES's 6502-derived processor: its registers and flags, the
//! address decoding of its bus, the dispatch table and the instruction semantics, and
//! a loader for iNES cartridge images.

pub mod addressing;
pub mod apu;
pub mod cpu;
pub mod instructions;
pub mod ioport;
pub mod mem;
pub mod opcodes;
pub mod ppu;
pub mod regs;
pub mod rom;
