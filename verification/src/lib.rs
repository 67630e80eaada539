//! A verified functional emulator for the MOS 6502 microprocessor.
//!
//! The crate models the register file, the flat 64 KB address space and the
//! fetch-decode-execute cycle of the documented 6502 instruction set.  Every
//! addressing mode, the full 256-entry opcode decode table and the
//! per-instruction arithmetic, flag and control-flow semantics are stated as
//! specification functions and proved of the executable code, including the
//! historical quirks of the hardware: zero-page index arithmetic that wraps
//! inside page zero, relative branches whose carry never reaches the high
//! byte of the program counter, and the page-wrap bug of the indirect jump.

pub mod address_mode;
pub mod constant;
pub mod cpu;
pub mod emulator;
pub mod insset;
pub mod parser;

pub use cpu::Mos6502;
