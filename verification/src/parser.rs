//! The opcode decoder: a dense 256-entry table mapping every byte value
//! to its instruction, keyed on the whole byte.  Bytes with no documented
//! assignment decode to an error naming the offending opcode.

use vstd::prelude::*;

use crate::insset::{InsAttr, M6502Ins};

verus! {

/// The error a byte with no documented instruction decodes to.  Decoding
/// is the only fatal condition of the emulator: the execution loop halts
/// on it and leaves the processor state inspectable.
#[derive(Debug, Clone, Copy, PartialEq, Eq, Structural)]
pub struct InvalidOpcodeError {
    /// The byte that has no documented instruction assigned.
    pub opcode: u8,
}

/// The published decode table: for each of the 256 byte values, the
/// instruction it names with its length in bytes and its base cycle
/// count, or `None` for the bytes with no documented assignment.
#[verifier::opaque]
pub open spec fn spec_parse(op: u8) -> Option<M6502Ins> {
    match op {
        0x00 => Some(M6502Ins::Brk(InsAttr { opcode: op, len: 1, cyc: 7 })),
        0x01 => Some(M6502Ins::OraIndX(InsAttr { opcode: op, len: 2, cyc: 6 })),
        0x05 => Some(M6502Ins::OraZP(InsAttr { opcode: op, len: 2, cyc: 3 })),
        0x06 => Some(M6502Ins::AslZP(InsAttr { opcode: op, len: 2, cyc: 5 })),
        0x08 => Some(M6502Ins::Php(InsAttr { opcode: op, len: 1, cyc: 3 })),
        0x09 => Some(M6502Ins::OraImm(InsAttr { opcode: op, len: 2, cyc: 2 })),
        0x0A => Some(M6502Ins::AslAcc(InsAttr { opcode: op, len: 1, cyc: 2 })),
        0x0D => Some(M6502Ins::OraAbs(InsAttr { opcode: op, len: 3, cyc: 4 })),
        0x0E => Some(M6502Ins::AslAbs(InsAttr { opcode: op, len: 3, cyc: 6 })),
        0x10 => Some(M6502Ins::Bpl(InsAttr { opcode: op, len: 2, cyc: 2 })),
        0x11 => Some(M6502Ins::OraIndY(InsAttr { opcode: op, len: 2, cyc: 5 })),
        0x15 => Some(M6502Ins::OraZPX(InsAttr { opcode: op, len: 2, cyc: 4 })),
        0x16 => Some(M6502Ins::AslZPX(InsAttr { opcode: op, len: 2, cyc: 6 })),
        0x18 => Some(M6502Ins::Clc(InsAttr { opcode: op, len: 1, cyc: 2 })),
        0x19 => Some(M6502Ins::OraAbsY(InsAttr { opcode: op, len: 3, cyc: 4 })),
        0x1D => Some(M6502Ins::OraAbsX(InsAttr { opcode: op, len: 3, cyc: 4 })),
        0x1E => Some(M6502Ins::AslAbsX(InsAttr { opcode: op, len: 3, cyc: 7 })),
        0x20 => Some(M6502Ins::Jsr(InsAttr { opcode: op, len: 3, cyc: 6 })),
        0x21 => Some(M6502Ins::AndIndX(InsAttr { opcode: op, len: 2, cyc: 6 })),
        0x24 => Some(M6502Ins::BitZP(InsAttr { opcode: op, len: 2, cyc: 3 })),
        0x25 => Some(M6502Ins::AndZP(InsAttr { opcode: op, len: 2, cyc: 3 })),
        0x26 => Some(M6502Ins::RolZP(InsAttr { opcode: op, len: 2, cyc: 5 })),
        0x28 => Some(M6502Ins::Plp(InsAttr { opcode: op, len: 1, cyc: 4 })),
        0x29 => Some(M6502Ins::AndImm(InsAttr { opcode: op, len: 2, cyc: 2 })),
        0x2A => Some(M6502Ins::RolAcc(InsAttr { opcode: op, len: 1, cyc: 2 })),
        0x2C => Some(M6502Ins::BitAbs(InsAttr { opcode: op, len: 3, cyc: 4 })),
        0x2D => Some(M6502Ins::AndAbs(InsAttr { opcode: op, len: 3, cyc: 4 })),
        0x2E => Some(M6502Ins::RolAbs(InsAttr { opcode: op, len: 3, cyc: 6 })),
        0x30 => Some(M6502Ins::Bmi(InsAttr { opcode: op, len: 2, cyc: 2 })),
        0x31 => Some(M6502Ins::AndIndY(InsAttr { opcode: op, len: 2, cyc: 5 })),
        0x35 => Some(M6502Ins::AndZPX(InsAttr { opcode: op, len: 2, cyc: 4 })),
        0x36 => Some(M6502Ins::RolZPX(InsAttr { opcode: op, len: 2, cyc: 6 })),
        0x38 => Some(M6502Ins::Sec(InsAttr { opcode: op, len: 1, cyc: 2 })),
        0x39 => Some(M6502Ins::AndAbsY(InsAttr { opcode: op, len: 3, cyc: 4 })),
        0x3D => Some(M6502Ins::AndAbsX(InsAttr { opcode: op, len: 3, cyc: 4 })),
        0x3E => Some(M6502Ins::RolAbsX(InsAttr { opcode: op, len: 3, cyc: 7 })),
        0x40 => Some(M6502Ins::Rti(InsAttr { opcode: op, len: 1, cyc: 6 })),
        0x41 => Some(M6502Ins::EorIndX(InsAttr { opcode: op, len: 2, cyc: 6 })),
        0x45 => Some(M6502Ins::EorZP(InsAttr { opcode: op, len: 2, cyc: 3 })),
        0x46 => Some(M6502Ins::LsrZP(InsAttr { opcode: op, len: 2, cyc: 5 })),
        0x48 => Some(M6502Ins::Pha(InsAttr { opcode: op, len: 1, cyc: 3 })),
        0x49 => Some(M6502Ins::EorImm(InsAttr { opcode: op, len: 2, cyc: 2 })),
        0x4A => Some(M6502Ins::LsrAcc(InsAttr { opcode: op, len: 1, cyc: 2 })),
        0x4C => Some(M6502Ins::JmpAbs(InsAttr { opcode: op, len: 3, cyc: 3 })),
        0x4D => Some(M6502Ins::EorAbs(InsAttr { opcode: op, len: 3, cyc: 4 })),
        0x4E => Some(M6502Ins::LsrAbs(InsAttr { opcode: op, len: 3, cyc: 6 })),
        0x50 => Some(M6502Ins::Bvc(InsAttr { opcode: op, len: 2, cyc: 2 })),
        0x51 => Some(M6502Ins::EorIndY(InsAttr { opcode: op, len: 2, cyc: 5 })),
        0x55 => Some(M6502Ins::EorZPX(InsAttr { opcode: op, len: 2, cyc: 4 })),
        0x56 => Some(M6502Ins::LsrZPX(InsAttr { opcode: op, len: 2, cyc: 6 })),
        0x58 => Some(M6502Ins::Cli(InsAttr { opcode: op, len: 1, cyc: 2 })),
        0x59 => Some(M6502Ins::EorAbsY(InsAttr { opcode: op, len: 3, cyc: 4 })),
        0x5D => Some(M6502Ins::EorAbsX(InsAttr { opcode: op, len: 3, cyc: 4 })),
        0x5E => Some(M6502Ins::LsrAbsX(InsAttr { opcode: op, len: 3, cyc: 7 })),
        0x60 => Some(M6502Ins::Rts(InsAttr { opcode: op, len: 1, cyc: 6 })),
        0x61 => Some(M6502Ins::AdcIndX(InsAttr { opcode: op, len: 2, cyc: 6 })),
        0x65 => Some(M6502Ins::AdcZP(InsAttr { opcode: op, len: 2, cyc: 3 })),
        0x66 => Some(M6502Ins::RorZP(InsAttr { opcode: op, len: 2, cyc: 5 })),
        0x68 => Some(M6502Ins::Pla(InsAttr { opcode: op, len: 1, cyc: 4 })),
        0x69 => Some(M6502Ins::AdcImm(InsAttr { opcode: op, len: 2, cyc: 2 })),
        0x6A => Some(M6502Ins::RorAcc(InsAttr { opcode: op, len: 1, cyc: 2 })),
        0x6C => Some(M6502Ins::JmpInd(InsAttr { opcode: op, len: 3, cyc: 5 })),
        0x6D => Some(M6502Ins::AdcAbs(InsAttr { opcode: op, len: 3, cyc: 4 })),
        0x6E => Some(M6502Ins::RorAbs(InsAttr { opcode: op, len: 3, cyc: 6 })),
        0x70 => Some(M6502Ins::Bvs(InsAttr { opcode: op, len: 2, cyc: 2 })),
        0x71 => Some(M6502Ins::AdcIndY(InsAttr { opcode: op, len: 2, cyc: 5 })),
        0x75 => Some(M6502Ins::AdcZPX(InsAttr { opcode: op, len: 2, cyc: 4 })),
        0x76 => Some(M6502Ins::RorZPX(InsAttr { opcode: op, len: 2, cyc: 6 })),
        0x78 => Some(M6502Ins::Sei(InsAttr { opcode: op, len: 1, cyc: 2 })),
        0x79 => Some(M6502Ins::AdcAbsY(InsAttr { opcode: op, len: 3, cyc: 4 })),
        0x7D => Some(M6502Ins::AdcAbsX(InsAttr { opcode: op, len: 3, cyc: 4 })),
        0x7E => Some(M6502Ins::RorAbsX(InsAttr { opcode: op, len: 3, cyc: 7 })),
        0x81 => Some(M6502Ins::StaIndX(InsAttr { opcode: op, len: 2, cyc: 6 })),
        0x84 => Some(M6502Ins::StyZP(InsAttr { opcode: op, len: 2, cyc: 3 })),
        0x85 => Some(M6502Ins::StaZP(InsAttr { opcode: op, len: 2, cyc: 3 })),
        0x86 => Some(M6502Ins::StxZP(InsAttr { opcode: op, len: 2, cyc: 3 })),
        0x88 => Some(M6502Ins::Dey(InsAttr { opcode: op, len: 1, cyc: 2 })),
        0x8A => Some(M6502Ins::Txa(InsAttr { opcode: op, len: 1, cyc: 2 })),
        0x8C => Some(M6502Ins::StyAbs(InsAttr { opcode: op, len: 3, cyc: 4 })),
        0x8D => Some(M6502Ins::StaAbs(InsAttr { opcode: op, len: 3, cyc: 4 })),
        0x8E => Some(M6502Ins::StxAbs(InsAttr { opcode: op, len: 3, cyc: 4 })),
        0x90 => Some(M6502Ins::Bcc(InsAttr { opcode: op, len: 2, cyc: 2 })),
        0x91 => Some(M6502Ins::StaIndY(InsAttr { opcode: op, len: 2, cyc: 6 })),
        0x94 => Some(M6502Ins::StyZPX(InsAttr { opcode: op, len: 2, cyc: 4 })),
        0x95 => Some(M6502Ins::StaZPX(InsAttr { opcode: op, len: 2, cyc: 4 })),
        0x96 => Some(M6502Ins::StxZPY(InsAttr { opcode: op, len: 2, cyc: 4 })),
        0x98 => Some(M6502Ins::Tya(InsAttr { opcode: op, len: 1, cyc: 2 })),
        0x99 => Some(M6502Ins::StaAbsY(InsAttr { opcode: op, len: 3, cyc: 5 })),
        0x9A => Some(M6502Ins::Txs(InsAttr { opcode: op, len: 1, cyc: 2 })),
        0x9D => Some(M6502Ins::StaAbsX(InsAttr { opcode: op, len: 3, cyc: 5 })),
        0xA0 => Some(M6502Ins::LdyImm(InsAttr { opcode: op, len: 2, cyc: 2 })),
        0xA1 => Some(M6502Ins::LdaIndX(InsAttr { opcode: op, len: 2, cyc: 6 })),
        0xA2 => Some(M6502Ins::LdxImm(InsAttr { opcode: op, len: 2, cyc: 2 })),
        0xA4 => Some(M6502Ins::LdyZP(InsAttr { opcode: op, len: 2, cyc: 3 })),
        0xA5 => Some(M6502Ins::LdaZP(InsAttr { opcode: op, len: 2, cyc: 3 })),
        0xA6 => Some(M6502Ins::LdxZP(InsAttr { opcode: op, len: 2, cyc: 3 })),
        0xA8 => Some(M6502Ins::Tay(InsAttr { opcode: op, len: 1, cyc: 2 })),
        0xA9 => Some(M6502Ins::LdaImm(InsAttr { opcode: op, len: 2, cyc: 2 })),
        0xAA => Some(M6502Ins::Tax(InsAttr { opcode: op, len: 1, cyc: 2 })),
        0xAC => Some(M6502Ins::LdyAbs(InsAttr { opcode: op, len: 3, cyc: 4 })),
        0xAD => Some(M6502Ins::LdaAbs(InsAttr { opcode: op, len: 3, cyc: 4 })),
        0xAE => Some(M6502Ins::LdxAbs(InsAttr { opcode: op, len: 3, cyc: 4 })),
        0xB0 => Some(M6502Ins::Bcs(InsAttr { opcode: op, len: 2, cyc: 2 })),
        0xB1 => Some(M6502Ins::LdaIndY(InsAttr { opcode: op, len: 2, cyc: 5 })),
        0xB4 => Some(M6502Ins::LdyZPX(InsAttr { opcode: op, len: 2, cyc: 4 })),
        0xB5 => Some(M6502Ins::LdaZPX(InsAttr { opcode: op, len: 2, cyc: 4 })),
        0xB6 => Some(M6502Ins::LdxZPY(InsAttr { opcode: op, len: 2, cyc: 4 })),
        0xB8 => Some(M6502Ins::Clv(InsAttr { opcode: op, len: 1, cyc: 2 })),
        0xB9 => Some(M6502Ins::LdaAbsY(InsAttr { opcode: op, len: 3, cyc: 4 })),
        0xBA => Some(M6502Ins::Tsx(InsAttr { opcode: op, len: 1, cyc: 2 })),
        0xBC => Some(M6502Ins::LdyAbsX(InsAttr { opcode: op, len: 3, cyc: 4 })),
        0xBD => Some(M6502Ins::LdaAbsX(InsAttr { opcode: op, len: 3, cyc: 4 })),
        0xBE => Some(M6502Ins::LdxAbsY(InsAttr { opcode: op, len: 3, cyc: 4 })),
        0xC0 => Some(M6502Ins::CpyImm(InsAttr { opcode: op, len: 2, cyc: 2 })),
        0xC1 => Some(M6502Ins::CmpIndX(InsAttr { opcode: op, len: 2, cyc: 6 })),
        0xC4 => Some(M6502Ins::CpyZP(InsAttr { opcode: op, len: 2, cyc: 3 })),
        0xC5 => Some(M6502Ins::CmpZP(InsAttr { opcode: op, len: 2, cyc: 3 })),
        0xC6 => Some(M6502Ins::DecZP(InsAttr { opcode: op, len: 2, cyc: 5 })),
        0xC8 => Some(M6502Ins::Iny(InsAttr { opcode: op, len: 1, cyc: 2 })),
        0xC9 => Some(M6502Ins::CmpImm(InsAttr { opcode: op, len: 2, cyc: 2 })),
        0xCA => Some(M6502Ins::Dex(InsAttr { opcode: op, len: 1, cyc: 2 })),
        0xCC => Some(M6502Ins::CpyAbs(InsAttr { opcode: op, len: 3, cyc: 4 })),
        0xCD => Some(M6502Ins::CmpAbs(InsAttr { opcode: op, len: 3, cyc: 4 })),
        0xCE => Some(M6502Ins::DecAbs(InsAttr { opcode: op, len: 3, cyc: 6 })),
        0xD0 => Some(M6502Ins::Bne(InsAttr { opcode: op, len: 2, cyc: 2 })),
        0xD1 => Some(M6502Ins::CmpIndY(InsAttr { opcode: op, len: 2, cyc: 5 })),
        0xD5 => Some(M6502Ins::CmpZPX(InsAttr { opcode: op, len: 2, cyc: 4 })),
        0xD6 => Some(M6502Ins::DecZPX(InsAttr { opcode: op, len: 2, cyc: 6 })),
        0xD8 => Some(M6502Ins::Cld(InsAttr { opcode: op, len: 1, cyc: 2 })),
        0xD9 => Some(M6502Ins::CmpAbsY(InsAttr { opcode: op, len: 3, cyc: 4 })),
        0xDD => Some(M6502Ins::CmpAbsX(InsAttr { opcode: op, len: 3, cyc: 4 })),
        0xDE => Some(M6502Ins::DecAbsX(InsAttr { opcode: op, len: 3, cyc: 7 })),
        0xE0 => Some(M6502Ins::CpxImm(InsAttr { opcode: op, len: 2, cyc: 2 })),
        0xE1 => Some(M6502Ins::SbcIndX(InsAttr { opcode: op, len: 2, cyc: 6 })),
        0xE4 => Some(M6502Ins::CpxZP(InsAttr { opcode: op, len: 2, cyc: 3 })),
        0xE5 => Some(M6502Ins::SbcZP(InsAttr { opcode: op, len: 2, cyc: 3 })),
        0xE6 => Some(M6502Ins::IncZP(InsAttr { opcode: op, len: 2, cyc: 5 })),
        0xE8 => Some(M6502Ins::Inx(InsAttr { opcode: op, len: 1, cyc: 2 })),
        0xE9 => Some(M6502Ins::SbcImm(InsAttr { opcode: op, len: 2, cyc: 2 })),
        0xEA => Some(M6502Ins::Nop(InsAttr { opcode: op, len: 1, cyc: 2 })),
        0xEC => Some(M6502Ins::CpxAbs(InsAttr { opcode: op, len: 3, cyc: 4 })),
        0xED => Some(M6502Ins::SbcAbs(InsAttr { opcode: op, len: 3, cyc: 4 })),
        0xEE => Some(M6502Ins::IncAbs(InsAttr { opcode: op, len: 3, cyc: 6 })),
        0xF0 => Some(M6502Ins::Beq(InsAttr { opcode: op, len: 2, cyc: 2 })),
        0xF1 => Some(M6502Ins::SbcIndY(InsAttr { opcode: op, len: 2, cyc: 5 })),
        0xF5 => Some(M6502Ins::SbcZPX(InsAttr { opcode: op, len: 2, cyc: 4 })),
        0xF6 => Some(M6502Ins::IncZPX(InsAttr { opcode: op, len: 2, cyc: 6 })),
        0xF8 => Some(M6502Ins::Sed(InsAttr { opcode: op, len: 1, cyc: 2 })),
        0xF9 => Some(M6502Ins::SbcAbsY(InsAttr { opcode: op, len: 3, cyc: 4 })),
        0xFD => Some(M6502Ins::SbcAbsX(InsAttr { opcode: op, len: 3, cyc: 4 })),
        0xFE => Some(M6502Ins::IncAbsX(InsAttr { opcode: op, len: 3, cyc: 7 })),
        _ => None,
    }
}

/// What decoding returns: the table's instruction, or the error naming
/// the opcode exactly when the table has no entry for it.
pub open spec fn spec_parse_result(op: u8) -> Result<M6502Ins, InvalidOpcodeError> {
    match spec_parse(op) {
        Some(ins) => Ok(ins),
        None => Err(InvalidOpcodeError { opcode: op }),
    }
}

/// Decode one opcode byte against the full 256-entry table.
///
/// Returns `Ok` with the table's instruction exactly when the byte has a
/// documented assignment, and `Err` naming the byte otherwise.
pub fn parse(opcode: u8) -> (r: Result<M6502Ins, InvalidOpcodeError>)
    ensures
        r == spec_parse_result(opcode),
{
    match opcode {
        0x00..=0x0F => parse_prefix_0_instruction(opcode),
        0x10..=0x1F => parse_prefix_1_instruction(opcode),
        0x20..=0x2F => parse_prefix_2_instruction(opcode),
        0x30..=0x3F => parse_prefix_3_instruction(opcode),
        0x40..=0x4F => parse_prefix_4_instruction(opcode),
        0x50..=0x5F => parse_prefix_5_instruction(opcode),
        0x60..=0x6F => parse_prefix_6_instruction(opcode),
        0x70..=0x7F => parse_prefix_7_instruction(opcode),
        0x80..=0x8F => parse_prefix_8_instruction(opcode),
        0x90..=0x9F => parse_prefix_9_instruction(opcode),
        0xA0..=0xAF => parse_prefix_a_instruction(opcode),
        0xB0..=0xBF => parse_prefix_b_instruction(opcode),
        0xC0..=0xCF => parse_prefix_c_instruction(opcode),
        0xD0..=0xDF => parse_prefix_d_instruction(opcode),
        0xE0..=0xEF => parse_prefix_e_instruction(opcode),
        0xF0..=0xFF => parse_prefix_f_instruction(opcode),
    }
}

/// Decode an opcode whose upper nibble is `0x0`.
fn parse_prefix_0_instruction(op: u8) -> (r: Result<M6502Ins, InvalidOpcodeError>)
    requires
        0x00 <= op <= 0x0F,
    ensures
        r == spec_parse_result(op),
{
    proof {
        reveal(spec_parse);
    }
    match op {
        0x00 => Ok(M6502Ins::Brk(InsAttr::new(op, 1, 7))),
        0x01 => Ok(M6502Ins::OraIndX(InsAttr::new(op, 2, 6))),
        0x05 => Ok(M6502Ins::OraZP(InsAttr::new(op, 2, 3))),
        0x06 => Ok(M6502Ins::AslZP(InsAttr::new(op, 2, 5))),
        0x08 => Ok(M6502Ins::Php(InsAttr::new(op, 1, 3))),
        0x09 => Ok(M6502Ins::OraImm(InsAttr::new(op, 2, 2))),
        0x0A => Ok(M6502Ins::AslAcc(InsAttr::new(op, 1, 2))),
        0x0D => Ok(M6502Ins::OraAbs(InsAttr::new(op, 3, 4))),
        0x0E => Ok(M6502Ins::AslAbs(InsAttr::new(op, 3, 6))),
        _ => Err(InvalidOpcodeError { opcode: op }),
    }
}

/// Decode an opcode whose upper nibble is `0x1`.
fn parse_prefix_1_instruction(op: u8) -> (r: Result<M6502Ins, InvalidOpcodeError>)
    requires
        0x10 <= op <= 0x1F,
    ensures
        r == spec_parse_result(op),
{
    proof {
        reveal(spec_parse);
    }
    match op {
        0x10 => Ok(M6502Ins::Bpl(InsAttr::new(op, 2, 2))),
        0x11 => Ok(M6502Ins::OraIndY(InsAttr::new(op, 2, 5))),
        0x15 => Ok(M6502Ins::OraZPX(InsAttr::new(op, 2, 4))),
        0x16 => Ok(M6502Ins::AslZPX(InsAttr::new(op, 2, 6))),
        0x18 => Ok(M6502Ins::Clc(InsAttr::new(op, 1, 2))),
        0x19 => Ok(M6502Ins::OraAbsY(InsAttr::new(op, 3, 4))),
        0x1D => Ok(M6502Ins::OraAbsX(InsAttr::new(op, 3, 4))),
        0x1E => Ok(M6502Ins::AslAbsX(InsAttr::new(op, 3, 7))),
        _ => Err(InvalidOpcodeError { opcode: op }),
    }
}

/// Decode an opcode whose upper nibble is `0x2`.
fn parse_prefix_2_instruction(op: u8) -> (r: Result<M6502Ins, InvalidOpcodeError>)
    requires
        0x20 <= op <= 0x2F,
    ensures
        r == spec_parse_result(op),
{
    proof {
        reveal(spec_parse);
    }
    match op {
        0x20 => Ok(M6502Ins::Jsr(InsAttr::new(op, 3, 6))),
        0x21 => Ok(M6502Ins::AndIndX(InsAttr::new(op, 2, 6))),
        0x24 => Ok(M6502Ins::BitZP(InsAttr::new(op, 2, 3))),
        0x25 => Ok(M6502Ins::AndZP(InsAttr::new(op, 2, 3))),
        0x26 => Ok(M6502Ins::RolZP(InsAttr::new(op, 2, 5))),
        0x28 => Ok(M6502Ins::Plp(InsAttr::new(op, 1, 4))),
        0x29 => Ok(M6502Ins::AndImm(InsAttr::new(op, 2, 2))),
        0x2A => Ok(M6502Ins::RolAcc(InsAttr::new(op, 1, 2))),
        0x2C => Ok(M6502Ins::BitAbs(InsAttr::new(op, 3, 4))),
        0x2D => Ok(M6502Ins::AndAbs(InsAttr::new(op, 3, 4))),
        0x2E => Ok(M6502Ins::RolAbs(InsAttr::new(op, 3, 6))),
        _ => Err(InvalidOpcodeError { opcode: op }),
    }
}

/// Decode an opcode whose upper nibble is `0x3`.
fn parse_prefix_3_instruction(op: u8) -> (r: Result<M6502Ins, InvalidOpcodeError>)
    requires
        0x30 <= op <= 0x3F,
    ensures
        r == spec_parse_result(op),
{
    proof {
        reveal(spec_parse);
    }
    match op {
        0x30 => Ok(M6502Ins::Bmi(InsAttr::new(op, 2, 2))),
        0x31 => Ok(M6502Ins::AndIndY(InsAttr::new(op, 2, 5))),
        0x35 => Ok(M6502Ins::AndZPX(InsAttr::new(op, 2, 4))),
        0x36 => Ok(M6502Ins::RolZPX(InsAttr::new(op, 2, 6))),
        0x38 => Ok(M6502Ins::Sec(InsAttr::new(op, 1, 2))),
        0x39 => Ok(M6502Ins::AndAbsY(InsAttr::new(op, 3, 4))),
        0x3D => Ok(M6502Ins::AndAbsX(InsAttr::new(op, 3, 4))),
        0x3E => Ok(M6502Ins::RolAbsX(InsAttr::new(op, 3, 7))),
        _ => Err(InvalidOpcodeError { opcode: op }),
    }
}

/// Decode an opcode whose upper nibble is `0x4`.
fn parse_prefix_4_instruction(op: u8) -> (r: Result<M6502Ins, InvalidOpcodeError>)
    requires
        0x40 <= op <= 0x4F,
    ensures
        r == spec_parse_result(op),
{
    proof {
        reveal(spec_parse);
    }
    match op {
        0x40 => Ok(M6502Ins::Rti(InsAttr::new(op, 1, 6))),
        0x41 => Ok(M6502Ins::EorIndX(InsAttr::new(op, 2, 6))),
        0x45 => Ok(M6502Ins::EorZP(InsAttr::new(op, 2, 3))),
        0x46 => Ok(M6502Ins::LsrZP(InsAttr::new(op, 2, 5))),
        0x48 => Ok(M6502Ins::Pha(InsAttr::new(op, 1, 3))),
        0x49 => Ok(M6502Ins::EorImm(InsAttr::new(op, 2, 2))),
        0x4A => Ok(M6502Ins::LsrAcc(InsAttr::new(op, 1, 2))),
        0x4C => Ok(M6502Ins::JmpAbs(InsAttr::new(op, 3, 3))),
        0x4D => Ok(M6502Ins::EorAbs(InsAttr::new(op, 3, 4))),
        0x4E => Ok(M6502Ins::LsrAbs(InsAttr::new(op, 3, 6))),
        _ => Err(InvalidOpcodeError { opcode: op }),
    }
}

/// Decode an opcode whose upper nibble is `0x5`.
fn parse_prefix_5_instruction(op: u8) -> (r: Result<M6502Ins, InvalidOpcodeError>)
    requires
        0x50 <= op <= 0x5F,
    ensures
        r == spec_parse_result(op),
{
    proof {
        reveal(spec_parse);
    }
    match op {
        0x50 => Ok(M6502Ins::Bvc(InsAttr::new(op, 2, 2))),
        0x51 => Ok(M6502Ins::EorIndY(InsAttr::new(op, 2, 5))),
        0x55 => Ok(M6502Ins::EorZPX(InsAttr::new(op, 2, 4))),
        0x56 => Ok(M6502Ins::LsrZPX(InsAttr::new(op, 2, 6))),
        0x58 => Ok(M6502Ins::Cli(InsAttr::new(op, 1, 2))),
        0x59 => Ok(M6502Ins::EorAbsY(InsAttr::new(op, 3, 4))),
        0x5D => Ok(M6502Ins::EorAbsX(InsAttr::new(op, 3, 4))),
        0x5E => Ok(M6502Ins::LsrAbsX(InsAttr::new(op, 3, 7))),
        _ => Err(InvalidOpcodeError { opcode: op }),
    }
}

/// Decode an opcode whose upper nibble is `0x6`.
fn parse_prefix_6_instruction(op: u8) -> (r: Result<M6502Ins, InvalidOpcodeError>)
    requires
        0x60 <= op <= 0x6F,
    ensures
        r == spec_parse_result(op),
{
    proof {
        reveal(spec_parse);
    }
    match op {
        0x60 => Ok(M6502Ins::Rts(InsAttr::new(op, 1, 6))),
        0x61 => Ok(M6502Ins::AdcIndX(InsAttr::new(op, 2, 6))),
        0x65 => Ok(M6502Ins::AdcZP(InsAttr::new(op, 2, 3))),
        0x66 => Ok(M6502Ins::RorZP(InsAttr::new(op, 2, 5))),
        0x68 => Ok(M6502Ins::Pla(InsAttr::new(op, 1, 4))),
        0x69 => Ok(M6502Ins::AdcImm(InsAttr::new(op, 2, 2))),
        0x6A => Ok(M6502Ins::RorAcc(InsAttr::new(op, 1, 2))),
        0x6C => Ok(M6502Ins::JmpInd(InsAttr::new(op, 3, 5))),
        0x6D => Ok(M6502Ins::AdcAbs(InsAttr::new(op, 3, 4))),
        0x6E => Ok(M6502Ins::RorAbs(InsAttr::new(op, 3, 6))),
        _ => Err(InvalidOpcodeError { opcode: op }),
    }
}

/// Decode an opcode whose upper nibble is `0x7`.
fn parse_prefix_7_instruction(op: u8) -> (r: Result<M6502Ins, InvalidOpcodeError>)
    requires
        0x70 <= op <= 0x7F,
    ensures
        r == spec_parse_result(op),
{
    proof {
        reveal(spec_parse);
    }
    match op {
        0x70 => Ok(M6502Ins::Bvs(InsAttr::new(op, 2, 2))),
        0x71 => Ok(M6502Ins::AdcIndY(InsAttr::new(op, 2, 5))),
        0x75 => Ok(M6502Ins::AdcZPX(InsAttr::new(op, 2, 4))),
        0x76 => Ok(M6502Ins::RorZPX(InsAttr::new(op, 2, 6))),
        0x78 => Ok(M6502Ins::Sei(InsAttr::new(op, 1, 2))),
        0x79 => Ok(M6502Ins::AdcAbsY(InsAttr::new(op, 3, 4))),
        0x7D => Ok(M6502Ins::AdcAbsX(InsAttr::new(op, 3, 4))),
        0x7E => Ok(M6502Ins::RorAbsX(InsAttr::new(op, 3, 7))),
        _ => Err(InvalidOpcodeError { opcode: op }),
    }
}

/// Decode an opcode whose upper nibble is `0x8`.
fn parse_prefix_8_instruction(op: u8) -> (r: Result<M6502Ins, InvalidOpcodeError>)
    requires
        0x80 <= op <= 0x8F,
    ensures
        r == spec_parse_result(op),
{
    proof {
        reveal(spec_parse);
    }
    match op {
        0x81 => Ok(M6502Ins::StaIndX(InsAttr::new(op, 2, 6))),
        0x84 => Ok(M6502Ins::StyZP(InsAttr::new(op, 2, 3))),
        0x85 => Ok(M6502Ins::StaZP(InsAttr::new(op, 2, 3))),
        0x86 => Ok(M6502Ins::StxZP(InsAttr::new(op, 2, 3))),
        0x88 => Ok(M6502Ins::Dey(InsAttr::new(op, 1, 2))),
        0x8A => Ok(M6502Ins::Txa(InsAttr::new(op, 1, 2))),
        0x8C => Ok(M6502Ins::StyAbs(InsAttr::new(op, 3, 4))),
        0x8D => Ok(M6502Ins::StaAbs(InsAttr::new(op, 3, 4))),
        0x8E => Ok(M6502Ins::StxAbs(InsAttr::new(op, 3, 4))),
        _ => Err(InvalidOpcodeError { opcode: op }),
    }
}

/// Decode an opcode whose upper nibble is `0x9`.
fn parse_prefix_9_instruction(op: u8) -> (r: Result<M6502Ins, InvalidOpcodeError>)
    requires
        0x90 <= op <= 0x9F,
    ensures
        r == spec_parse_result(op),
{
    proof {
        reveal(spec_parse);
    }
    match op {
        0x90 => Ok(M6502Ins::Bcc(InsAttr::new(op, 2, 2))),
        0x91 => Ok(M6502Ins::StaIndY(InsAttr::new(op, 2, 6))),
        0x94 => Ok(M6502Ins::StyZPX(InsAttr::new(op, 2, 4))),
        0x95 => Ok(M6502Ins::StaZPX(InsAttr::new(op, 2, 4))),
        0x96 => Ok(M6502Ins::StxZPY(InsAttr::new(op, 2, 4))),
        0x98 => Ok(M6502Ins::Tya(InsAttr::new(op, 1, 2))),
        0x99 => Ok(M6502Ins::StaAbsY(InsAttr::new(op, 3, 5))),
        0x9A => Ok(M6502Ins::Txs(InsAttr::new(op, 1, 2))),
        0x9D => Ok(M6502Ins::StaAbsX(InsAttr::new(op, 3, 5))),
        _ => Err(InvalidOpcodeError { opcode: op }),
    }
}

/// Decode an opcode whose upper nibble is `0xA`.
fn parse_prefix_a_instruction(op: u8) -> (r: Result<M6502Ins, InvalidOpcodeError>)
    requires
        0xA0 <= op <= 0xAF,
    ensures
        r == spec_parse_result(op),
{
    proof {
        reveal(spec_parse);
    }
    match op {
        0xA0 => Ok(M6502Ins::LdyImm(InsAttr::new(op, 2, 2))),
        0xA1 => Ok(M6502Ins::LdaIndX(InsAttr::new(op, 2, 6))),
        0xA2 => Ok(M6502Ins::LdxImm(InsAttr::new(op, 2, 2))),
        0xA4 => Ok(M6502Ins::LdyZP(InsAttr::new(op, 2, 3))),
        0xA5 => Ok(M6502Ins::LdaZP(InsAttr::new(op, 2, 3))),
        0xA6 => Ok(M6502Ins::LdxZP(InsAttr::new(op, 2, 3))),
        0xA8 => Ok(M6502Ins::Tay(InsAttr::new(op, 1, 2))),
        0xA9 => Ok(M6502Ins::LdaImm(InsAttr::new(op, 2, 2))),
        0xAA => Ok(M6502Ins::Tax(InsAttr::new(op, 1, 2))),
        0xAC => Ok(M6502Ins::LdyAbs(InsAttr::new(op, 3, 4))),
        0xAD => Ok(M6502Ins::LdaAbs(InsAttr::new(op, 3, 4))),
        0xAE => Ok(M6502Ins::LdxAbs(InsAttr::new(op, 3, 4))),
        _ => Err(InvalidOpcodeError { opcode: op }),
    }
}

/// Decode an opcode whose upper nibble is `0xB`.
fn parse_prefix_b_instruction(op: u8) -> (r: Result<M6502Ins, InvalidOpcodeError>)
    requires
        0xB0 <= op <= 0xBF,
    ensures
        r == spec_parse_result(op),
{
    proof {
        reveal(spec_parse);
    }
    match op {
        0xB0 => Ok(M6502Ins::Bcs(InsAttr::new(op, 2, 2))),
        0xB1 => Ok(M6502Ins::LdaIndY(InsAttr::new(op, 2, 5))),
        0xB4 => Ok(M6502Ins::LdyZPX(InsAttr::new(op, 2, 4))),
        0xB5 => Ok(M6502Ins::LdaZPX(InsAttr::new(op, 2, 4))),
        0xB6 => Ok(M6502Ins::LdxZPY(InsAttr::new(op, 2, 4))),
        0xB8 => Ok(M6502Ins::Clv(InsAttr::new(op, 1, 2))),
        0xB9 => Ok(M6502Ins::LdaAbsY(InsAttr::new(op, 3, 4))),
        0xBA => Ok(M6502Ins::Tsx(InsAttr::new(op, 1, 2))),
        0xBC => Ok(M6502Ins::LdyAbsX(InsAttr::new(op, 3, 4))),
        0xBD => Ok(M6502Ins::LdaAbsX(InsAttr::new(op, 3, 4))),
        0xBE => Ok(M6502Ins::LdxAbsY(InsAttr::new(op, 3, 4))),
        _ => Err(InvalidOpcodeError { opcode: op }),
    }
}

/// Decode an opcode whose upper nibble is `0xC`.
fn parse_prefix_c_instruction(op: u8) -> (r: Result<M6502Ins, InvalidOpcodeError>)
    requires
        0xC0 <= op <= 0xCF,
    ensures
        r == spec_parse_result(op),
{
    proof {
        reveal(spec_parse);
    }
    match op {
        0xC0 => Ok(M6502Ins::CpyImm(InsAttr::new(op, 2, 2))),
        0xC1 => Ok(M6502Ins::CmpIndX(InsAttr::new(op, 2, 6))),
        0xC4 => Ok(M6502Ins::CpyZP(InsAttr::new(op, 2, 3))),
        0xC5 => Ok(M6502Ins::CmpZP(InsAttr::new(op, 2, 3))),
        0xC6 => Ok(M6502Ins::DecZP(InsAttr::new(op, 2, 5))),
        0xC8 => Ok(M6502Ins::Iny(InsAttr::new(op, 1, 2))),
        0xC9 => Ok(M6502Ins::CmpImm(InsAttr::new(op, 2, 2))),
        0xCA => Ok(M6502Ins::Dex(InsAttr::new(op, 1, 2))),
        0xCC => Ok(M6502Ins::CpyAbs(InsAttr::new(op, 3, 4))),
        0xCD => Ok(M6502Ins::CmpAbs(InsAttr::new(op, 3, 4))),
        0xCE => Ok(M6502Ins::DecAbs(InsAttr::new(op, 3, 6))),
        _ => Err(InvalidOpcodeError { opcode: op }),
    }
}

/// Decode an opcode whose upper nibble is `0xD`.
fn parse_prefix_d_instruction(op: u8) -> (r: Result<M6502Ins, InvalidOpcodeError>)
    requires
        0xD0 <= op <= 0xDF,
    ensures
        r == spec_parse_result(op),
{
    proof {
        reveal(spec_parse);
    }
    match op {
        0xD0 => Ok(M6502Ins::Bne(InsAttr::new(op, 2, 2))),
        0xD1 => Ok(M6502Ins::CmpIndY(InsAttr::new(op, 2, 5))),
        0xD5 => Ok(M6502Ins::CmpZPX(InsAttr::new(op, 2, 4))),
        0xD6 => Ok(M6502Ins::DecZPX(InsAttr::new(op, 2, 6))),
        0xD8 => Ok(M6502Ins::Cld(InsAttr::new(op, 1, 2))),
        0xD9 => Ok(M6502Ins::CmpAbsY(InsAttr::new(op, 3, 4))),
        0xDD => Ok(M6502Ins::CmpAbsX(InsAttr::new(op, 3, 4))),
        0xDE => Ok(M6502Ins::DecAbsX(InsAttr::new(op, 3, 7))),
        _ => Err(InvalidOpcodeError { opcode: op }),
    }
}

/// Decode an opcode whose upper nibble is `0xE`.
fn parse_prefix_e_instruction(op: u8) -> (r: Result<M6502Ins, InvalidOpcodeError>)
    requires
        0xE0 <= op <= 0xEF,
    ensures
        r == spec_parse_result(op),
{
    proof {
        reveal(spec_parse);
    }
    match op {
        0xE0 => Ok(M6502Ins::CpxImm(InsAttr::new(op, 2, 2))),
        0xE1 => Ok(M6502Ins::SbcIndX(InsAttr::new(op, 2, 6))),
        0xE4 => Ok(M6502Ins::CpxZP(InsAttr::new(op, 2, 3))),
        0xE5 => Ok(M6502Ins::SbcZP(InsAttr::new(op, 2, 3))),
        0xE6 => Ok(M6502Ins::IncZP(InsAttr::new(op, 2, 5))),
        0xE8 => Ok(M6502Ins::Inx(InsAttr::new(op, 1, 2))),
        0xE9 => Ok(M6502Ins::SbcImm(InsAttr::new(op, 2, 2))),
        0xEA => Ok(M6502Ins::Nop(InsAttr::new(op, 1, 2))),
        0xEC => Ok(M6502Ins::CpxAbs(InsAttr::new(op, 3, 4))),
        0xED => Ok(M6502Ins::SbcAbs(InsAttr::new(op, 3, 4))),
        0xEE => Ok(M6502Ins::IncAbs(InsAttr::new(op, 3, 6))),
        _ => Err(InvalidOpcodeError { opcode: op }),
    }
}

/// Decode an opcode whose upper nibble is `0xF`.
fn parse_prefix_f_instruction(op: u8) -> (r: Result<M6502Ins, InvalidOpcodeError>)
    requires
        0xF0 <= op <= 0xFF,
    ensures
        r == spec_parse_result(op),
{
    proof {
        reveal(spec_parse);
    }
    match op {
        0xF0 => Ok(M6502Ins::Beq(InsAttr::new(op, 2, 2))),
        0xF1 => Ok(M6502Ins::SbcIndY(InsAttr::new(op, 2, 5))),
        0xF5 => Ok(M6502Ins::SbcZPX(InsAttr::new(op, 2, 4))),
        0xF6 => Ok(M6502Ins::IncZPX(InsAttr::new(op, 2, 6))),
        0xF8 => Ok(M6502Ins::Sed(InsAttr::new(op, 1, 2))),
        0xF9 => Ok(M6502Ins::SbcAbsY(InsAttr::new(op, 3, 4))),
        0xFD => Ok(M6502Ins::SbcAbsX(InsAttr::new(op, 3, 4))),
        0xFE => Ok(M6502Ins::IncAbsX(InsAttr::new(op, 3, 7))),
        _ => Err(InvalidOpcodeError { opcode: op }),
    }
}

} // verus!
