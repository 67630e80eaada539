//! The decoder against the published reference table: every one of the
//! 256 byte values, the documented ones with their mnemonic, addressing
//! mode, length and base cycle count, the rest reported as illegal.

use mos6502::insset::{InsAttr, M6502Ins};
use mos6502::parser::{parse, InvalidOpcodeError};

/// The 151 documented opcodes.
fn legal_opcodes() -> Vec<u8> {
    vec![
        0x00, 0x01, 0x05, 0x06, 0x08, 0x09, 0x0A, 0x0D, 0x0E, 0x10, 0x11, 0x15, 0x16,
        0x18, 0x19, 0x1D, 0x1E, 0x20, 0x21, 0x24, 0x25, 0x26, 0x28, 0x29, 0x2A, 0x2C,
        0x2D, 0x2E, 0x30, 0x31, 0x35, 0x36, 0x38, 0x39, 0x3D, 0x3E, 0x40, 0x41, 0x45,
        0x46, 0x48, 0x49, 0x4A, 0x4C, 0x4D, 0x4E, 0x50, 0x51, 0x55, 0x56, 0x58, 0x59,
        0x5D, 0x5E, 0x60, 0x61, 0x65, 0x66, 0x68, 0x69, 0x6A, 0x6C, 0x6D, 0x6E, 0x70,
        0x71, 0x75, 0x76, 0x78, 0x79, 0x7D, 0x7E, 0x81, 0x84, 0x85, 0x86, 0x88, 0x8A,
        0x8C, 0x8D, 0x8E, 0x90, 0x91, 0x94, 0x95, 0x96, 0x98, 0x99, 0x9A, 0x9D, 0xA0,
        0xA1, 0xA2, 0xA4, 0xA5, 0xA6, 0xA8, 0xA9, 0xAA, 0xAC, 0xAD, 0xAE, 0xB0, 0xB1,
        0xB4, 0xB5, 0xB6, 0xB8, 0xB9, 0xBA, 0xBC, 0xBD, 0xBE, 0xC0, 0xC1, 0xC4, 0xC5,
        0xC6, 0xC8, 0xC9, 0xCA, 0xCC, 0xCD, 0xCE, 0xD0, 0xD1, 0xD5, 0xD6, 0xD8, 0xD9,
        0xDD, 0xDE, 0xE0, 0xE1, 0xE4, 0xE5, 0xE6, 0xE8, 0xE9, 0xEA, 0xEC, 0xED, 0xEE,
        0xF0, 0xF1, 0xF5, 0xF6, 0xF8, 0xF9, 0xFD, 0xFE,
    ]
}

#[test]
fn decode_matches_reference_table() {
    assert_eq!(parse(0x00), Ok(M6502Ins::Brk(InsAttr::new(0x00, 1, 7))));
    assert_eq!(parse(0x01), Ok(M6502Ins::OraIndX(InsAttr::new(0x01, 2, 6))));
    assert_eq!(parse(0x05), Ok(M6502Ins::OraZP(InsAttr::new(0x05, 2, 3))));
    assert_eq!(parse(0x06), Ok(M6502Ins::AslZP(InsAttr::new(0x06, 2, 5))));
    assert_eq!(parse(0x08), Ok(M6502Ins::Php(InsAttr::new(0x08, 1, 3))));
    assert_eq!(parse(0x09), Ok(M6502Ins::OraImm(InsAttr::new(0x09, 2, 2))));
    assert_eq!(parse(0x0A), Ok(M6502Ins::AslAcc(InsAttr::new(0x0A, 1, 2))));
    assert_eq!(parse(0x0D), Ok(M6502Ins::OraAbs(InsAttr::new(0x0D, 3, 4))));
    assert_eq!(parse(0x0E), Ok(M6502Ins::AslAbs(InsAttr::new(0x0E, 3, 6))));
    assert_eq!(parse(0x10), Ok(M6502Ins::Bpl(InsAttr::new(0x10, 2, 2))));
    assert_eq!(parse(0x11), Ok(M6502Ins::OraIndY(InsAttr::new(0x11, 2, 5))));
    assert_eq!(parse(0x15), Ok(M6502Ins::OraZPX(InsAttr::new(0x15, 2, 4))));
    assert_eq!(parse(0x16), Ok(M6502Ins::AslZPX(InsAttr::new(0x16, 2, 6))));
    assert_eq!(parse(0x18), Ok(M6502Ins::Clc(InsAttr::new(0x18, 1, 2))));
    assert_eq!(parse(0x19), Ok(M6502Ins::OraAbsY(InsAttr::new(0x19, 3, 4))));
    assert_eq!(parse(0x1D), Ok(M6502Ins::OraAbsX(InsAttr::new(0x1D, 3, 4))));
    assert_eq!(parse(0x1E), Ok(M6502Ins::AslAbsX(InsAttr::new(0x1E, 3, 7))));
    assert_eq!(parse(0x20), Ok(M6502Ins::Jsr(InsAttr::new(0x20, 3, 6))));
    assert_eq!(parse(0x21), Ok(M6502Ins::AndIndX(InsAttr::new(0x21, 2, 6))));
    assert_eq!(parse(0x24), Ok(M6502Ins::BitZP(InsAttr::new(0x24, 2, 3))));
    assert_eq!(parse(0x25), Ok(M6502Ins::AndZP(InsAttr::new(0x25, 2, 3))));
    assert_eq!(parse(0x26), Ok(M6502Ins::RolZP(InsAttr::new(0x26, 2, 5))));
    assert_eq!(parse(0x28), Ok(M6502Ins::Plp(InsAttr::new(0x28, 1, 4))));
    assert_eq!(parse(0x29), Ok(M6502Ins::AndImm(InsAttr::new(0x29, 2, 2))));
    assert_eq!(parse(0x2A), Ok(M6502Ins::RolAcc(InsAttr::new(0x2A, 1, 2))));
    assert_eq!(parse(0x2C), Ok(M6502Ins::BitAbs(InsAttr::new(0x2C, 3, 4))));
    assert_eq!(parse(0x2D), Ok(M6502Ins::AndAbs(InsAttr::new(0x2D, 3, 4))));
    assert_eq!(parse(0x2E), Ok(M6502Ins::RolAbs(InsAttr::new(0x2E, 3, 6))));
    assert_eq!(parse(0x30), Ok(M6502Ins::Bmi(InsAttr::new(0x30, 2, 2))));
    assert_eq!(parse(0x31), Ok(M6502Ins::AndIndY(InsAttr::new(0x31, 2, 5))));
    assert_eq!(parse(0x35), Ok(M6502Ins::AndZPX(InsAttr::new(0x35, 2, 4))));
    assert_eq!(parse(0x36), Ok(M6502Ins::RolZPX(InsAttr::new(0x36, 2, 6))));
    assert_eq!(parse(0x38), Ok(M6502Ins::Sec(InsAttr::new(0x38, 1, 2))));
    assert_eq!(parse(0x39), Ok(M6502Ins::AndAbsY(InsAttr::new(0x39, 3, 4))));
    assert_eq!(parse(0x3D), Ok(M6502Ins::AndAbsX(InsAttr::new(0x3D, 3, 4))));
    assert_eq!(parse(0x3E), Ok(M6502Ins::RolAbsX(InsAttr::new(0x3E, 3, 7))));
    assert_eq!(parse(0x40), Ok(M6502Ins::Rti(InsAttr::new(0x40, 1, 6))));
    assert_eq!(parse(0x41), Ok(M6502Ins::EorIndX(InsAttr::new(0x41, 2, 6))));
    assert_eq!(parse(0x45), Ok(M6502Ins::EorZP(InsAttr::new(0x45, 2, 3))));
    assert_eq!(parse(0x46), Ok(M6502Ins::LsrZP(InsAttr::new(0x46, 2, 5))));
    assert_eq!(parse(0x48), Ok(M6502Ins::Pha(InsAttr::new(0x48, 1, 3))));
    assert_eq!(parse(0x49), Ok(M6502Ins::EorImm(InsAttr::new(0x49, 2, 2))));
    assert_eq!(parse(0x4A), Ok(M6502Ins::LsrAcc(InsAttr::new(0x4A, 1, 2))));
    assert_eq!(parse(0x4C), Ok(M6502Ins::JmpAbs(InsAttr::new(0x4C, 3, 3))));
    assert_eq!(parse(0x4D), Ok(M6502Ins::EorAbs(InsAttr::new(0x4D, 3, 4))));
    assert_eq!(parse(0x4E), Ok(M6502Ins::LsrAbs(InsAttr::new(0x4E, 3, 6))));
    assert_eq!(parse(0x50), Ok(M6502Ins::Bvc(InsAttr::new(0x50, 2, 2))));
    assert_eq!(parse(0x51), Ok(M6502Ins::EorIndY(InsAttr::new(0x51, 2, 5))));
    assert_eq!(parse(0x55), Ok(M6502Ins::EorZPX(InsAttr::new(0x55, 2, 4))));
    assert_eq!(parse(0x56), Ok(M6502Ins::LsrZPX(InsAttr::new(0x56, 2, 6))));
    assert_eq!(parse(0x58), Ok(M6502Ins::Cli(InsAttr::new(0x58, 1, 2))));
    assert_eq!(parse(0x59), Ok(M6502Ins::EorAbsY(InsAttr::new(0x59, 3, 4))));
    assert_eq!(parse(0x5D), Ok(M6502Ins::EorAbsX(InsAttr::new(0x5D, 3, 4))));
    assert_eq!(parse(0x5E), Ok(M6502Ins::LsrAbsX(InsAttr::new(0x5E, 3, 7))));
    assert_eq!(parse(0x60), Ok(M6502Ins::Rts(InsAttr::new(0x60, 1, 6))));
    assert_eq!(parse(0x61), Ok(M6502Ins::AdcIndX(InsAttr::new(0x61, 2, 6))));
    assert_eq!(parse(0x65), Ok(M6502Ins::AdcZP(InsAttr::new(0x65, 2, 3))));
    assert_eq!(parse(0x66), Ok(M6502Ins::RorZP(InsAttr::new(0x66, 2, 5))));
    assert_eq!(parse(0x68), Ok(M6502Ins::Pla(InsAttr::new(0x68, 1, 4))));
    assert_eq!(parse(0x69), Ok(M6502Ins::AdcImm(InsAttr::new(0x69, 2, 2))));
    assert_eq!(parse(0x6A), Ok(M6502Ins::RorAcc(InsAttr::new(0x6A, 1, 2))));
    assert_eq!(parse(0x6C), Ok(M6502Ins::JmpInd(InsAttr::new(0x6C, 3, 5))));
    assert_eq!(parse(0x6D), Ok(M6502Ins::AdcAbs(InsAttr::new(0x6D, 3, 4))));
    assert_eq!(parse(0x6E), Ok(M6502Ins::RorAbs(InsAttr::new(0x6E, 3, 6))));
    assert_eq!(parse(0x70), Ok(M6502Ins::Bvs(InsAttr::new(0x70, 2, 2))));
    assert_eq!(parse(0x71), Ok(M6502Ins::AdcIndY(InsAttr::new(0x71, 2, 5))));
    assert_eq!(parse(0x75), Ok(M6502Ins::AdcZPX(InsAttr::new(0x75, 2, 4))));
    assert_eq!(parse(0x76), Ok(M6502Ins::RorZPX(InsAttr::new(0x76, 2, 6))));
    assert_eq!(parse(0x78), Ok(M6502Ins::Sei(InsAttr::new(0x78, 1, 2))));
    assert_eq!(parse(0x79), Ok(M6502Ins::AdcAbsY(InsAttr::new(0x79, 3, 4))));
    assert_eq!(parse(0x7D), Ok(M6502Ins::AdcAbsX(InsAttr::new(0x7D, 3, 4))));
    assert_eq!(parse(0x7E), Ok(M6502Ins::RorAbsX(InsAttr::new(0x7E, 3, 7))));
    assert_eq!(parse(0x81), Ok(M6502Ins::StaIndX(InsAttr::new(0x81, 2, 6))));
    assert_eq!(parse(0x84), Ok(M6502Ins::StyZP(InsAttr::new(0x84, 2, 3))));
    assert_eq!(parse(0x85), Ok(M6502Ins::StaZP(InsAttr::new(0x85, 2, 3))));
    assert_eq!(parse(0x86), Ok(M6502Ins::StxZP(InsAttr::new(0x86, 2, 3))));
    assert_eq!(parse(0x88), Ok(M6502Ins::Dey(InsAttr::new(0x88, 1, 2))));
    assert_eq!(parse(0x8A), Ok(M6502Ins::Txa(InsAttr::new(0x8A, 1, 2))));
    assert_eq!(parse(0x8C), Ok(M6502Ins::StyAbs(InsAttr::new(0x8C, 3, 4))));
    assert_eq!(parse(0x8D), Ok(M6502Ins::StaAbs(InsAttr::new(0x8D, 3, 4))));
    assert_eq!(parse(0x8E), Ok(M6502Ins::StxAbs(InsAttr::new(0x8E, 3, 4))));
    assert_eq!(parse(0x90), Ok(M6502Ins::Bcc(InsAttr::new(0x90, 2, 2))));
    assert_eq!(parse(0x91), Ok(M6502Ins::StaIndY(InsAttr::new(0x91, 2, 6))));
    assert_eq!(parse(0x94), Ok(M6502Ins::StyZPX(InsAttr::new(0x94, 2, 4))));
    assert_eq!(parse(0x95), Ok(M6502Ins::StaZPX(InsAttr::new(0x95, 2, 4))));
    assert_eq!(parse(0x96), Ok(M6502Ins::StxZPY(InsAttr::new(0x96, 2, 4))));
    assert_eq!(parse(0x98), Ok(M6502Ins::Tya(InsAttr::new(0x98, 1, 2))));
    assert_eq!(parse(0x99), Ok(M6502Ins::StaAbsY(InsAttr::new(0x99, 3, 5))));
    assert_eq!(parse(0x9A), Ok(M6502Ins::Txs(InsAttr::new(0x9A, 1, 2))));
    assert_eq!(parse(0x9D), Ok(M6502Ins::StaAbsX(InsAttr::new(0x9D, 3, 5))));
    assert_eq!(parse(0xA0), Ok(M6502Ins::LdyImm(InsAttr::new(0xA0, 2, 2))));
    assert_eq!(parse(0xA1), Ok(M6502Ins::LdaIndX(InsAttr::new(0xA1, 2, 6))));
    assert_eq!(parse(0xA2), Ok(M6502Ins::LdxImm(InsAttr::new(0xA2, 2, 2))));
    assert_eq!(parse(0xA4), Ok(M6502Ins::LdyZP(InsAttr::new(0xA4, 2, 3))));
    assert_eq!(parse(0xA5), Ok(M6502Ins::LdaZP(InsAttr::new(0xA5, 2, 3))));
    assert_eq!(parse(0xA6), Ok(M6502Ins::LdxZP(InsAttr::new(0xA6, 2, 3))));
    assert_eq!(parse(0xA8), Ok(M6502Ins::Tay(InsAttr::new(0xA8, 1, 2))));
    assert_eq!(parse(0xA9), Ok(M6502Ins::LdaImm(InsAttr::new(0xA9, 2, 2))));
    assert_eq!(parse(0xAA), Ok(M6502Ins::Tax(InsAttr::new(0xAA, 1, 2))));
    assert_eq!(parse(0xAC), Ok(M6502Ins::LdyAbs(InsAttr::new(0xAC, 3, 4))));
    assert_eq!(parse(0xAD), Ok(M6502Ins::LdaAbs(InsAttr::new(0xAD, 3, 4))));
    assert_eq!(parse(0xAE), Ok(M6502Ins::LdxAbs(InsAttr::new(0xAE, 3, 4))));
    assert_eq!(parse(0xB0), Ok(M6502Ins::Bcs(InsAttr::new(0xB0, 2, 2))));
    assert_eq!(parse(0xB1), Ok(M6502Ins::LdaIndY(InsAttr::new(0xB1, 2, 5))));
    assert_eq!(parse(0xB4), Ok(M6502Ins::LdyZPX(InsAttr::new(0xB4, 2, 4))));
    assert_eq!(parse(0xB5), Ok(M6502Ins::LdaZPX(InsAttr::new(0xB5, 2, 4))));
    assert_eq!(parse(0xB6), Ok(M6502Ins::LdxZPY(InsAttr::new(0xB6, 2, 4))));
    assert_eq!(parse(0xB8), Ok(M6502Ins::Clv(InsAttr::new(0xB8, 1, 2))));
    assert_eq!(parse(0xB9), Ok(M6502Ins::LdaAbsY(InsAttr::new(0xB9, 3, 4))));
    assert_eq!(parse(0xBA), Ok(M6502Ins::Tsx(InsAttr::new(0xBA, 1, 2))));
    assert_eq!(parse(0xBC), Ok(M6502Ins::LdyAbsX(InsAttr::new(0xBC, 3, 4))));
    assert_eq!(parse(0xBD), Ok(M6502Ins::LdaAbsX(InsAttr::new(0xBD, 3, 4))));
    assert_eq!(parse(0xBE), Ok(M6502Ins::LdxAbsY(InsAttr::new(0xBE, 3, 4))));
    assert_eq!(parse(0xC0), Ok(M6502Ins::CpyImm(InsAttr::new(0xC0, 2, 2))));
    assert_eq!(parse(0xC1), Ok(M6502Ins::CmpIndX(InsAttr::new(0xC1, 2, 6))));
    assert_eq!(parse(0xC4), Ok(M6502Ins::CpyZP(InsAttr::new(0xC4, 2, 3))));
    assert_eq!(parse(0xC5), Ok(M6502Ins::CmpZP(InsAttr::new(0xC5, 2, 3))));
    assert_eq!(parse(0xC6), Ok(M6502Ins::DecZP(InsAttr::new(0xC6, 2, 5))));
    assert_eq!(parse(0xC8), Ok(M6502Ins::Iny(InsAttr::new(0xC8, 1, 2))));
    assert_eq!(parse(0xC9), Ok(M6502Ins::CmpImm(InsAttr::new(0xC9, 2, 2))));
    assert_eq!(parse(0xCA), Ok(M6502Ins::Dex(InsAttr::new(0xCA, 1, 2))));
    assert_eq!(parse(0xCC), Ok(M6502Ins::CpyAbs(InsAttr::new(0xCC, 3, 4))));
    assert_eq!(parse(0xCD), Ok(M6502Ins::CmpAbs(InsAttr::new(0xCD, 3, 4))));
    assert_eq!(parse(0xCE), Ok(M6502Ins::DecAbs(InsAttr::new(0xCE, 3, 6))));
    assert_eq!(parse(0xD0), Ok(M6502Ins::Bne(InsAttr::new(0xD0, 2, 2))));
    assert_eq!(parse(0xD1), Ok(M6502Ins::CmpIndY(InsAttr::new(0xD1, 2, 5))));
    assert_eq!(parse(0xD5), Ok(M6502Ins::CmpZPX(InsAttr::new(0xD5, 2, 4))));
    assert_eq!(parse(0xD6), Ok(M6502Ins::DecZPX(InsAttr::new(0xD6, 2, 6))));
    assert_eq!(parse(0xD8), Ok(M6502Ins::Cld(InsAttr::new(0xD8, 1, 2))));
    assert_eq!(parse(0xD9), Ok(M6502Ins::CmpAbsY(InsAttr::new(0xD9, 3, 4))));
    assert_eq!(parse(0xDD), Ok(M6502Ins::CmpAbsX(InsAttr::new(0xDD, 3, 4))));
    assert_eq!(parse(0xDE), Ok(M6502Ins::DecAbsX(InsAttr::new(0xDE, 3, 7))));
    assert_eq!(parse(0xE0), Ok(M6502Ins::CpxImm(InsAttr::new(0xE0, 2, 2))));
    assert_eq!(parse(0xE1), Ok(M6502Ins::SbcIndX(InsAttr::new(0xE1, 2, 6))));
    assert_eq!(parse(0xE4), Ok(M6502Ins::CpxZP(InsAttr::new(0xE4, 2, 3))));
    assert_eq!(parse(0xE5), Ok(M6502Ins::SbcZP(InsAttr::new(0xE5, 2, 3))));
    assert_eq!(parse(0xE6), Ok(M6502Ins::IncZP(InsAttr::new(0xE6, 2, 5))));
    assert_eq!(parse(0xE8), Ok(M6502Ins::Inx(InsAttr::new(0xE8, 1, 2))));
    assert_eq!(parse(0xE9), Ok(M6502Ins::SbcImm(InsAttr::new(0xE9, 2, 2))));
    assert_eq!(parse(0xEA), Ok(M6502Ins::Nop(InsAttr::new(0xEA, 1, 2))));
    assert_eq!(parse(0xEC), Ok(M6502Ins::CpxAbs(InsAttr::new(0xEC, 3, 4))));
    assert_eq!(parse(0xED), Ok(M6502Ins::SbcAbs(InsAttr::new(0xED, 3, 4))));
    assert_eq!(parse(0xEE), Ok(M6502Ins::IncAbs(InsAttr::new(0xEE, 3, 6))));
    assert_eq!(parse(0xF0), Ok(M6502Ins::Beq(InsAttr::new(0xF0, 2, 2))));
    assert_eq!(parse(0xF1), Ok(M6502Ins::SbcIndY(InsAttr::new(0xF1, 2, 5))));
    assert_eq!(parse(0xF5), Ok(M6502Ins::SbcZPX(InsAttr::new(0xF5, 2, 4))));
    assert_eq!(parse(0xF6), Ok(M6502Ins::IncZPX(InsAttr::new(0xF6, 2, 6))));
    assert_eq!(parse(0xF8), Ok(M6502Ins::Sed(InsAttr::new(0xF8, 1, 2))));
    assert_eq!(parse(0xF9), Ok(M6502Ins::SbcAbsY(InsAttr::new(0xF9, 3, 4))));
    assert_eq!(parse(0xFD), Ok(M6502Ins::SbcAbsX(InsAttr::new(0xFD, 3, 4))));
    assert_eq!(parse(0xFE), Ok(M6502Ins::IncAbsX(InsAttr::new(0xFE, 3, 7))));
}

#[test]
fn undocumented_bytes_decode_as_illegal() {
    let legal = legal_opcodes();
    for op in 0..=255u8 {
        if !legal.contains(&op) {
            assert_eq!(parse(op), Err(InvalidOpcodeError { opcode: op }));
        }
    }
}

#[test]
fn every_documented_opcode_decodes() {
    for op in legal_opcodes() {
        assert!(parse(op).is_ok());
    }
}

#[test]
fn attribute_accessors_return_the_decoded_values() {
    let attr = InsAttr::new(0x69, 2, 2);
    assert_eq!(attr.opcode(), 0x69);
    assert_eq!(attr.len(), 2);
    assert_eq!(attr.cyc(), 2);
}
