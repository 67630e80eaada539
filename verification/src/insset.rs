//! The 6502 instruction set: the instruction attribute record, one variant
//! per legal opcode/addressing-mode combination, and the denotational
//! semantics of every instruction as a function from processor state to
//! processor state.

pub mod adc;
pub mod and;
pub mod asl;
pub mod bit;
pub mod branch;
pub mod clr;
pub mod cmp;
pub mod cpxy;
pub mod decrement;
pub mod eor;
pub mod increment;
pub mod lda;
pub mod ldxy;
pub mod lsr;
pub mod misc;
pub mod ora;
pub mod phpl;
pub mod rorl;
pub mod sbc;
pub mod sta;
pub mod stxy;
pub mod transfer;
pub mod utils;

use vstd::prelude::*;

use crate::address_mode::AddrMode;
use crate::constant::{
    CARRY_ON_MASK, DECIMAL_ON_MASK, INTERRUPT_ON_MASK, OVERFLOW_ON_MASK,
};
use crate::cpu::{CpuState, Mos6502};

verus! {

/// Attributes of a decoded instruction: its opcode byte, its length in
/// bytes and its base cycle count.  Extra cycles for page crossings or
/// taken branches are additive adjustments outside this record.
#[derive(Clone, Copy, PartialEq, Eq, Structural, Debug)]
pub struct InsAttr {
    /// The opcode byte this instruction was decoded from.
    pub opcode: u8,
    /// Length of the instruction in bytes, 1 to 3.
    pub len: u8,
    /// Base number of processor cycles the instruction takes.
    pub cyc: u8,
}

impl InsAttr {
    /// Bundle an opcode byte with its length and base cycle count.
    pub fn new(opcode: u8, len: u8, cyc: u8) -> (r: Self)
        ensures
            r == (InsAttr { opcode, len, cyc }),
    {
        Self { opcode, len, cyc }
    }

    /// The opcode byte this instruction was decoded from.
    pub fn opcode(self: &Self) -> (r: u8)
        ensures
            r == self.opcode,
    {
        self.opcode
    }

    /// Length of the instruction in bytes.
    pub fn len(self: &Self) -> (r: u8)
        ensures
            r == self.len,
    {
        self.len
    }

    /// Base number of processor cycles the instruction takes.
    pub fn cyc(self: &Self) -> (r: u8)
        ensures
            r == self.cyc,
    {
        self.cyc
    }
}

/// One variant per documented opcode/addressing-mode combination of the
/// 6502, each carrying the attributes it was decoded with.
///
/// `StaImm` mirrors a combination that the decode table never produces: no
/// documented opcode stores the accumulator with immediate addressing.  Its
/// semantics follow the general store rule and it is reachable only by
/// constructing the variant directly.
#[derive(Clone, Copy, PartialEq, Eq, Structural, Debug)]
pub enum M6502Ins {
    /// ADC - add with carry.
    AdcImm(InsAttr),
    AdcZP(InsAttr),
    AdcZPX(InsAttr),
    AdcAbs(InsAttr),
    AdcAbsX(InsAttr),
    AdcAbsY(InsAttr),
    AdcIndX(InsAttr),
    AdcIndY(InsAttr),
    /// AND - logical AND with the accumulator.
    AndImm(InsAttr),
    AndZP(InsAttr),
    AndZPX(InsAttr),
    AndAbs(InsAttr),
    AndAbsX(InsAttr),
    AndAbsY(InsAttr),
    AndIndX(InsAttr),
    AndIndY(InsAttr),
    /// ASL - arithmetic shift left.
    AslAcc(InsAttr),
    AslZP(InsAttr),
    AslZPX(InsAttr),
    AslAbs(InsAttr),
    AslAbsX(InsAttr),
    /// BCC - branch if carry clear.
    Bcc(InsAttr),
    /// BCS - branch if carry set.
    Bcs(InsAttr),
    /// BEQ - branch if equal.
    Beq(InsAttr),
    /// BIT - bit test.
    BitZP(InsAttr),
    BitAbs(InsAttr),
    /// BMI - branch if minus.
    Bmi(InsAttr),
    /// BNE - branch if not equal.
    Bne(InsAttr),
    /// BPL - branch if positive.
    Bpl(InsAttr),
    /// BRK - force interrupt.
    Brk(InsAttr),
    /// BVC - branch if overflow clear.
    Bvc(InsAttr),
    /// BVS - branch if overflow set.
    Bvs(InsAttr),
    /// CLC - clear carry flag.
    Clc(InsAttr),
    /// CLD - clear decimal mode.
    Cld(InsAttr),
    /// CLI - clear interrupt disable.
    Cli(InsAttr),
    /// CLV - clear overflow flag.
    Clv(InsAttr),
    /// CMP - compare with the accumulator.
    CmpImm(InsAttr),
    CmpZP(InsAttr),
    CmpZPX(InsAttr),
    CmpAbs(InsAttr),
    CmpAbsX(InsAttr),
    CmpAbsY(InsAttr),
    CmpIndX(InsAttr),
    CmpIndY(InsAttr),
    /// CPX - compare with the X register.
    CpxImm(InsAttr),
    CpxZP(InsAttr),
    CpxAbs(InsAttr),
    /// CPY - compare with the Y register.
    CpyImm(InsAttr),
    CpyZP(InsAttr),
    CpyAbs(InsAttr),
    /// DEC - decrement a memory byte.
    DecZP(InsAttr),
    DecZPX(InsAttr),
    DecAbs(InsAttr),
    DecAbsX(InsAttr),
    /// DEX - decrement the X register.
    Dex(InsAttr),
    /// DEY - decrement the Y register.
    Dey(InsAttr),
    /// EOR - exclusive OR with the accumulator.
    EorImm(InsAttr),
    EorZP(InsAttr),
    EorZPX(InsAttr),
    EorAbs(InsAttr),
    EorAbsX(InsAttr),
    EorAbsY(InsAttr),
    EorIndX(InsAttr),
    EorIndY(InsAttr),
    /// INC - increment a memory byte.
    IncZP(InsAttr),
    IncZPX(InsAttr),
    IncAbs(InsAttr),
    IncAbsX(InsAttr),
    /// INX - increment the X register.
    Inx(InsAttr),
    /// INY - increment the Y register.
    Iny(InsAttr),
    /// JMP - jump, absolute and indirect.
    JmpAbs(InsAttr),
    JmpInd(InsAttr),
    /// JSR - jump to subroutine.
    Jsr(InsAttr),
    /// LDA - load the accumulator.
    LdaImm(InsAttr),
    LdaZP(InsAttr),
    LdaZPX(InsAttr),
    LdaAbs(InsAttr),
    LdaAbsX(InsAttr),
    LdaAbsY(InsAttr),
    LdaIndX(InsAttr),
    LdaIndY(InsAttr),
    /// LDX - load the X register.
    LdxImm(InsAttr),
    LdxZP(InsAttr),
    LdxZPY(InsAttr),
    LdxAbs(InsAttr),
    LdxAbsY(InsAttr),
    /// LDY - load the Y register.
    LdyImm(InsAttr),
    LdyZP(InsAttr),
    LdyZPX(InsAttr),
    LdyAbs(InsAttr),
    LdyAbsX(InsAttr),
    /// LSR - logical shift right.
    LsrAcc(InsAttr),
    LsrZP(InsAttr),
    LsrZPX(InsAttr),
    LsrAbs(InsAttr),
    LsrAbsX(InsAttr),
    /// NOP - no operation.
    Nop(InsAttr),
    /// ORA - inclusive OR with the accumulator.
    OraImm(InsAttr),
    OraZP(InsAttr),
    OraZPX(InsAttr),
    OraAbs(InsAttr),
    OraAbsX(InsAttr),
    OraAbsY(InsAttr),
    OraIndX(InsAttr),
    OraIndY(InsAttr),
    /// PHA - push the accumulator.
    Pha(InsAttr),
    /// PHP - push the processor status.
    Php(InsAttr),
    /// PLA - pull the accumulator.
    Pla(InsAttr),
    /// PLP - pull the processor status.
    Plp(InsAttr),
    /// ROL - rotate left through the carry.
    RolAcc(InsAttr),
    RolZP(InsAttr),
    RolZPX(InsAttr),
    RolAbs(InsAttr),
    RolAbsX(InsAttr),
    /// ROR - rotate right through the carry.
    RorAcc(InsAttr),
    RorZP(InsAttr),
    RorZPX(InsAttr),
    RorAbs(InsAttr),
    RorAbsX(InsAttr),
    /// RTI - return from interrupt.
    Rti(InsAttr),
    /// RTS - return from subroutine.
    Rts(InsAttr),
    /// SBC - subtract with carry.
    SbcImm(InsAttr),
    SbcZP(InsAttr),
    SbcZPX(InsAttr),
    SbcAbs(InsAttr),
    SbcAbsX(InsAttr),
    SbcAbsY(InsAttr),
    SbcIndX(InsAttr),
    SbcIndY(InsAttr),
    /// SEC - set carry flag.
    Sec(InsAttr),
    /// SED - set decimal flag.
    Sed(InsAttr),
    /// SEI - set interrupt disable.
    Sei(InsAttr),
    /// STA - store the accumulator.
    StaImm(InsAttr),
    StaZP(InsAttr),
    StaZPX(InsAttr),
    StaAbs(InsAttr),
    StaAbsX(InsAttr),
    StaAbsY(InsAttr),
    StaIndX(InsAttr),
    StaIndY(InsAttr),
    /// STX - store the X register.
    StxZP(InsAttr),
    StxZPY(InsAttr),
    StxAbs(InsAttr),
    /// STY - store the Y register.
    StyZP(InsAttr),
    StyZPX(InsAttr),
    StyAbs(InsAttr),
    /// TAX - transfer the accumulator to X.
    Tax(InsAttr),
    /// TAY - transfer the accumulator to Y.
    Tay(InsAttr),
    /// TSX - transfer the stack index to X.
    Tsx(InsAttr),
    /// TXA - transfer X to the accumulator.
    Txa(InsAttr),
    /// TXS - transfer X to the stack index.
    Txs(InsAttr),
    /// TYA - transfer Y to the accumulator.
    Tya(InsAttr),
}

/// The state after one instruction executes: the complete semantics of the
/// documented instruction set, one clause per variant.
pub open spec fn exec_ins(pre: CpuState, ins: M6502Ins) -> CpuState {
    match ins {
        M6502Ins::AdcImm(a) => adc::spec_do_add(pre, AddrMode::Imm, a.len),
        M6502Ins::AdcZP(a) => adc::spec_do_add(pre, AddrMode::ZP, a.len),
        M6502Ins::AdcZPX(a) => adc::spec_do_add(pre, AddrMode::ZPX, a.len),
        M6502Ins::AdcAbs(a) => adc::spec_do_add(pre, AddrMode::Abs, a.len),
        M6502Ins::AdcAbsX(a) => adc::spec_do_add(pre, AddrMode::AbsX, a.len),
        M6502Ins::AdcAbsY(a) => adc::spec_do_add(pre, AddrMode::AbsY, a.len),
        M6502Ins::AdcIndX(a) => adc::spec_do_add(pre, AddrMode::IndX, a.len),
        M6502Ins::AdcIndY(a) => adc::spec_do_add(pre, AddrMode::IndY, a.len),
        M6502Ins::AndImm(a) => and::spec_do_and(pre, AddrMode::Imm, a.len),
        M6502Ins::AndZP(a) => and::spec_do_and(pre, AddrMode::ZP, a.len),
        M6502Ins::AndZPX(a) => and::spec_do_and(pre, AddrMode::ZPX, a.len),
        M6502Ins::AndAbs(a) => and::spec_do_and(pre, AddrMode::Abs, a.len),
        M6502Ins::AndAbsX(a) => and::spec_do_and(pre, AddrMode::AbsX, a.len),
        M6502Ins::AndAbsY(a) => and::spec_do_and(pre, AddrMode::AbsY, a.len),
        M6502Ins::AndIndX(a) => and::spec_do_and(pre, AddrMode::IndX, a.len),
        M6502Ins::AndIndY(a) => and::spec_do_and(pre, AddrMode::IndY, a.len),
        M6502Ins::AslAcc(a) => asl::spec_asl_acc(pre, a.len),
        M6502Ins::AslZP(a) => asl::spec_do_asl(pre, AddrMode::ZP, a.len),
        M6502Ins::AslZPX(a) => asl::spec_do_asl(pre, AddrMode::ZPX, a.len),
        M6502Ins::AslAbs(a) => asl::spec_do_asl(pre, AddrMode::Abs, a.len),
        M6502Ins::AslAbsX(a) => asl::spec_do_asl(pre, AddrMode::AbsX, a.len),
        M6502Ins::Bcc(a) => branch::spec_do_bcc(pre, a.len),
        M6502Ins::Bcs(a) => branch::spec_do_bcs(pre, a.len),
        M6502Ins::Beq(a) => branch::spec_do_beq(pre, a.len),
        M6502Ins::BitZP(a) => bit::spec_do_bit(pre, AddrMode::ZP, a.len),
        M6502Ins::BitAbs(a) => bit::spec_do_bit(pre, AddrMode::Abs, a.len),
        M6502Ins::Bmi(a) => branch::spec_do_bmi(pre, a.len),
        M6502Ins::Bne(a) => branch::spec_do_bne(pre, a.len),
        M6502Ins::Bpl(a) => branch::spec_do_bpl(pre, a.len),
        M6502Ins::Brk(a) => misc::spec_brk(pre),
        M6502Ins::Bvc(a) => branch::spec_do_bvc(pre, a.len),
        M6502Ins::Bvs(a) => branch::spec_do_bvs(pre, a.len),
        M6502Ins::Clc(a) => clr::spec_flag_op(pre, CARRY_ON_MASK, false, a.len),
        M6502Ins::Cld(a) => clr::spec_flag_op(pre, DECIMAL_ON_MASK, false, a.len),
        M6502Ins::Cli(a) => clr::spec_flag_op(pre, INTERRUPT_ON_MASK, false, a.len),
        M6502Ins::Clv(a) => clr::spec_flag_op(pre, OVERFLOW_ON_MASK, false, a.len),
        M6502Ins::CmpImm(a) => cmp::spec_do_compare(pre, AddrMode::Imm, a.len),
        M6502Ins::CmpZP(a) => cmp::spec_do_compare(pre, AddrMode::ZP, a.len),
        M6502Ins::CmpZPX(a) => cmp::spec_do_compare(pre, AddrMode::ZPX, a.len),
        M6502Ins::CmpAbs(a) => cmp::spec_do_compare(pre, AddrMode::Abs, a.len),
        M6502Ins::CmpAbsX(a) => cmp::spec_do_compare(pre, AddrMode::AbsX, a.len),
        M6502Ins::CmpAbsY(a) => cmp::spec_do_compare(pre, AddrMode::AbsY, a.len),
        M6502Ins::CmpIndX(a) => cmp::spec_do_compare(pre, AddrMode::IndX, a.len),
        M6502Ins::CmpIndY(a) => cmp::spec_do_compare(pre, AddrMode::IndY, a.len),
        M6502Ins::CpxImm(a) => cpxy::spec_do_compare_x(pre, AddrMode::Imm, a.len),
        M6502Ins::CpxZP(a) => cpxy::spec_do_compare_x(pre, AddrMode::ZP, a.len),
        M6502Ins::CpxAbs(a) => cpxy::spec_do_compare_x(pre, AddrMode::Abs, a.len),
        M6502Ins::CpyImm(a) => cpxy::spec_do_compare_y(pre, AddrMode::Imm, a.len),
        M6502Ins::CpyZP(a) => cpxy::spec_do_compare_y(pre, AddrMode::ZP, a.len),
        M6502Ins::CpyAbs(a) => cpxy::spec_do_compare_y(pre, AddrMode::Abs, a.len),
        M6502Ins::DecZP(a) => decrement::spec_do_decrement_at_mem(pre, AddrMode::ZP, a.len),
        M6502Ins::DecZPX(a) => decrement::spec_do_decrement_at_mem(pre, AddrMode::ZPX, a.len),
        M6502Ins::DecAbs(a) => decrement::spec_do_decrement_at_mem(pre, AddrMode::Abs, a.len),
        M6502Ins::DecAbsX(a) => decrement::spec_do_decrement_at_mem(pre, AddrMode::AbsX, a.len),
        M6502Ins::Dex(a) => decrement::spec_dex(pre, a.len),
        M6502Ins::Dey(a) => decrement::spec_dey(pre, a.len),
        M6502Ins::EorImm(a) => eor::spec_do_exclusive_or(pre, AddrMode::Imm, a.len),
        M6502Ins::EorZP(a) => eor::spec_do_exclusive_or(pre, AddrMode::ZP, a.len),
        M6502Ins::EorZPX(a) => eor::spec_do_exclusive_or(pre, AddrMode::ZPX, a.len),
        M6502Ins::EorAbs(a) => eor::spec_do_exclusive_or(pre, AddrMode::Abs, a.len),
        M6502Ins::EorAbsX(a) => eor::spec_do_exclusive_or(pre, AddrMode::AbsX, a.len),
        M6502Ins::EorAbsY(a) => eor::spec_do_exclusive_or(pre, AddrMode::AbsY, a.len),
        M6502Ins::EorIndX(a) => eor::spec_do_exclusive_or(pre, AddrMode::IndX, a.len),
        M6502Ins::EorIndY(a) => eor::spec_do_exclusive_or(pre, AddrMode::IndY, a.len),
        M6502Ins::IncZP(a) => increment::spec_do_increment_at_mem(pre, AddrMode::ZP, a.len),
        M6502Ins::IncZPX(a) => increment::spec_do_increment_at_mem(pre, AddrMode::ZPX, a.len),
        M6502Ins::IncAbs(a) => increment::spec_do_increment_at_mem(pre, AddrMode::Abs, a.len),
        M6502Ins::IncAbsX(a) => increment::spec_do_increment_at_mem(pre, AddrMode::AbsX, a.len),
        M6502Ins::Inx(a) => increment::spec_inx(pre, a.len),
        M6502Ins::Iny(a) => increment::spec_iny(pre, a.len),
        M6502Ins::JmpAbs(a) => misc::spec_jmp_abs(pre),
        M6502Ins::JmpInd(a) => misc::spec_jmp_ind(pre),
        M6502Ins::Jsr(a) => misc::spec_jsr(pre),
        M6502Ins::LdaImm(a) => lda::spec_do_load_accumulator(pre, AddrMode::Imm, a.len),
        M6502Ins::LdaZP(a) => lda::spec_do_load_accumulator(pre, AddrMode::ZP, a.len),
        M6502Ins::LdaZPX(a) => lda::spec_do_load_accumulator(pre, AddrMode::ZPX, a.len),
        M6502Ins::LdaAbs(a) => lda::spec_do_load_accumulator(pre, AddrMode::Abs, a.len),
        M6502Ins::LdaAbsX(a) => lda::spec_do_load_accumulator(pre, AddrMode::AbsX, a.len),
        M6502Ins::LdaAbsY(a) => lda::spec_do_load_accumulator(pre, AddrMode::AbsY, a.len),
        M6502Ins::LdaIndX(a) => lda::spec_do_load_accumulator(pre, AddrMode::IndX, a.len),
        M6502Ins::LdaIndY(a) => lda::spec_do_load_accumulator(pre, AddrMode::IndY, a.len),
        M6502Ins::LdxImm(a) => ldxy::spec_do_load_x(pre, AddrMode::Imm, a.len),
        M6502Ins::LdxZP(a) => ldxy::spec_do_load_x(pre, AddrMode::ZP, a.len),
        M6502Ins::LdxZPY(a) => ldxy::spec_do_load_x(pre, AddrMode::ZPY, a.len),
        M6502Ins::LdxAbs(a) => ldxy::spec_do_load_x(pre, AddrMode::Abs, a.len),
        M6502Ins::LdxAbsY(a) => ldxy::spec_do_load_x(pre, AddrMode::AbsY, a.len),
        M6502Ins::LdyImm(a) => ldxy::spec_do_load_y(pre, AddrMode::Imm, a.len),
        M6502Ins::LdyZP(a) => ldxy::spec_do_load_y(pre, AddrMode::ZP, a.len),
        M6502Ins::LdyZPX(a) => ldxy::spec_do_load_y(pre, AddrMode::ZPX, a.len),
        M6502Ins::LdyAbs(a) => ldxy::spec_do_load_y(pre, AddrMode::Abs, a.len),
        M6502Ins::LdyAbsX(a) => ldxy::spec_do_load_y(pre, AddrMode::AbsX, a.len),
        M6502Ins::LsrAcc(a) => lsr::spec_lsr_acc(pre, a.len),
        M6502Ins::LsrZP(a) => lsr::spec_do_lsr(pre, AddrMode::ZP, a.len),
        M6502Ins::LsrZPX(a) => lsr::spec_do_lsr(pre, AddrMode::ZPX, a.len),
        M6502Ins::LsrAbs(a) => lsr::spec_do_lsr(pre, AddrMode::Abs, a.len),
        M6502Ins::LsrAbsX(a) => lsr::spec_do_lsr(pre, AddrMode::AbsX, a.len),
        M6502Ins::Nop(a) => utils::spec_advance_pc(pre, a.len),
        M6502Ins::OraImm(a) => ora::spec_do_inclusive_or(pre, AddrMode::Imm, a.len),
        M6502Ins::OraZP(a) => ora::spec_do_inclusive_or(pre, AddrMode::ZP, a.len),
        M6502Ins::OraZPX(a) => ora::spec_do_inclusive_or(pre, AddrMode::ZPX, a.len),
        M6502Ins::OraAbs(a) => ora::spec_do_inclusive_or(pre, AddrMode::Abs, a.len),
        M6502Ins::OraAbsX(a) => ora::spec_do_inclusive_or(pre, AddrMode::AbsX, a.len),
        M6502Ins::OraAbsY(a) => ora::spec_do_inclusive_or(pre, AddrMode::AbsY, a.len),
        M6502Ins::OraIndX(a) => ora::spec_do_inclusive_or(pre, AddrMode::IndX, a.len),
        M6502Ins::OraIndY(a) => ora::spec_do_inclusive_or(pre, AddrMode::IndY, a.len),
        M6502Ins::Pha(a) => phpl::spec_pha(pre, a.len),
        M6502Ins::Php(a) => phpl::spec_php(pre, a.len),
        M6502Ins::Pla(a) => phpl::spec_pla(pre, a.len),
        M6502Ins::Plp(a) => phpl::spec_plp(pre, a.len),
        M6502Ins::RolAcc(a) => rorl::spec_rol_acc(pre, a.len),
        M6502Ins::RolZP(a) => rorl::spec_do_rol(pre, AddrMode::ZP, a.len),
        M6502Ins::RolZPX(a) => rorl::spec_do_rol(pre, AddrMode::ZPX, a.len),
        M6502Ins::RolAbs(a) => rorl::spec_do_rol(pre, AddrMode::Abs, a.len),
        M6502Ins::RolAbsX(a) => rorl::spec_do_rol(pre, AddrMode::AbsX, a.len),
        M6502Ins::RorAcc(a) => rorl::spec_ror_acc(pre, a.len),
        M6502Ins::RorZP(a) => rorl::spec_do_ror(pre, AddrMode::ZP, a.len),
        M6502Ins::RorZPX(a) => rorl::spec_do_ror(pre, AddrMode::ZPX, a.len),
        M6502Ins::RorAbs(a) => rorl::spec_do_ror(pre, AddrMode::Abs, a.len),
        M6502Ins::RorAbsX(a) => rorl::spec_do_ror(pre, AddrMode::AbsX, a.len),
        M6502Ins::Rti(a) => misc::spec_rti(pre),
        M6502Ins::Rts(a) => misc::spec_rts(pre),
        M6502Ins::SbcImm(a) => sbc::spec_do_subtract(pre, AddrMode::Imm, a.len),
        M6502Ins::SbcZP(a) => sbc::spec_do_subtract(pre, AddrMode::ZP, a.len),
        M6502Ins::SbcZPX(a) => sbc::spec_do_subtract(pre, AddrMode::ZPX, a.len),
        M6502Ins::SbcAbs(a) => sbc::spec_do_subtract(pre, AddrMode::Abs, a.len),
        M6502Ins::SbcAbsX(a) => sbc::spec_do_subtract(pre, AddrMode::AbsX, a.len),
        M6502Ins::SbcAbsY(a) => sbc::spec_do_subtract(pre, AddrMode::AbsY, a.len),
        M6502Ins::SbcIndX(a) => sbc::spec_do_subtract(pre, AddrMode::IndX, a.len),
        M6502Ins::SbcIndY(a) => sbc::spec_do_subtract(pre, AddrMode::IndY, a.len),
        M6502Ins::Sec(a) => clr::spec_flag_op(pre, CARRY_ON_MASK, true, a.len),
        M6502Ins::Sed(a) => clr::spec_flag_op(pre, DECIMAL_ON_MASK, true, a.len),
        M6502Ins::Sei(a) => clr::spec_flag_op(pre, INTERRUPT_ON_MASK, true, a.len),
        M6502Ins::StaImm(a) => sta::spec_do_store_accumulator(pre, AddrMode::Imm, a.len),
        M6502Ins::StaZP(a) => sta::spec_do_store_accumulator(pre, AddrMode::ZP, a.len),
        M6502Ins::StaZPX(a) => sta::spec_do_store_accumulator(pre, AddrMode::ZPX, a.len),
        M6502Ins::StaAbs(a) => sta::spec_do_store_accumulator(pre, AddrMode::Abs, a.len),
        M6502Ins::StaAbsX(a) => sta::spec_do_store_accumulator(pre, AddrMode::AbsX, a.len),
        M6502Ins::StaAbsY(a) => sta::spec_do_store_accumulator(pre, AddrMode::AbsY, a.len),
        M6502Ins::StaIndX(a) => sta::spec_do_store_accumulator(pre, AddrMode::IndX, a.len),
        M6502Ins::StaIndY(a) => sta::spec_do_store_accumulator(pre, AddrMode::IndY, a.len),
        M6502Ins::StxZP(a) => stxy::spec_do_store_x(pre, AddrMode::ZP, a.len),
        M6502Ins::StxZPY(a) => stxy::spec_do_store_x(pre, AddrMode::ZPY, a.len),
        M6502Ins::StxAbs(a) => stxy::spec_do_store_x(pre, AddrMode::Abs, a.len),
        M6502Ins::StyZP(a) => stxy::spec_do_store_y(pre, AddrMode::ZP, a.len),
        M6502Ins::StyZPX(a) => stxy::spec_do_store_y(pre, AddrMode::ZPX, a.len),
        M6502Ins::StyAbs(a) => stxy::spec_do_store_y(pre, AddrMode::Abs, a.len),
        M6502Ins::Tax(a) => transfer::spec_tax(pre, a.len),
        M6502Ins::Tay(a) => transfer::spec_tay(pre, a.len),
        M6502Ins::Tsx(a) => transfer::spec_tsx(pre, a.len),
        M6502Ins::Txa(a) => transfer::spec_txa(pre, a.len),
        M6502Ins::Txs(a) => transfer::spec_txs(pre, a.len),
        M6502Ins::Tya(a) => transfer::spec_tya(pre, a.len),
    }
}

/// Every instruction leaves the length of memory, hence well-formedness,
/// intact - memory is only ever changed by point updates - and no
/// instruction touches the lifecycle flag: only the loop itself, on an
/// illegal opcode or a stop request, ever clears it.
#[verifier::rlimit(100)]
pub proof fn lemma_exec_ins_preserves(pre: CpuState, ins: M6502Ins)
    requires
        pre.wf(),
    ensures
        exec_ins(pre, ins).wf(),
        exec_ins(pre, ins).power_on == pre.power_on,
{
    reveal(adc::spec_do_add);
    reveal(and::spec_do_and);
    reveal(asl::spec_asl_acc);
    reveal(asl::spec_do_asl);
    reveal(bit::spec_do_bit);
    reveal(branch::spec_do_bcc);
    reveal(branch::spec_do_bcs);
    reveal(branch::spec_do_beq);
    reveal(branch::spec_do_bne);
    reveal(branch::spec_do_bmi);
    reveal(branch::spec_do_bpl);
    reveal(branch::spec_do_bvc);
    reveal(branch::spec_do_bvs);
    reveal(clr::spec_flag_op);
    reveal(cmp::spec_do_compare);
    reveal(cpxy::spec_do_compare_x);
    reveal(cpxy::spec_do_compare_y);
    reveal(decrement::spec_do_decrement_at_mem);
    reveal(decrement::spec_dex);
    reveal(decrement::spec_dey);
    reveal(eor::spec_do_exclusive_or);
    reveal(increment::spec_do_increment_at_mem);
    reveal(increment::spec_inx);
    reveal(increment::spec_iny);
    reveal(lda::spec_do_load_accumulator);
    reveal(ldxy::spec_do_load_x);
    reveal(ldxy::spec_do_load_y);
    reveal(lsr::spec_lsr_acc);
    reveal(lsr::spec_do_lsr);
    reveal(misc::spec_jmp_abs);
    reveal(misc::spec_jmp_ind);
    reveal(misc::spec_jsr);
    reveal(misc::spec_rts);
    reveal(misc::spec_brk);
    reveal(misc::spec_rti);
    reveal(ora::spec_do_inclusive_or);
    reveal(phpl::spec_pha);
    reveal(phpl::spec_php);
    reveal(phpl::spec_pla);
    reveal(phpl::spec_plp);
    reveal(rorl::spec_rol_acc);
    reveal(rorl::spec_ror_acc);
    reveal(rorl::spec_do_rol);
    reveal(rorl::spec_do_ror);
    reveal(sbc::spec_do_subtract);
    reveal(sta::spec_do_store_accumulator);
    reveal(stxy::spec_do_store_x);
    reveal(stxy::spec_do_store_y);
    reveal(transfer::spec_tax);
    reveal(transfer::spec_tay);
    reveal(transfer::spec_tsx);
    reveal(transfer::spec_txa);
    reveal(transfer::spec_txs);
    reveal(transfer::spec_tya);
}

/// Execute one decoded instruction: tagged-variant dispatch to the
/// per-mnemonic routines, proved against [`exec_ins`].
#[verifier::rlimit(100)]
pub fn exec_instruction(cpu: &mut Mos6502, ins: &M6502Ins)
    requires
        old(cpu)@.wf(),
    ensures
        final(cpu)@ == exec_ins(old(cpu)@, *ins),
{
    match ins {
        M6502Ins::AdcImm(a) => adc::do_add(cpu, a, AddrMode::Imm),
        M6502Ins::AdcZP(a) => adc::do_add(cpu, a, AddrMode::ZP),
        M6502Ins::AdcZPX(a) => adc::do_add(cpu, a, AddrMode::ZPX),
        M6502Ins::AdcAbs(a) => adc::do_add(cpu, a, AddrMode::Abs),
        M6502Ins::AdcAbsX(a) => adc::do_add(cpu, a, AddrMode::AbsX),
        M6502Ins::AdcAbsY(a) => adc::do_add(cpu, a, AddrMode::AbsY),
        M6502Ins::AdcIndX(a) => adc::do_add(cpu, a, AddrMode::IndX),
        M6502Ins::AdcIndY(a) => adc::do_add(cpu, a, AddrMode::IndY),
        M6502Ins::AndImm(a) => and::do_and(cpu, a, AddrMode::Imm),
        M6502Ins::AndZP(a) => and::do_and(cpu, a, AddrMode::ZP),
        M6502Ins::AndZPX(a) => and::do_and(cpu, a, AddrMode::ZPX),
        M6502Ins::AndAbs(a) => and::do_and(cpu, a, AddrMode::Abs),
        M6502Ins::AndAbsX(a) => and::do_and(cpu, a, AddrMode::AbsX),
        M6502Ins::AndAbsY(a) => and::do_and(cpu, a, AddrMode::AbsY),
        M6502Ins::AndIndX(a) => and::do_and(cpu, a, AddrMode::IndX),
        M6502Ins::AndIndY(a) => and::do_and(cpu, a, AddrMode::IndY),
        M6502Ins::AslAcc(a) => asl::do_asl_acc(cpu, a),
        M6502Ins::AslZP(a) => asl::do_asl(cpu, a, AddrMode::ZP),
        M6502Ins::AslZPX(a) => asl::do_asl(cpu, a, AddrMode::ZPX),
        M6502Ins::AslAbs(a) => asl::do_asl(cpu, a, AddrMode::Abs),
        M6502Ins::AslAbsX(a) => asl::do_asl(cpu, a, AddrMode::AbsX),
        M6502Ins::Bcc(a) => branch::do_bcc(cpu, a),
        M6502Ins::Bcs(a) => branch::do_bcs(cpu, a),
        M6502Ins::Beq(a) => branch::do_beq(cpu, a),
        M6502Ins::BitZP(a) => bit::do_bit(cpu, a, AddrMode::ZP),
        M6502Ins::BitAbs(a) => bit::do_bit(cpu, a, AddrMode::Abs),
        M6502Ins::Bmi(a) => branch::do_bmi(cpu, a),
        M6502Ins::Bne(a) => branch::do_bne(cpu, a),
        M6502Ins::Bpl(a) => branch::do_bpl(cpu, a),
        M6502Ins::Brk(a) => misc::do_brk(cpu),
        M6502Ins::Bvc(a) => branch::do_bvc(cpu, a),
        M6502Ins::Bvs(a) => branch::do_bvs(cpu, a),
        M6502Ins::Clc(a) => clr::do_flag_op(cpu, a, CARRY_ON_MASK, false),
        M6502Ins::Cld(a) => clr::do_flag_op(cpu, a, DECIMAL_ON_MASK, false),
        M6502Ins::Cli(a) => clr::do_flag_op(cpu, a, INTERRUPT_ON_MASK, false),
        M6502Ins::Clv(a) => clr::do_flag_op(cpu, a, OVERFLOW_ON_MASK, false),
        M6502Ins::CmpImm(a) => cmp::do_compare(cpu, a, AddrMode::Imm),
        M6502Ins::CmpZP(a) => cmp::do_compare(cpu, a, AddrMode::ZP),
        M6502Ins::CmpZPX(a) => cmp::do_compare(cpu, a, AddrMode::ZPX),
        M6502Ins::CmpAbs(a) => cmp::do_compare(cpu, a, AddrMode::Abs),
        M6502Ins::CmpAbsX(a) => cmp::do_compare(cpu, a, AddrMode::AbsX),
        M6502Ins::CmpAbsY(a) => cmp::do_compare(cpu, a, AddrMode::AbsY),
        M6502Ins::CmpIndX(a) => cmp::do_compare(cpu, a, AddrMode::IndX),
        M6502Ins::CmpIndY(a) => cmp::do_compare(cpu, a, AddrMode::IndY),
        M6502Ins::CpxImm(a) => cpxy::do_compare_x(cpu, a, AddrMode::Imm),
        M6502Ins::CpxZP(a) => cpxy::do_compare_x(cpu, a, AddrMode::ZP),
        M6502Ins::CpxAbs(a) => cpxy::do_compare_x(cpu, a, AddrMode::Abs),
        M6502Ins::CpyImm(a) => cpxy::do_compare_y(cpu, a, AddrMode::Imm),
        M6502Ins::CpyZP(a) => cpxy::do_compare_y(cpu, a, AddrMode::ZP),
        M6502Ins::CpyAbs(a) => cpxy::do_compare_y(cpu, a, AddrMode::Abs),
        M6502Ins::DecZP(a) => decrement::do_decrement_at_mem(cpu, a, AddrMode::ZP),
        M6502Ins::DecZPX(a) => decrement::do_decrement_at_mem(cpu, a, AddrMode::ZPX),
        M6502Ins::DecAbs(a) => decrement::do_decrement_at_mem(cpu, a, AddrMode::Abs),
        M6502Ins::DecAbsX(a) => decrement::do_decrement_at_mem(cpu, a, AddrMode::AbsX),
        M6502Ins::Dex(a) => decrement::do_dex(cpu, a),
        M6502Ins::Dey(a) => decrement::do_dey(cpu, a),
        M6502Ins::EorImm(a) => eor::do_exclusive_or(cpu, a, AddrMode::Imm),
        M6502Ins::EorZP(a) => eor::do_exclusive_or(cpu, a, AddrMode::ZP),
        M6502Ins::EorZPX(a) => eor::do_exclusive_or(cpu, a, AddrMode::ZPX),
        M6502Ins::EorAbs(a) => eor::do_exclusive_or(cpu, a, AddrMode::Abs),
        M6502Ins::EorAbsX(a) => eor::do_exclusive_or(cpu, a, AddrMode::AbsX),
        M6502Ins::EorAbsY(a) => eor::do_exclusive_or(cpu, a, AddrMode::AbsY),
        M6502Ins::EorIndX(a) => eor::do_exclusive_or(cpu, a, AddrMode::IndX),
        M6502Ins::EorIndY(a) => eor::do_exclusive_or(cpu, a, AddrMode::IndY),
        M6502Ins::IncZP(a) => increment::do_increment_at_mem(cpu, a, AddrMode::ZP),
        M6502Ins::IncZPX(a) => increment::do_increment_at_mem(cpu, a, AddrMode::ZPX),
        M6502Ins::IncAbs(a) => increment::do_increment_at_mem(cpu, a, AddrMode::Abs),
        M6502Ins::IncAbsX(a) => increment::do_increment_at_mem(cpu, a, AddrMode::AbsX),
        M6502Ins::Inx(a) => increment::do_inx(cpu, a),
        M6502Ins::Iny(a) => increment::do_iny(cpu, a),
        M6502Ins::JmpAbs(a) => misc::do_jmp_abs(cpu),
        M6502Ins::JmpInd(a) => misc::do_jmp_ind(cpu),
        M6502Ins::Jsr(a) => misc::do_jsr(cpu),
        _ => exec_instruction_tail(cpu, ins),
    }
}

/// The variants the second half of the dispatch is responsible for: the
/// loads onward, in the order the instruction enum declares them.
spec fn in_dispatch_tail(ins: M6502Ins) -> bool {
    match ins {
        M6502Ins::LdaImm(_) | M6502Ins::LdaZP(_) | M6502Ins::LdaZPX(_) | M6502Ins::LdaAbs(_)
        | M6502Ins::LdaAbsX(_) | M6502Ins::LdaAbsY(_) | M6502Ins::LdaIndX(_)
        | M6502Ins::LdaIndY(_) | M6502Ins::LdxImm(_) | M6502Ins::LdxZP(_) | M6502Ins::LdxZPY(_)
        | M6502Ins::LdxAbs(_) | M6502Ins::LdxAbsY(_) | M6502Ins::LdyImm(_) | M6502Ins::LdyZP(_)
        | M6502Ins::LdyZPX(_) | M6502Ins::LdyAbs(_) | M6502Ins::LdyAbsX(_) | M6502Ins::LsrAcc(_)
        | M6502Ins::LsrZP(_) | M6502Ins::LsrZPX(_) | M6502Ins::LsrAbs(_) | M6502Ins::LsrAbsX(_)
        | M6502Ins::Nop(_) | M6502Ins::OraImm(_) | M6502Ins::OraZP(_) | M6502Ins::OraZPX(_)
        | M6502Ins::OraAbs(_) | M6502Ins::OraAbsX(_) | M6502Ins::OraAbsY(_)
        | M6502Ins::OraIndX(_) | M6502Ins::OraIndY(_) | M6502Ins::Pha(_) | M6502Ins::Php(_)
        | M6502Ins::Pla(_) | M6502Ins::Plp(_) | M6502Ins::RolAcc(_) | M6502Ins::RolZP(_)
        | M6502Ins::RolZPX(_) | M6502Ins::RolAbs(_) | M6502Ins::RolAbsX(_) | M6502Ins::RorAcc(_)
        | M6502Ins::RorZP(_) | M6502Ins::RorZPX(_) | M6502Ins::RorAbs(_) | M6502Ins::RorAbsX(_)
        | M6502Ins::Rti(_) | M6502Ins::Rts(_) | M6502Ins::SbcImm(_) | M6502Ins::SbcZP(_)
        | M6502Ins::SbcZPX(_) | M6502Ins::SbcAbs(_) | M6502Ins::SbcAbsX(_) | M6502Ins::SbcAbsY(_)
        | M6502Ins::SbcIndX(_) | M6502Ins::SbcIndY(_) | M6502Ins::Sec(_) | M6502Ins::Sed(_)
        | M6502Ins::Sei(_) | M6502Ins::StaImm(_) | M6502Ins::StaZP(_) | M6502Ins::StaZPX(_)
        | M6502Ins::StaAbs(_) | M6502Ins::StaAbsX(_) | M6502Ins::StaAbsY(_)
        | M6502Ins::StaIndX(_) | M6502Ins::StaIndY(_) | M6502Ins::StxZP(_) | M6502Ins::StxZPY(_)
        | M6502Ins::StxAbs(_) | M6502Ins::StyZP(_) | M6502Ins::StyZPX(_) | M6502Ins::StyAbs(_)
        | M6502Ins::Tax(_) | M6502Ins::Tay(_) | M6502Ins::Tsx(_) | M6502Ins::Txa(_)
        | M6502Ins::Txs(_) | M6502Ins::Tya(_) => true,
        _ => false,
    }
}

/// The second half of [`exec_instruction`]'s dispatch, kept separate so
/// that each half's proof stays within the prover's resource bounds.
#[verifier::rlimit(100)]
fn exec_instruction_tail(cpu: &mut Mos6502, ins: &M6502Ins)
    requires
        old(cpu)@.wf(),
        in_dispatch_tail(*ins),
    ensures
        final(cpu)@ == exec_ins(old(cpu)@, *ins),
{
    match ins {
        M6502Ins::LdaImm(a) => lda::do_load_accumulator(cpu, a, AddrMode::Imm),
        M6502Ins::LdaZP(a) => lda::do_load_accumulator(cpu, a, AddrMode::ZP),
        M6502Ins::LdaZPX(a) => lda::do_load_accumulator(cpu, a, AddrMode::ZPX),
        M6502Ins::LdaAbs(a) => lda::do_load_accumulator(cpu, a, AddrMode::Abs),
        M6502Ins::LdaAbsX(a) => lda::do_load_accumulator(cpu, a, AddrMode::AbsX),
        M6502Ins::LdaAbsY(a) => lda::do_load_accumulator(cpu, a, AddrMode::AbsY),
        M6502Ins::LdaIndX(a) => lda::do_load_accumulator(cpu, a, AddrMode::IndX),
        M6502Ins::LdaIndY(a) => lda::do_load_accumulator(cpu, a, AddrMode::IndY),
        M6502Ins::LdxImm(a) => ldxy::do_load_x(cpu, a, AddrMode::Imm),
        M6502Ins::LdxZP(a) => ldxy::do_load_x(cpu, a, AddrMode::ZP),
        M6502Ins::LdxZPY(a) => ldxy::do_load_x(cpu, a, AddrMode::ZPY),
        M6502Ins::LdxAbs(a) => ldxy::do_load_x(cpu, a, AddrMode::Abs),
        M6502Ins::LdxAbsY(a) => ldxy::do_load_x(cpu, a, AddrMode::AbsY),
        M6502Ins::LdyImm(a) => ldxy::do_load_y(cpu, a, AddrMode::Imm),
        M6502Ins::LdyZP(a) => ldxy::do_load_y(cpu, a, AddrMode::ZP),
        M6502Ins::LdyZPX(a) => ldxy::do_load_y(cpu, a, AddrMode::ZPX),
        M6502Ins::LdyAbs(a) => ldxy::do_load_y(cpu, a, AddrMode::Abs),
        M6502Ins::LdyAbsX(a) => ldxy::do_load_y(cpu, a, AddrMode::AbsX),
        M6502Ins::LsrAcc(a) => lsr::do_lsr_acc(cpu, a),
        M6502Ins::LsrZP(a) => lsr::do_lsr(cpu, a, AddrMode::ZP),
        M6502Ins::LsrZPX(a) => lsr::do_lsr(cpu, a, AddrMode::ZPX),
        M6502Ins::LsrAbs(a) => lsr::do_lsr(cpu, a, AddrMode::Abs),
        M6502Ins::LsrAbsX(a) => lsr::do_lsr(cpu, a, AddrMode::AbsX),
        M6502Ins::Nop(a) => cpu.next_instruction(a),
        M6502Ins::OraImm(a) => ora::do_inclusive_or(cpu, a, AddrMode::Imm),
        M6502Ins::OraZP(a) => ora::do_inclusive_or(cpu, a, AddrMode::ZP),
        M6502Ins::OraZPX(a) => ora::do_inclusive_or(cpu, a, AddrMode::ZPX),
        M6502Ins::OraAbs(a) => ora::do_inclusive_or(cpu, a, AddrMode::Abs),
        M6502Ins::OraAbsX(a) => ora::do_inclusive_or(cpu, a, AddrMode::AbsX),
        M6502Ins::OraAbsY(a) => ora::do_inclusive_or(cpu, a, AddrMode::AbsY),
        M6502Ins::OraIndX(a) => ora::do_inclusive_or(cpu, a, AddrMode::IndX),
        M6502Ins::OraIndY(a) => ora::do_inclusive_or(cpu, a, AddrMode::IndY),
        M6502Ins::Pha(a) => phpl::do_pha(cpu, a),
        M6502Ins::Php(a) => phpl::do_php(cpu, a),
        M6502Ins::Pla(a) => phpl::do_pla(cpu, a),
        M6502Ins::Plp(a) => phpl::do_plp(cpu, a),
        M6502Ins::RolAcc(a) => rorl::do_rol_acc(cpu, a),
        M6502Ins::RolZP(a) => rorl::do_rol(cpu, a, AddrMode::ZP),
        M6502Ins::RolZPX(a) => rorl::do_rol(cpu, a, AddrMode::ZPX),
        M6502Ins::RolAbs(a) => rorl::do_rol(cpu, a, AddrMode::Abs),
        M6502Ins::RolAbsX(a) => rorl::do_rol(cpu, a, AddrMode::AbsX),
        M6502Ins::RorAcc(a) => rorl::do_ror_acc(cpu, a),
        M6502Ins::RorZP(a) => rorl::do_ror(cpu, a, AddrMode::ZP),
        M6502Ins::RorZPX(a) => rorl::do_ror(cpu, a, AddrMode::ZPX),
        M6502Ins::RorAbs(a) => rorl::do_ror(cpu, a, AddrMode::Abs),
        M6502Ins::RorAbsX(a) => rorl::do_ror(cpu, a, AddrMode::AbsX),
        M6502Ins::Rti(a) => misc::do_rti(cpu),
        M6502Ins::Rts(a) => misc::do_rts(cpu),
        M6502Ins::SbcImm(a) => sbc::do_subtract(cpu, a, AddrMode::Imm),
        M6502Ins::SbcZP(a) => sbc::do_subtract(cpu, a, AddrMode::ZP),
        M6502Ins::SbcZPX(a) => sbc::do_subtract(cpu, a, AddrMode::ZPX),
        M6502Ins::SbcAbs(a) => sbc::do_subtract(cpu, a, AddrMode::Abs),
        M6502Ins::SbcAbsX(a) => sbc::do_subtract(cpu, a, AddrMode::AbsX),
        M6502Ins::SbcAbsY(a) => sbc::do_subtract(cpu, a, AddrMode::AbsY),
        M6502Ins::SbcIndX(a) => sbc::do_subtract(cpu, a, AddrMode::IndX),
        M6502Ins::SbcIndY(a) => sbc::do_subtract(cpu, a, AddrMode::IndY),
        M6502Ins::Sec(a) => clr::do_flag_op(cpu, a, CARRY_ON_MASK, true),
        M6502Ins::Sed(a) => clr::do_flag_op(cpu, a, DECIMAL_ON_MASK, true),
        M6502Ins::Sei(a) => clr::do_flag_op(cpu, a, INTERRUPT_ON_MASK, true),
        M6502Ins::StaImm(a) => sta::do_store_accumulator(cpu, a, AddrMode::Imm),
        M6502Ins::StaZP(a) => sta::do_store_accumulator(cpu, a, AddrMode::ZP),
        M6502Ins::StaZPX(a) => sta::do_store_accumulator(cpu, a, AddrMode::ZPX),
        M6502Ins::StaAbs(a) => sta::do_store_accumulator(cpu, a, AddrMode::Abs),
        M6502Ins::StaAbsX(a) => sta::do_store_accumulator(cpu, a, AddrMode::AbsX),
        M6502Ins::StaAbsY(a) => sta::do_store_accumulator(cpu, a, AddrMode::AbsY),
        M6502Ins::StaIndX(a) => sta::do_store_accumulator(cpu, a, AddrMode::IndX),
        M6502Ins::StaIndY(a) => sta::do_store_accumulator(cpu, a, AddrMode::IndY),
        M6502Ins::StxZP(a) => stxy::do_store_x(cpu, a, AddrMode::ZP),
        M6502Ins::StxZPY(a) => stxy::do_store_x(cpu, a, AddrMode::ZPY),
        M6502Ins::StxAbs(a) => stxy::do_store_x(cpu, a, AddrMode::Abs),
        M6502Ins::StyZP(a) => stxy::do_store_y(cpu, a, AddrMode::ZP),
        M6502Ins::StyZPX(a) => stxy::do_store_y(cpu, a, AddrMode::ZPX),
        M6502Ins::StyAbs(a) => stxy::do_store_y(cpu, a, AddrMode::Abs),
        M6502Ins::Tax(a) => transfer::do_tax(cpu, a),
        M6502Ins::Tay(a) => transfer::do_tay(cpu, a),
        M6502Ins::Tsx(a) => transfer::do_tsx(cpu, a),
        M6502Ins::Txa(a) => transfer::do_txa(cpu, a),
        M6502Ins::Txs(a) => transfer::do_txs(cpu, a),
        M6502Ins::Tya(a) => transfer::do_tya(cpu, a),
        _ => unreached(),
    }
}

/// An instruction's behaviour: executing it transforms the processor
/// exactly as [`exec_ins`] describes.
pub trait Mos6502Ins {
    /// The instruction variant this value stands for.
    spec fn ins(&self) -> M6502Ins;

    /// Execute the instruction on the processor state.
    fn execute(&self, cpu: &mut Mos6502)
        requires
            old(cpu)@.wf(),
        ensures
            final(cpu)@ == exec_ins(old(cpu)@, self.ins()),
    ;
}

} // verus!
