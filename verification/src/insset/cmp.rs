//! CMP - compare the accumulator with a memory operand without storing
//! the difference.

use vstd::prelude::*;

use crate::address_mode::{resolve_operand, spec_operand_of, AddrMode};
use crate::constant::CARRY_ON_MASK;
use crate::cpu::{CpuState, Mos6502};
use crate::insset::utils::{
    flag_set, spec_advance_pc, spec_update_zn, update_carry_flag, update_zn,
};
use crate::insset::{InsAttr, M6502Ins, Mos6502Ins};

verus! {

/// The eight-bit difference `reg - operand`, wrapping modulo 256.
pub open spec fn spec_sub8(reg: u8, operand: u8) -> u8 {
    ((reg + 256 - operand) % 256) as u8
}

/// The status byte after a register is compared with an operand: carry is
/// set iff `reg >= operand`, zero iff they are equal, negative follows the
/// high bit of the wrapped difference.
pub open spec fn spec_compare_flags(sr: u8, reg: u8, operand: u8) -> u8 {
    spec_update_zn(flag_set(sr, CARRY_ON_MASK, reg >= operand), spec_sub8(reg, operand))
}

/// CMP with a given addressing mode: only the status byte changes.
#[verifier::opaque]
pub open spec fn spec_do_compare(pre: CpuState, mode: AddrMode, len: u8) -> CpuState {
    spec_advance_pc(
        CpuState { sr: spec_compare_flags(pre.sr, pre.ac, spec_operand_of(pre, mode)), ..pre },
        len,
    )
}

/// Update the carry, zero and negative flags from comparing a register
/// with an operand.
pub(crate) fn compare_flags(cpu: &mut Mos6502, reg: u8, operand: u8)
    ensures
        final(cpu)@ == (CpuState { sr: spec_compare_flags(old(cpu)@.sr, reg, operand), ..old(cpu)@ }),
{
    update_carry_flag(cpu, reg >= operand);
    let diff: u8 = (((reg as u16) + 256 - (operand as u16)) % 256) as u8;
    update_zn(cpu, diff);
}

/// Resolve the operand, compare it with the accumulator and advance past
/// the instruction.
pub fn do_compare(cpu: &mut Mos6502, attr: &InsAttr, mode: AddrMode)
    requires
        old(cpu)@.wf(),
    ensures
        final(cpu)@ == spec_do_compare(old(cpu)@, mode, attr.len),
{
    proof {
        reveal(spec_do_compare);
    }
    let operand = resolve_operand(cpu, mode);
    let reg = cpu.ac;
    compare_flags(cpu, reg, operand);
    cpu.next_instruction(attr);
}

/// CMP with immediate addressing.
pub struct CmpImm {
    /// Decoded attributes of this instruction.
    pub attr: InsAttr,
}

/// CMP with zero-page addressing.
pub struct CmpZP {
    /// Decoded attributes of this instruction.
    pub attr: InsAttr,
}

/// CMP with zero-page,X addressing.
pub struct CmpZPX {
    /// Decoded attributes of this instruction.
    pub attr: InsAttr,
}

/// CMP with absolute addressing.
pub struct CmpAbs {
    /// Decoded attributes of this instruction.
    pub attr: InsAttr,
}

/// CMP with absolute,X addressing.
pub struct CmpAbsX {
    /// Decoded attributes of this instruction.
    pub attr: InsAttr,
}

/// CMP with absolute,Y addressing.
pub struct CmpAbsY {
    /// Decoded attributes of this instruction.
    pub attr: InsAttr,
}

/// CMP with indexed indirect addressing.
pub struct CmpIndX {
    /// Decoded attributes of this instruction.
    pub attr: InsAttr,
}

/// CMP with indirect indexed addressing.
pub struct CmpIndY {
    /// Decoded attributes of this instruction.
    pub attr: InsAttr,
}

impl Mos6502Ins for CmpImm {
    open spec fn ins(&self) -> M6502Ins {
        M6502Ins::CmpImm(self.attr)
    }

    fn execute(&self, cpu: &mut Mos6502) {
        do_compare(cpu, &self.attr, AddrMode::Imm)
    }
}

impl Mos6502Ins for CmpZP {
    open spec fn ins(&self) -> M6502Ins {
        M6502Ins::CmpZP(self.attr)
    }

    fn execute(&self, cpu: &mut Mos6502) {
        do_compare(cpu, &self.attr, AddrMode::ZP)
    }
}

impl Mos6502Ins for CmpZPX {
    open spec fn ins(&self) -> M6502Ins {
        M6502Ins::CmpZPX(self.attr)
    }

    fn execute(&self, cpu: &mut Mos6502) {
        do_compare(cpu, &self.attr, AddrMode::ZPX)
    }
}

impl Mos6502Ins for CmpAbs {
    open spec fn ins(&self) -> M6502Ins {
        M6502Ins::CmpAbs(self.attr)
    }

    fn execute(&self, cpu: &mut Mos6502) {
        do_compare(cpu, &self.attr, AddrMode::Abs)
    }
}

impl Mos6502Ins for CmpAbsX {
    open spec fn ins(&self) -> M6502Ins {
        M6502Ins::CmpAbsX(self.attr)
    }

    fn execute(&self, cpu: &mut Mos6502) {
        do_compare(cpu, &self.attr, AddrMode::AbsX)
    }
}

impl Mos6502Ins for CmpAbsY {
    open spec fn ins(&self) -> M6502Ins {
        M6502Ins::CmpAbsY(self.attr)
    }

    fn execute(&self, cpu: &mut Mos6502) {
        do_compare(cpu, &self.attr, AddrMode::AbsY)
    }
}

impl Mos6502Ins for CmpIndX {
    open spec fn ins(&self) -> M6502Ins {
        M6502Ins::CmpIndX(self.attr)
    }

    fn execute(&self, cpu: &mut Mos6502) {
        do_compare(cpu, &self.attr, AddrMode::IndX)
    }
}

impl Mos6502Ins for CmpIndY {
    open spec fn ins(&self) -> M6502Ins {
        M6502Ins::CmpIndY(self.attr)
    }

    fn execute(&self, cpu: &mut Mos6502) {
        do_compare(cpu, &self.attr, AddrMode::IndY)
    }
}

} // verus!
