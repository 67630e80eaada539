//! EOR - bitwise exclusive OR of the accumulator with a memory operand.

use vstd::prelude::*;

use crate::address_mode::{resolve_operand, spec_operand_of, AddrMode};
use crate::cpu::{CpuState, Mos6502};
use crate::insset::utils::{spec_advance_pc, spec_update_zn, update_zn};
use crate::insset::{InsAttr, M6502Ins, Mos6502Ins};

verus! {

/// The state after the accumulator takes `ac ^ operand`; zero and negative
/// follow the result.
pub open spec fn spec_eor(pre: CpuState, operand: u8) -> CpuState {
    let result = pre.ac ^ operand;
    CpuState { ac: result, sr: spec_update_zn(pre.sr, result), ..pre }
}

/// EOR with a given addressing mode: resolve the operand, combine it into
/// the accumulator, advance the program counter.
#[verifier::opaque]
pub open spec fn spec_do_exclusive_or(pre: CpuState, mode: AddrMode, len: u8) -> CpuState {
    spec_advance_pc(spec_eor(pre, spec_operand_of(pre, mode)), len)
}

/// Resolve the operand, exclusive-OR it into the accumulator and advance
/// past the instruction.
pub fn do_exclusive_or(cpu: &mut Mos6502, attr: &InsAttr, mode: AddrMode)
    requires
        old(cpu)@.wf(),
    ensures
        final(cpu)@ == spec_do_exclusive_or(old(cpu)@, mode, attr.len),
{
    proof {
        reveal(spec_do_exclusive_or);
    }
    let operand = resolve_operand(cpu, mode);
    let result = cpu.ac ^ operand;
    update_zn(cpu, result);
    cpu.ac = result;
    cpu.next_instruction(attr);
}

/// EOR with immediate addressing.
pub struct EorImm {
    /// Decoded attributes of this instruction.
    pub attr: InsAttr,
}

/// EOR with zero-page addressing.
pub struct EorZP {
    /// Decoded attributes of this instruction.
    pub attr: InsAttr,
}

/// EOR with zero-page,X addressing.
pub struct EorZPX {
    /// Decoded attributes of this instruction.
    pub attr: InsAttr,
}

/// EOR with absolute addressing.
pub struct EorAbs {
    /// Decoded attributes of this instruction.
    pub attr: InsAttr,
}

/// EOR with absolute,X addressing.
pub struct EorAbsX {
    /// Decoded attributes of this instruction.
    pub attr: InsAttr,
}

/// EOR with absolute,Y addressing.
pub struct EorAbsY {
    /// Decoded attributes of this instruction.
    pub attr: InsAttr,
}

/// EOR with indexed indirect addressing.
pub struct EorIndX {
    /// Decoded attributes of this instruction.
    pub attr: InsAttr,
}

/// EOR with indirect indexed addressing.
pub struct EorIndY {
    /// Decoded attributes of this instruction.
    pub attr: InsAttr,
}

impl Mos6502Ins for EorImm {
    open spec fn ins(&self) -> M6502Ins {
        M6502Ins::EorImm(self.attr)
    }

    fn execute(&self, cpu: &mut Mos6502) {
        do_exclusive_or(cpu, &self.attr, AddrMode::Imm)
    }
}

impl Mos6502Ins for EorZP {
    open spec fn ins(&self) -> M6502Ins {
        M6502Ins::EorZP(self.attr)
    }

    fn execute(&self, cpu: &mut Mos6502) {
        do_exclusive_or(cpu, &self.attr, AddrMode::ZP)
    }
}

impl Mos6502Ins for EorZPX {
    open spec fn ins(&self) -> M6502Ins {
        M6502Ins::EorZPX(self.attr)
    }

    fn execute(&self, cpu: &mut Mos6502) {
        do_exclusive_or(cpu, &self.attr, AddrMode::ZPX)
    }
}

impl Mos6502Ins for EorAbs {
    open spec fn ins(&self) -> M6502Ins {
        M6502Ins::EorAbs(self.attr)
    }

    fn execute(&self, cpu: &mut Mos6502) {
        do_exclusive_or(cpu, &self.attr, AddrMode::Abs)
    }
}

impl Mos6502Ins for EorAbsX {
    open spec fn ins(&self) -> M6502Ins {
        M6502Ins::EorAbsX(self.attr)
    }

    fn execute(&self, cpu: &mut Mos6502) {
        do_exclusive_or(cpu, &self.attr, AddrMode::AbsX)
    }
}

impl Mos6502Ins for EorAbsY {
    open spec fn ins(&self) -> M6502Ins {
        M6502Ins::EorAbsY(self.attr)
    }

    fn execute(&self, cpu: &mut Mos6502) {
        do_exclusive_or(cpu, &self.attr, AddrMode::AbsY)
    }
}

impl Mos6502Ins for EorIndX {
    open spec fn ins(&self) -> M6502Ins {
        M6502Ins::EorIndX(self.attr)
    }

    fn execute(&self, cpu: &mut Mos6502) {
        do_exclusive_or(cpu, &self.attr, AddrMode::IndX)
    }
}

impl Mos6502Ins for EorIndY {
    open spec fn ins(&self) -> M6502Ins {
        M6502Ins::EorIndY(self.attr)
    }

    fn execute(&self, cpu: &mut Mos6502) {
        do_exclusive_or(cpu, &self.attr, AddrMode::IndY)
    }
}

} // verus!
