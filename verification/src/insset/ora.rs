//! ORA - bitwise inclusive OR of the accumulator with a memory operand.

use vstd::prelude::*;

use crate::address_mode::{resolve_operand, spec_operand_of, AddrMode};
use crate::cpu::{CpuState, Mos6502};
use crate::insset::utils::{spec_advance_pc, spec_update_zn, update_zn};
use crate::insset::{InsAttr, M6502Ins, Mos6502Ins};

verus! {

/// The state after the accumulator takes `ac | operand`; zero and negative
/// follow the result.
pub open spec fn spec_ora(pre: CpuState, operand: u8) -> CpuState {
    let result = pre.ac | operand;
    CpuState { ac: result, sr: spec_update_zn(pre.sr, result), ..pre }
}

/// ORA with a given addressing mode: resolve the operand, combine it into
/// the accumulator, advance the program counter.
#[verifier::opaque]
pub open spec fn spec_do_inclusive_or(pre: CpuState, mode: AddrMode, len: u8) -> CpuState {
    spec_advance_pc(spec_ora(pre, spec_operand_of(pre, mode)), len)
}

/// Resolve the operand, inclusive-OR it into the accumulator and advance
/// past the instruction.
pub fn do_inclusive_or(cpu: &mut Mos6502, attr: &InsAttr, mode: AddrMode)
    requires
        old(cpu)@.wf(),
    ensures
        final(cpu)@ == spec_do_inclusive_or(old(cpu)@, mode, attr.len),
{
    proof {
        reveal(spec_do_inclusive_or);
    }
    let operand = resolve_operand(cpu, mode);
    let result = cpu.ac | operand;
    update_zn(cpu, result);
    cpu.ac = result;
    cpu.next_instruction(attr);
}

/// ORA with immediate addressing.
pub struct OraImm {
    /// Decoded attributes of this instruction.
    pub attr: InsAttr,
}

/// ORA with zero-page addressing.
pub struct OraZP {
    /// Decoded attributes of this instruction.
    pub attr: InsAttr,
}

/// ORA with zero-page,X addressing.
pub struct OraZPX {
    /// Decoded attributes of this instruction.
    pub attr: InsAttr,
}

/// ORA with absolute addressing.
pub struct OraAbs {
    /// Decoded attributes of this instruction.
    pub attr: InsAttr,
}

/// ORA with absolute,X addressing.
pub struct OraAbsX {
    /// Decoded attributes of this instruction.
    pub attr: InsAttr,
}

/// ORA with absolute,Y addressing.
pub struct OraAbsY {
    /// Decoded attributes of this instruction.
    pub attr: InsAttr,
}

/// ORA with indexed indirect addressing.
pub struct OraIndX {
    /// Decoded attributes of this instruction.
    pub attr: InsAttr,
}

/// ORA with indirect indexed addressing.
pub struct OraIndY {
    /// Decoded attributes of this instruction.
    pub attr: InsAttr,
}

impl Mos6502Ins for OraImm {
    open spec fn ins(&self) -> M6502Ins {
        M6502Ins::OraImm(self.attr)
    }

    fn execute(&self, cpu: &mut Mos6502) {
        do_inclusive_or(cpu, &self.attr, AddrMode::Imm)
    }
}

impl Mos6502Ins for OraZP {
    open spec fn ins(&self) -> M6502Ins {
        M6502Ins::OraZP(self.attr)
    }

    fn execute(&self, cpu: &mut Mos6502) {
        do_inclusive_or(cpu, &self.attr, AddrMode::ZP)
    }
}

impl Mos6502Ins for OraZPX {
    open spec fn ins(&self) -> M6502Ins {
        M6502Ins::OraZPX(self.attr)
    }

    fn execute(&self, cpu: &mut Mos6502) {
        do_inclusive_or(cpu, &self.attr, AddrMode::ZPX)
    }
}

impl Mos6502Ins for OraAbs {
    open spec fn ins(&self) -> M6502Ins {
        M6502Ins::OraAbs(self.attr)
    }

    fn execute(&self, cpu: &mut Mos6502) {
        do_inclusive_or(cpu, &self.attr, AddrMode::Abs)
    }
}

impl Mos6502Ins for OraAbsX {
    open spec fn ins(&self) -> M6502Ins {
        M6502Ins::OraAbsX(self.attr)
    }

    fn execute(&self, cpu: &mut Mos6502) {
        do_inclusive_or(cpu, &self.attr, AddrMode::AbsX)
    }
}

impl Mos6502Ins for OraAbsY {
    open spec fn ins(&self) -> M6502Ins {
        M6502Ins::OraAbsY(self.attr)
    }

    fn execute(&self, cpu: &mut Mos6502) {
        do_inclusive_or(cpu, &self.attr, AddrMode::AbsY)
    }
}

impl Mos6502Ins for OraIndX {
    open spec fn ins(&self) -> M6502Ins {
        M6502Ins::OraIndX(self.attr)
    }

    fn execute(&self, cpu: &mut Mos6502) {
        do_inclusive_or(cpu, &self.attr, AddrMode::IndX)
    }
}

impl Mos6502Ins for OraIndY {
    open spec fn ins(&self) -> M6502Ins {
        M6502Ins::OraIndY(self.attr)
    }

    fn execute(&self, cpu: &mut Mos6502) {
        do_inclusive_or(cpu, &self.attr, AddrMode::IndY)
    }
}

} // verus!
