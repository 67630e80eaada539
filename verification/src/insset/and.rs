//! AND - bitwise AND of the accumulator with a memory operand.

use vstd::prelude::*;

use crate::address_mode::{resolve_operand, spec_operand_of, AddrMode};
use crate::cpu::{CpuState, Mos6502};
use crate::insset::utils::{spec_advance_pc, spec_update_zn, update_zn};
use crate::insset::{InsAttr, M6502Ins, Mos6502Ins};

verus! {

/// The state after the accumulator takes `ac & operand`; zero and negative
/// follow the result.
pub open spec fn spec_and(pre: CpuState, operand: u8) -> CpuState {
    let result = pre.ac & operand;
    CpuState { ac: result, sr: spec_update_zn(pre.sr, result), ..pre }
}

/// AND with a given addressing mode: resolve the operand, combine it into
/// the accumulator, advance the program counter.
#[verifier::opaque]
pub open spec fn spec_do_and(pre: CpuState, mode: AddrMode, len: u8) -> CpuState {
    spec_advance_pc(spec_and(pre, spec_operand_of(pre, mode)), len)
}

/// Resolve the operand, AND it into the accumulator and advance past the
/// instruction.
pub fn do_and(cpu: &mut Mos6502, attr: &InsAttr, mode: AddrMode)
    requires
        old(cpu)@.wf(),
    ensures
        final(cpu)@ == spec_do_and(old(cpu)@, mode, attr.len),
{
    proof {
        reveal(spec_do_and);
    }
    let operand = resolve_operand(cpu, mode);
    let result = cpu.ac & operand;
    update_zn(cpu, result);
    cpu.ac = result;
    cpu.next_instruction(attr);
}

/// AND with immediate addressing.
pub struct AndImm {
    /// Decoded attributes of this instruction.
    pub attr: InsAttr,
}

/// AND with zero-page addressing.
pub struct AndZP {
    /// Decoded attributes of this instruction.
    pub attr: InsAttr,
}

/// AND with zero-page,X addressing.
pub struct AndZPX {
    /// Decoded attributes of this instruction.
    pub attr: InsAttr,
}

/// AND with absolute addressing.
pub struct AndAbs {
    /// Decoded attributes of this instruction.
    pub attr: InsAttr,
}

/// AND with absolute,X addressing.
pub struct AndAbsX {
    /// Decoded attributes of this instruction.
    pub attr: InsAttr,
}

/// AND with absolute,Y addressing.
pub struct AndAbsY {
    /// Decoded attributes of this instruction.
    pub attr: InsAttr,
}

/// AND with indexed indirect addressing.
pub struct AndIndX {
    /// Decoded attributes of this instruction.
    pub attr: InsAttr,
}

/// AND with indirect indexed addressing.
pub struct AndIndY {
    /// Decoded attributes of this instruction.
    pub attr: InsAttr,
}

impl Mos6502Ins for AndImm {
    open spec fn ins(&self) -> M6502Ins {
        M6502Ins::AndImm(self.attr)
    }

    fn execute(&self, cpu: &mut Mos6502) {
        do_and(cpu, &self.attr, AddrMode::Imm)
    }
}

impl Mos6502Ins for AndZP {
    open spec fn ins(&self) -> M6502Ins {
        M6502Ins::AndZP(self.attr)
    }

    fn execute(&self, cpu: &mut Mos6502) {
        do_and(cpu, &self.attr, AddrMode::ZP)
    }
}

impl Mos6502Ins for AndZPX {
    open spec fn ins(&self) -> M6502Ins {
        M6502Ins::AndZPX(self.attr)
    }

    fn execute(&self, cpu: &mut Mos6502) {
        do_and(cpu, &self.attr, AddrMode::ZPX)
    }
}

impl Mos6502Ins for AndAbs {
    open spec fn ins(&self) -> M6502Ins {
        M6502Ins::AndAbs(self.attr)
    }

    fn execute(&self, cpu: &mut Mos6502) {
        do_and(cpu, &self.attr, AddrMode::Abs)
    }
}

impl Mos6502Ins for AndAbsX {
    open spec fn ins(&self) -> M6502Ins {
        M6502Ins::AndAbsX(self.attr)
    }

    fn execute(&self, cpu: &mut Mos6502) {
        do_and(cpu, &self.attr, AddrMode::AbsX)
    }
}

impl Mos6502Ins for AndAbsY {
    open spec fn ins(&self) -> M6502Ins {
        M6502Ins::AndAbsY(self.attr)
    }

    fn execute(&self, cpu: &mut Mos6502) {
        do_and(cpu, &self.attr, AddrMode::AbsY)
    }
}

impl Mos6502Ins for AndIndX {
    open spec fn ins(&self) -> M6502Ins {
        M6502Ins::AndIndX(self.attr)
    }

    fn execute(&self, cpu: &mut Mos6502) {
        do_and(cpu, &self.attr, AddrMode::IndX)
    }
}

impl Mos6502Ins for AndIndY {
    open spec fn ins(&self) -> M6502Ins {
        M6502Ins::AndIndY(self.attr)
    }

    fn execute(&self, cpu: &mut Mos6502) {
        do_and(cpu, &self.attr, AddrMode::IndY)
    }
}

} // verus!
