//! LDA - load the accumulator from a memory operand.

use vstd::prelude::*;

use crate::address_mode::{resolve_operand, spec_operand_of, AddrMode};
use crate::cpu::{CpuState, Mos6502};
use crate::insset::utils::{spec_advance_pc, spec_update_zn, update_zn};
use crate::insset::{InsAttr, M6502Ins, Mos6502Ins};

verus! {

/// LDA with a given addressing mode: the accumulator takes the operand;
/// zero and negative follow the loaded value.
#[verifier::opaque]
pub open spec fn spec_do_load_accumulator(pre: CpuState, mode: AddrMode, len: u8) -> CpuState {
    let v = spec_operand_of(pre, mode);
    spec_advance_pc(CpuState { ac: v, sr: spec_update_zn(pre.sr, v), ..pre }, len)
}

/// Resolve the operand, load it into the accumulator and advance past
/// the instruction.
pub fn do_load_accumulator(cpu: &mut Mos6502, attr: &InsAttr, mode: AddrMode)
    requires
        old(cpu)@.wf(),
    ensures
        final(cpu)@ == spec_do_load_accumulator(old(cpu)@, mode, attr.len),
{
    proof {
        reveal(spec_do_load_accumulator);
    }
    let v = resolve_operand(cpu, mode);
    cpu.ac = v;
    update_zn(cpu, v);
    cpu.next_instruction(attr);
}

/// LDA with immediate addressing.
pub struct LdaImm {
    /// Decoded attributes of this instruction.
    pub attr: InsAttr,
}

/// LDA with zero-page addressing.
pub struct LdaZP {
    /// Decoded attributes of this instruction.
    pub attr: InsAttr,
}

/// LDA with zero-page,X addressing.
pub struct LdaZPX {
    /// Decoded attributes of this instruction.
    pub attr: InsAttr,
}

/// LDA with absolute addressing.
pub struct LdaAbs {
    /// Decoded attributes of this instruction.
    pub attr: InsAttr,
}

/// LDA with absolute,X addressing.
pub struct LdaAbsX {
    /// Decoded attributes of this instruction.
    pub attr: InsAttr,
}

/// LDA with absolute,Y addressing.
pub struct LdaAbsY {
    /// Decoded attributes of this instruction.
    pub attr: InsAttr,
}

/// LDA with indexed indirect addressing.
pub struct LdaIndX {
    /// Decoded attributes of this instruction.
    pub attr: InsAttr,
}

/// LDA with indirect indexed addressing.
pub struct LdaIndY {
    /// Decoded attributes of this instruction.
    pub attr: InsAttr,
}

impl Mos6502Ins for LdaImm {
    open spec fn ins(&self) -> M6502Ins {
        M6502Ins::LdaImm(self.attr)
    }

    fn execute(&self, cpu: &mut Mos6502) {
        do_load_accumulator(cpu, &self.attr, AddrMode::Imm)
    }
}

impl Mos6502Ins for LdaZP {
    open spec fn ins(&self) -> M6502Ins {
        M6502Ins::LdaZP(self.attr)
    }

    fn execute(&self, cpu: &mut Mos6502) {
        do_load_accumulator(cpu, &self.attr, AddrMode::ZP)
    }
}

impl Mos6502Ins for LdaZPX {
    open spec fn ins(&self) -> M6502Ins {
        M6502Ins::LdaZPX(self.attr)
    }

    fn execute(&self, cpu: &mut Mos6502) {
        do_load_accumulator(cpu, &self.attr, AddrMode::ZPX)
    }
}

impl Mos6502Ins for LdaAbs {
    open spec fn ins(&self) -> M6502Ins {
        M6502Ins::LdaAbs(self.attr)
    }

    fn execute(&self, cpu: &mut Mos6502) {
        do_load_accumulator(cpu, &self.attr, AddrMode::Abs)
    }
}

impl Mos6502Ins for LdaAbsX {
    open spec fn ins(&self) -> M6502Ins {
        M6502Ins::LdaAbsX(self.attr)
    }

    fn execute(&self, cpu: &mut Mos6502) {
        do_load_accumulator(cpu, &self.attr, AddrMode::AbsX)
    }
}

impl Mos6502Ins for LdaAbsY {
    open spec fn ins(&self) -> M6502Ins {
        M6502Ins::LdaAbsY(self.attr)
    }

    fn execute(&self, cpu: &mut Mos6502) {
        do_load_accumulator(cpu, &self.attr, AddrMode::AbsY)
    }
}

impl Mos6502Ins for LdaIndX {
    open spec fn ins(&self) -> M6502Ins {
        M6502Ins::LdaIndX(self.attr)
    }

    fn execute(&self, cpu: &mut Mos6502) {
        do_load_accumulator(cpu, &self.attr, AddrMode::IndX)
    }
}

impl Mos6502Ins for LdaIndY {
    open spec fn ins(&self) -> M6502Ins {
        M6502Ins::LdaIndY(self.attr)
    }

    fn execute(&self, cpu: &mut Mos6502) {
        do_load_accumulator(cpu, &self.attr, AddrMode::IndY)
    }
}

} // verus!
