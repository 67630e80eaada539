//! CPX and CPY - compare the index registers with a memory operand.

use vstd::prelude::*;

use crate::address_mode::{resolve_operand, spec_operand_of, AddrMode};
use crate::cpu::{CpuState, Mos6502};
use crate::insset::cmp::{compare_flags, spec_compare_flags};
use crate::insset::utils::spec_advance_pc;
use crate::insset::{InsAttr, M6502Ins, Mos6502Ins};

verus! {

/// CPX with a given addressing mode: the X register is compared, only the
/// status byte changes.
#[verifier::opaque]
pub open spec fn spec_do_compare_x(pre: CpuState, mode: AddrMode, len: u8) -> CpuState {
    spec_advance_pc(
        CpuState { sr: spec_compare_flags(pre.sr, pre.xr, spec_operand_of(pre, mode)), ..pre },
        len,
    )
}

/// CPY with a given addressing mode: the Y register is compared, only the
/// status byte changes.
#[verifier::opaque]
pub open spec fn spec_do_compare_y(pre: CpuState, mode: AddrMode, len: u8) -> CpuState {
    spec_advance_pc(
        CpuState { sr: spec_compare_flags(pre.sr, pre.yr, spec_operand_of(pre, mode)), ..pre },
        len,
    )
}

/// Resolve the operand, compare it with the X register and advance past
/// the instruction.
pub fn do_compare_x(cpu: &mut Mos6502, attr: &InsAttr, mode: AddrMode)
    requires
        old(cpu)@.wf(),
    ensures
        final(cpu)@ == spec_do_compare_x(old(cpu)@, mode, attr.len),
{
    proof {
        reveal(spec_do_compare_x);
    }
    let operand = resolve_operand(cpu, mode);
    let reg = cpu.xr;
    compare_flags(cpu, reg, operand);
    cpu.next_instruction(attr);
}

/// Resolve the operand, compare it with the Y register and advance past
/// the instruction.
pub fn do_compare_y(cpu: &mut Mos6502, attr: &InsAttr, mode: AddrMode)
    requires
        old(cpu)@.wf(),
    ensures
        final(cpu)@ == spec_do_compare_y(old(cpu)@, mode, attr.len),
{
    proof {
        reveal(spec_do_compare_y);
    }
    let operand = resolve_operand(cpu, mode);
    let reg = cpu.yr;
    compare_flags(cpu, reg, operand);
    cpu.next_instruction(attr);
}

/// CPX with immediate addressing.
pub struct CpxImm {
    /// Decoded attributes of this instruction.
    pub attr: InsAttr,
}

/// CPX with zero-page addressing.
pub struct CpxZP {
    /// Decoded attributes of this instruction.
    pub attr: InsAttr,
}

/// CPX with absolute addressing.
pub struct CpxAbs {
    /// Decoded attributes of this instruction.
    pub attr: InsAttr,
}

/// CPY with immediate addressing.
pub struct CpyImm {
    /// Decoded attributes of this instruction.
    pub attr: InsAttr,
}

/// CPY with zero-page addressing.
pub struct CpyZP {
    /// Decoded attributes of this instruction.
    pub attr: InsAttr,
}

/// CPY with absolute addressing.
pub struct CpyAbs {
    /// Decoded attributes of this instruction.
    pub attr: InsAttr,
}

impl Mos6502Ins for CpxImm {
    open spec fn ins(&self) -> M6502Ins {
        M6502Ins::CpxImm(self.attr)
    }

    fn execute(&self, cpu: &mut Mos6502) {
        do_compare_x(cpu, &self.attr, AddrMode::Imm)
    }
}

impl Mos6502Ins for CpxZP {
    open spec fn ins(&self) -> M6502Ins {
        M6502Ins::CpxZP(self.attr)
    }

    fn execute(&self, cpu: &mut Mos6502) {
        do_compare_x(cpu, &self.attr, AddrMode::ZP)
    }
}

impl Mos6502Ins for CpxAbs {
    open spec fn ins(&self) -> M6502Ins {
        M6502Ins::CpxAbs(self.attr)
    }

    fn execute(&self, cpu: &mut Mos6502) {
        do_compare_x(cpu, &self.attr, AddrMode::Abs)
    }
}

impl Mos6502Ins for CpyImm {
    open spec fn ins(&self) -> M6502Ins {
        M6502Ins::CpyImm(self.attr)
    }

    fn execute(&self, cpu: &mut Mos6502) {
        do_compare_y(cpu, &self.attr, AddrMode::Imm)
    }
}

impl Mos6502Ins for CpyZP {
    open spec fn ins(&self) -> M6502Ins {
        M6502Ins::CpyZP(self.attr)
    }

    fn execute(&self, cpu: &mut Mos6502) {
        do_compare_y(cpu, &self.attr, AddrMode::ZP)
    }
}

impl Mos6502Ins for CpyAbs {
    open spec fn ins(&self) -> M6502Ins {
        M6502Ins::CpyAbs(self.attr)
    }

    fn execute(&self, cpu: &mut Mos6502) {
        do_compare_y(cpu, &self.attr, AddrMode::Abs)
    }
}

} // verus!
