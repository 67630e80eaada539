//! LDX and LDY - load the index registers from a memory operand.

use vstd::prelude::*;

use crate::address_mode::{resolve_operand, spec_operand_of, AddrMode};
use crate::cpu::{CpuState, Mos6502};
use crate::insset::utils::{spec_advance_pc, spec_update_zn, update_zn};
use crate::insset::{InsAttr, M6502Ins, Mos6502Ins};

verus! {

/// LDX with a given addressing mode: the X register takes the operand;
/// zero and negative follow the loaded value.
#[verifier::opaque]
pub open spec fn spec_do_load_x(pre: CpuState, mode: AddrMode, len: u8) -> CpuState {
    let v = spec_operand_of(pre, mode);
    spec_advance_pc(CpuState { xr: v, sr: spec_update_zn(pre.sr, v), ..pre }, len)
}

/// LDY with a given addressing mode: the Y register takes the operand;
/// zero and negative follow the loaded value.
#[verifier::opaque]
pub open spec fn spec_do_load_y(pre: CpuState, mode: AddrMode, len: u8) -> CpuState {
    let v = spec_operand_of(pre, mode);
    spec_advance_pc(CpuState { yr: v, sr: spec_update_zn(pre.sr, v), ..pre }, len)
}

/// Resolve the operand, load it into the X register and advance past
/// the instruction.
pub fn do_load_x(cpu: &mut Mos6502, attr: &InsAttr, mode: AddrMode)
    requires
        old(cpu)@.wf(),
    ensures
        final(cpu)@ == spec_do_load_x(old(cpu)@, mode, attr.len),
{
    proof {
        reveal(spec_do_load_x);
    }
    let v = resolve_operand(cpu, mode);
    cpu.xr = v;
    update_zn(cpu, v);
    cpu.next_instruction(attr);
}

/// Resolve the operand, load it into the Y register and advance past
/// the instruction.
pub fn do_load_y(cpu: &mut Mos6502, attr: &InsAttr, mode: AddrMode)
    requires
        old(cpu)@.wf(),
    ensures
        final(cpu)@ == spec_do_load_y(old(cpu)@, mode, attr.len),
{
    proof {
        reveal(spec_do_load_y);
    }
    let v = resolve_operand(cpu, mode);
    cpu.yr = v;
    update_zn(cpu, v);
    cpu.next_instruction(attr);
}

/// LDX with immediate addressing.
pub struct LdxImm {
    /// Decoded attributes of this instruction.
    pub attr: InsAttr,
}

/// LDX with zero-page addressing.
pub struct LdxZP {
    /// Decoded attributes of this instruction.
    pub attr: InsAttr,
}

/// LDX with zero-page,Y addressing.
pub struct LdxZPY {
    /// Decoded attributes of this instruction.
    pub attr: InsAttr,
}

/// LDX with absolute addressing.
pub struct LdxAbs {
    /// Decoded attributes of this instruction.
    pub attr: InsAttr,
}

/// LDX with absolute,Y addressing.
pub struct LdxAbsY {
    /// Decoded attributes of this instruction.
    pub attr: InsAttr,
}

/// LDY with immediate addressing.
pub struct LdyImm {
    /// Decoded attributes of this instruction.
    pub attr: InsAttr,
}

/// LDY with zero-page addressing.
pub struct LdyZP {
    /// Decoded attributes of this instruction.
    pub attr: InsAttr,
}

/// LDY with zero-page,X addressing.
pub struct LdyZPX {
    /// Decoded attributes of this instruction.
    pub attr: InsAttr,
}

/// LDY with absolute addressing.
pub struct LdyAbs {
    /// Decoded attributes of this instruction.
    pub attr: InsAttr,
}

/// LDY with absolute,X addressing.
pub struct LdyAbsX {
    /// Decoded attributes of this instruction.
    pub attr: InsAttr,
}

impl Mos6502Ins for LdxImm {
    open spec fn ins(&self) -> M6502Ins {
        M6502Ins::LdxImm(self.attr)
    }

    fn execute(&self, cpu: &mut Mos6502) {
        do_load_x(cpu, &self.attr, AddrMode::Imm)
    }
}

impl Mos6502Ins for LdxZP {
    open spec fn ins(&self) -> M6502Ins {
        M6502Ins::LdxZP(self.attr)
    }

    fn execute(&self, cpu: &mut Mos6502) {
        do_load_x(cpu, &self.attr, AddrMode::ZP)
    }
}

impl Mos6502Ins for LdxZPY {
    open spec fn ins(&self) -> M6502Ins {
        M6502Ins::LdxZPY(self.attr)
    }

    fn execute(&self, cpu: &mut Mos6502) {
        do_load_x(cpu, &self.attr, AddrMode::ZPY)
    }
}

impl Mos6502Ins for LdxAbs {
    open spec fn ins(&self) -> M6502Ins {
        M6502Ins::LdxAbs(self.attr)
    }

    fn execute(&self, cpu: &mut Mos6502) {
        do_load_x(cpu, &self.attr, AddrMode::Abs)
    }
}

impl Mos6502Ins for LdxAbsY {
    open spec fn ins(&self) -> M6502Ins {
        M6502Ins::LdxAbsY(self.attr)
    }

    fn execute(&self, cpu: &mut Mos6502) {
        do_load_x(cpu, &self.attr, AddrMode::AbsY)
    }
}

impl Mos6502Ins for LdyImm {
    open spec fn ins(&self) -> M6502Ins {
        M6502Ins::LdyImm(self.attr)
    }

    fn execute(&self, cpu: &mut Mos6502) {
        do_load_y(cpu, &self.attr, AddrMode::Imm)
    }
}

impl Mos6502Ins for LdyZP {
    open spec fn ins(&self) -> M6502Ins {
        M6502Ins::LdyZP(self.attr)
    }

    fn execute(&self, cpu: &mut Mos6502) {
        do_load_y(cpu, &self.attr, AddrMode::ZP)
    }
}

impl Mos6502Ins for LdyZPX {
    open spec fn ins(&self) -> M6502Ins {
        M6502Ins::LdyZPX(self.attr)
    }

    fn execute(&self, cpu: &mut Mos6502) {
        do_load_y(cpu, &self.attr, AddrMode::ZPX)
    }
}

impl Mos6502Ins for LdyAbs {
    open spec fn ins(&self) -> M6502Ins {
        M6502Ins::LdyAbs(self.attr)
    }

    fn execute(&self, cpu: &mut Mos6502) {
        do_load_y(cpu, &self.attr, AddrMode::Abs)
    }
}

impl Mos6502Ins for LdyAbsX {
    open spec fn ins(&self) -> M6502Ins {
        M6502Ins::LdyAbsX(self.attr)
    }

    fn execute(&self, cpu: &mut Mos6502) {
        do_load_y(cpu, &self.attr, AddrMode::AbsX)
    }
}

} // verus!
