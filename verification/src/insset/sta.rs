//! STA - store the accumulator at a mode's effective address.

use vstd::prelude::*;

use crate::address_mode::{resolve_address, spec_address_of, AddrMode};
use crate::cpu::{CpuState, Mos6502};
use crate::insset::utils::spec_advance_pc;
use crate::insset::{InsAttr, M6502Ins, Mos6502Ins};

verus! {

/// STA with a given addressing mode: the accumulator is written at the
/// effective address; no flag changes.
#[verifier::opaque]
pub open spec fn spec_do_store_accumulator(pre: CpuState, mode: AddrMode, len: u8) -> CpuState {
    spec_advance_pc(
        CpuState { mem: pre.mem.update(spec_address_of(pre, mode) as int, pre.ac), ..pre },
        len,
    )
}

/// Write the accumulator at the mode's effective address and advance
/// past the instruction.
pub fn do_store_accumulator(cpu: &mut Mos6502, attr: &InsAttr, mode: AddrMode)
    requires
        old(cpu)@.wf(),
    ensures
        final(cpu)@ == spec_do_store_accumulator(old(cpu)@, mode, attr.len),
{
    proof {
        reveal(spec_do_store_accumulator);
    }
    let addr = resolve_address(cpu, mode);
    let v = cpu.ac;
    cpu.write_mem(addr, v);
    cpu.next_instruction(attr);
}

/// STA with immediate addressing: a combination the decode table never
/// produces; it follows the general store rule and writes at the operand
/// byte's own address.
pub struct StaImm {
    /// Decoded attributes of this instruction.
    pub attr: InsAttr,
}

/// STA with zero-page addressing.
pub struct StaZP {
    /// Decoded attributes of this instruction.
    pub attr: InsAttr,
}

/// STA with zero-page,X addressing.
pub struct StaZPX {
    /// Decoded attributes of this instruction.
    pub attr: InsAttr,
}

/// STA with absolute addressing.
pub struct StaAbs {
    /// Decoded attributes of this instruction.
    pub attr: InsAttr,
}

/// STA with absolute,X addressing.
pub struct StaAbsX {
    /// Decoded attributes of this instruction.
    pub attr: InsAttr,
}

/// STA with absolute,Y addressing.
pub struct StaAbsY {
    /// Decoded attributes of this instruction.
    pub attr: InsAttr,
}

/// STA with indexed indirect addressing.
pub struct StaIndX {
    /// Decoded attributes of this instruction.
    pub attr: InsAttr,
}

/// STA with indirect indexed addressing.
pub struct StaIndY {
    /// Decoded attributes of this instruction.
    pub attr: InsAttr,
}

impl Mos6502Ins for StaImm {
    open spec fn ins(&self) -> M6502Ins {
        M6502Ins::StaImm(self.attr)
    }

    fn execute(&self, cpu: &mut Mos6502) {
        do_store_accumulator(cpu, &self.attr, AddrMode::Imm)
    }
}

impl Mos6502Ins for StaZP {
    open spec fn ins(&self) -> M6502Ins {
        M6502Ins::StaZP(self.attr)
    }

    fn execute(&self, cpu: &mut Mos6502) {
        do_store_accumulator(cpu, &self.attr, AddrMode::ZP)
    }
}

impl Mos6502Ins for StaZPX {
    open spec fn ins(&self) -> M6502Ins {
        M6502Ins::StaZPX(self.attr)
    }

    fn execute(&self, cpu: &mut Mos6502) {
        do_store_accumulator(cpu, &self.attr, AddrMode::ZPX)
    }
}

impl Mos6502Ins for StaAbs {
    open spec fn ins(&self) -> M6502Ins {
        M6502Ins::StaAbs(self.attr)
    }

    fn execute(&self, cpu: &mut Mos6502) {
        do_store_accumulator(cpu, &self.attr, AddrMode::Abs)
    }
}

impl Mos6502Ins for StaAbsX {
    open spec fn ins(&self) -> M6502Ins {
        M6502Ins::StaAbsX(self.attr)
    }

    fn execute(&self, cpu: &mut Mos6502) {
        do_store_accumulator(cpu, &self.attr, AddrMode::AbsX)
    }
}

impl Mos6502Ins for StaAbsY {
    open spec fn ins(&self) -> M6502Ins {
        M6502Ins::StaAbsY(self.attr)
    }

    fn execute(&self, cpu: &mut Mos6502) {
        do_store_accumulator(cpu, &self.attr, AddrMode::AbsY)
    }
}

impl Mos6502Ins for StaIndX {
    open spec fn ins(&self) -> M6502Ins {
        M6502Ins::StaIndX(self.attr)
    }

    fn execute(&self, cpu: &mut Mos6502) {
        do_store_accumulator(cpu, &self.attr, AddrMode::IndX)
    }
}

impl Mos6502Ins for StaIndY {
    open spec fn ins(&self) -> M6502Ins {
        M6502Ins::StaIndY(self.attr)
    }

    fn execute(&self, cpu: &mut Mos6502) {
        do_store_accumulator(cpu, &self.attr, AddrMode::IndY)
    }
}

} // verus!
