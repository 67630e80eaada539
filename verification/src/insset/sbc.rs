//! SBC - subtract a memory operand with borrow from the accumulator.

use vstd::prelude::*;

use crate::address_mode::{resolve_operand, spec_operand_of, AddrMode};
use crate::cpu::{CpuState, Mos6502};
use crate::insset::adc::{add_and_update_status_register, spec_add};
use crate::insset::utils::spec_advance_pc;
use crate::insset::{InsAttr, M6502Ins, Mos6502Ins};

verus! {

/// SBC with a given addressing mode.  Subtraction is addition of the
/// operand's one's complement: `SBC(m)` behaves exactly as `ADC(255 - m)`,
/// flags included.
#[verifier::opaque]
pub open spec fn spec_do_subtract(pre: CpuState, mode: AddrMode, len: u8) -> CpuState {
    spec_advance_pc(spec_add(pre, (255 - spec_operand_of(pre, mode)) as u8), len)
}

/// Resolve the operand, add its one's complement with the carry into the
/// accumulator and advance past the instruction.
pub fn do_subtract(cpu: &mut Mos6502, attr: &InsAttr, mode: AddrMode)
    requires
        old(cpu)@.wf(),
    ensures
        final(cpu)@ == spec_do_subtract(old(cpu)@, mode, attr.len),
{
    proof {
        reveal(spec_do_subtract);
    }
    let operand = resolve_operand(cpu, mode);
    add_and_update_status_register(cpu, 255 - operand);
    cpu.next_instruction(attr);
}

/// SBC with immediate addressing.
pub struct SbcImm {
    /// Decoded attributes of this instruction.
    pub attr: InsAttr,
}

/// SBC with zero-page addressing.
pub struct SbcZP {
    /// Decoded attributes of this instruction.
    pub attr: InsAttr,
}

/// SBC with zero-page,X addressing.
pub struct SbcZPX {
    /// Decoded attributes of this instruction.
    pub attr: InsAttr,
}

/// SBC with absolute addressing.
pub struct SbcAbs {
    /// Decoded attributes of this instruction.
    pub attr: InsAttr,
}

/// SBC with absolute,X addressing.
pub struct SbcAbsX {
    /// Decoded attributes of this instruction.
    pub attr: InsAttr,
}

/// SBC with absolute,Y addressing.
pub struct SbcAbsY {
    /// Decoded attributes of this instruction.
    pub attr: InsAttr,
}

/// SBC with indexed indirect addressing.
pub struct SbcIndX {
    /// Decoded attributes of this instruction.
    pub attr: InsAttr,
}

/// SBC with indirect indexed addressing.
pub struct SbcIndY {
    /// Decoded attributes of this instruction.
    pub attr: InsAttr,
}

impl Mos6502Ins for SbcImm {
    open spec fn ins(&self) -> M6502Ins {
        M6502Ins::SbcImm(self.attr)
    }

    fn execute(&self, cpu: &mut Mos6502) {
        do_subtract(cpu, &self.attr, AddrMode::Imm)
    }
}

impl Mos6502Ins for SbcZP {
    open spec fn ins(&self) -> M6502Ins {
        M6502Ins::SbcZP(self.attr)
    }

    fn execute(&self, cpu: &mut Mos6502) {
        do_subtract(cpu, &self.attr, AddrMode::ZP)
    }
}

impl Mos6502Ins for SbcZPX {
    open spec fn ins(&self) -> M6502Ins {
        M6502Ins::SbcZPX(self.attr)
    }

    fn execute(&self, cpu: &mut Mos6502) {
        do_subtract(cpu, &self.attr, AddrMode::ZPX)
    }
}

impl Mos6502Ins for SbcAbs {
    open spec fn ins(&self) -> M6502Ins {
        M6502Ins::SbcAbs(self.attr)
    }

    fn execute(&self, cpu: &mut Mos6502) {
        do_subtract(cpu, &self.attr, AddrMode::Abs)
    }
}

impl Mos6502Ins for SbcAbsX {
    open spec fn ins(&self) -> M6502Ins {
        M6502Ins::SbcAbsX(self.attr)
    }

    fn execute(&self, cpu: &mut Mos6502) {
        do_subtract(cpu, &self.attr, AddrMode::AbsX)
    }
}

impl Mos6502Ins for SbcAbsY {
    open spec fn ins(&self) -> M6502Ins {
        M6502Ins::SbcAbsY(self.attr)
    }

    fn execute(&self, cpu: &mut Mos6502) {
        do_subtract(cpu, &self.attr, AddrMode::AbsY)
    }
}

impl Mos6502Ins for SbcIndX {
    open spec fn ins(&self) -> M6502Ins {
        M6502Ins::SbcIndX(self.attr)
    }

    fn execute(&self, cpu: &mut Mos6502) {
        do_subtract(cpu, &self.attr, AddrMode::IndX)
    }
}

impl Mos6502Ins for SbcIndY {
    open spec fn ins(&self) -> M6502Ins {
        M6502Ins::SbcIndY(self.attr)
    }

    fn execute(&self, cpu: &mut Mos6502) {
        do_subtract(cpu, &self.attr, AddrMode::IndY)
    }
}

} // verus!
