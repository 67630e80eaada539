//! BIT - test bits of a memory operand against the accumulator without
//! storing a result.

use vstd::prelude::*;

use crate::address_mode::{resolve_operand, spec_operand_of, AddrMode};
use crate::constant::{NEGATIVE_ON_MASK, OVERFLOW_ON_MASK, ZERO_ON_MASK};
use crate::cpu::{CpuState, Mos6502};
use crate::insset::utils::{
    flag_set, spec_advance_pc, update_negative_flag, update_overflow_flag, update_zero_flag,
};
use crate::insset::{InsAttr, M6502Ins, Mos6502Ins};

verus! {

/// The state after BIT: zero is set iff `operand & ac` is zero, negative
/// copies the operand's bit 7, overflow copies the operand's bit 6.  The
/// accumulator itself is untouched.
pub open spec fn spec_bit(pre: CpuState, operand: u8) -> CpuState {
    let sr1 = flag_set(pre.sr, ZERO_ON_MASK, operand & pre.ac == 0);
    let sr2 = flag_set(sr1, NEGATIVE_ON_MASK, operand >= 0x80);
    let sr3 = flag_set(sr2, OVERFLOW_ON_MASK, (operand / 64) % 2 == 1);
    CpuState { sr: sr3, ..pre }
}

/// BIT with a given addressing mode.
#[verifier::opaque]
pub open spec fn spec_do_bit(pre: CpuState, mode: AddrMode, len: u8) -> CpuState {
    spec_advance_pc(spec_bit(pre, spec_operand_of(pre, mode)), len)
}

/// Resolve the operand, test its bits against the accumulator and
/// advance past the instruction.
pub fn do_bit(cpu: &mut Mos6502, attr: &InsAttr, mode: AddrMode)
    requires
        old(cpu)@.wf(),
    ensures
        final(cpu)@ == spec_do_bit(old(cpu)@, mode, attr.len),
{
    proof {
        reveal(spec_do_bit);
    }
    let operand = resolve_operand(cpu, mode);
    update_zero_flag(cpu, operand & cpu.ac == 0);
    update_negative_flag(cpu, operand >= 0x80);
    update_overflow_flag(cpu, (operand / 64) % 2 == 1);
    cpu.next_instruction(attr);
}

/// BIT with zero-page addressing.
pub struct BitZP {
    /// Decoded attributes of this instruction.
    pub attr: InsAttr,
}

/// BIT with absolute addressing.
pub struct BitAbs {
    /// Decoded attributes of this instruction.
    pub attr: InsAttr,
}

impl Mos6502Ins for BitZP {
    open spec fn ins(&self) -> M6502Ins {
        M6502Ins::BitZP(self.attr)
    }

    fn execute(&self, cpu: &mut Mos6502) {
        do_bit(cpu, &self.attr, AddrMode::ZP)
    }
}

impl Mos6502Ins for BitAbs {
    open spec fn ins(&self) -> M6502Ins {
        M6502Ins::BitAbs(self.attr)
    }

    fn execute(&self, cpu: &mut Mos6502) {
        do_bit(cpu, &self.attr, AddrMode::Abs)
    }
}

} // verus!
