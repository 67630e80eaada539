//! The flag clear and set family - CLC, CLD, CLI, CLV, SEC, SED and SEI
//! force a single status bit and never disturb another.

use vstd::prelude::*;

use crate::constant::{CARRY_ON_MASK, DECIMAL_ON_MASK, INTERRUPT_ON_MASK, OVERFLOW_ON_MASK};
use crate::cpu::{CpuState, Mos6502};
use crate::insset::utils::{flag_set, spec_advance_pc};
use crate::insset::{InsAttr, M6502Ins, Mos6502Ins};

verus! {

/// The state after a flag instruction: one status bit is forced to `on`
/// and the program counter advances past the instruction.
#[verifier::opaque]
pub open spec fn spec_flag_op(pre: CpuState, mask: u8, on: bool, len: u8) -> CpuState {
    spec_advance_pc(CpuState { sr: flag_set(pre.sr, mask, on), ..pre }, len)
}

/// Force one status bit and advance past the instruction.
pub(crate) fn do_flag_op(cpu: &mut Mos6502, attr: &InsAttr, mask: u8, on: bool)
    ensures
        final(cpu)@ == spec_flag_op(old(cpu)@, mask, on, attr.len),
{
    proof {
        reveal(spec_flag_op);
    }
    if on {
        cpu.sr = cpu.sr | mask;
    } else {
        cpu.sr = cpu.sr & !mask;
    }
    cpu.next_instruction(attr);
}

/// CLC - clear the carry flag.
pub struct Clc {
    /// Decoded attributes of this instruction.
    pub attr: InsAttr,
}

/// CLD - clear the decimal-mode flag.
pub struct Cld {
    /// Decoded attributes of this instruction.
    pub attr: InsAttr,
}

/// CLI - clear the interrupt-disable flag.
pub struct Cli {
    /// Decoded attributes of this instruction.
    pub attr: InsAttr,
}

/// CLV - clear the overflow flag.
pub struct Clv {
    /// Decoded attributes of this instruction.
    pub attr: InsAttr,
}

impl Mos6502Ins for Clc {
    open spec fn ins(&self) -> M6502Ins {
        M6502Ins::Clc(self.attr)
    }

    fn execute(&self, cpu: &mut Mos6502) {
        do_flag_op(cpu, &self.attr, CARRY_ON_MASK, false)
    }
}

impl Mos6502Ins for Cld {
    open spec fn ins(&self) -> M6502Ins {
        M6502Ins::Cld(self.attr)
    }

    fn execute(&self, cpu: &mut Mos6502) {
        do_flag_op(cpu, &self.attr, DECIMAL_ON_MASK, false)
    }
}

impl Mos6502Ins for Cli {
    open spec fn ins(&self) -> M6502Ins {
        M6502Ins::Cli(self.attr)
    }

    fn execute(&self, cpu: &mut Mos6502) {
        do_flag_op(cpu, &self.attr, INTERRUPT_ON_MASK, false)
    }
}

impl Mos6502Ins for Clv {
    open spec fn ins(&self) -> M6502Ins {
        M6502Ins::Clv(self.attr)
    }

    fn execute(&self, cpu: &mut Mos6502) {
        do_flag_op(cpu, &self.attr, OVERFLOW_ON_MASK, false)
    }
}

} // verus!
