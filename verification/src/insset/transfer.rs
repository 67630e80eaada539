//! The transfer family - TAX, TAY, TSX, TXA, TXS and TYA copy one
//! register into another.  All but TXS update the zero and negative
//! flags from the copied value; TXS changes no flag.

use vstd::prelude::*;

use crate::cpu::{CpuState, Mos6502};
use crate::insset::utils::{spec_advance_pc, spec_update_zn, update_zn};
use crate::insset::{InsAttr, M6502Ins, Mos6502Ins};

verus! {

/// TAX - copy the accumulator into X.
#[verifier::opaque]
pub open spec fn spec_tax(pre: CpuState, len: u8) -> CpuState {
    spec_advance_pc(CpuState { xr: pre.ac, sr: spec_update_zn(pre.sr, pre.ac), ..pre }, len)
}

/// TAY - copy the accumulator into Y.
#[verifier::opaque]
pub open spec fn spec_tay(pre: CpuState, len: u8) -> CpuState {
    spec_advance_pc(CpuState { yr: pre.ac, sr: spec_update_zn(pre.sr, pre.ac), ..pre }, len)
}

/// TSX - copy the stack index into X.
#[verifier::opaque]
pub open spec fn spec_tsx(pre: CpuState, len: u8) -> CpuState {
    spec_advance_pc(CpuState { xr: pre.sp, sr: spec_update_zn(pre.sr, pre.sp), ..pre }, len)
}

/// TXA - copy X into the accumulator.
#[verifier::opaque]
pub open spec fn spec_txa(pre: CpuState, len: u8) -> CpuState {
    spec_advance_pc(CpuState { ac: pre.xr, sr: spec_update_zn(pre.sr, pre.xr), ..pre }, len)
}

/// TXS - copy X into the stack index; no flag changes.
#[verifier::opaque]
pub open spec fn spec_txs(pre: CpuState, len: u8) -> CpuState {
    spec_advance_pc(CpuState { sp: pre.xr, ..pre }, len)
}

/// TYA - copy Y into the accumulator.
#[verifier::opaque]
pub open spec fn spec_tya(pre: CpuState, len: u8) -> CpuState {
    spec_advance_pc(CpuState { ac: pre.yr, sr: spec_update_zn(pre.sr, pre.yr), ..pre }, len)
}

/// Copy the accumulator into X and advance past the instruction.
pub fn do_tax(cpu: &mut Mos6502, attr: &InsAttr)
    ensures
        final(cpu)@ == spec_tax(old(cpu)@, attr.len),
{
    proof {
        reveal(spec_tax);
    }
    let v = cpu.ac;
    cpu.xr = v;
    update_zn(cpu, v);
    cpu.next_instruction(attr);
}

/// Copy the accumulator into Y and advance past the instruction.
pub fn do_tay(cpu: &mut Mos6502, attr: &InsAttr)
    ensures
        final(cpu)@ == spec_tay(old(cpu)@, attr.len),
{
    proof {
        reveal(spec_tay);
    }
    let v = cpu.ac;
    cpu.yr = v;
    update_zn(cpu, v);
    cpu.next_instruction(attr);
}

/// Copy the stack index into X and advance past the instruction.
pub fn do_tsx(cpu: &mut Mos6502, attr: &InsAttr)
    ensures
        final(cpu)@ == spec_tsx(old(cpu)@, attr.len),
{
    proof {
        reveal(spec_tsx);
    }
    let v = cpu.sp;
    cpu.xr = v;
    update_zn(cpu, v);
    cpu.next_instruction(attr);
}

/// Copy X into the accumulator and advance past the instruction.
pub fn do_txa(cpu: &mut Mos6502, attr: &InsAttr)
    ensures
        final(cpu)@ == spec_txa(old(cpu)@, attr.len),
{
    proof {
        reveal(spec_txa);
    }
    let v = cpu.xr;
    cpu.ac = v;
    update_zn(cpu, v);
    cpu.next_instruction(attr);
}

/// Copy X into the stack index, changing no flag, and advance past the
/// instruction.
pub fn do_txs(cpu: &mut Mos6502, attr: &InsAttr)
    ensures
        final(cpu)@ == spec_txs(old(cpu)@, attr.len),
{
    proof {
        reveal(spec_txs);
    }
    cpu.sp = cpu.xr;
    cpu.next_instruction(attr);
}

/// Copy Y into the accumulator and advance past the instruction.
pub fn do_tya(cpu: &mut Mos6502, attr: &InsAttr)
    ensures
        final(cpu)@ == spec_tya(old(cpu)@, attr.len),
{
    proof {
        reveal(spec_tya);
    }
    let v = cpu.yr;
    cpu.ac = v;
    update_zn(cpu, v);
    cpu.next_instruction(attr);
}

/// TAX - transfer the accumulator to X.
pub struct Tax {
    /// Decoded attributes of this instruction.
    pub attr: InsAttr,
}

/// TAY - transfer the accumulator to Y.
pub struct Tay {
    /// Decoded attributes of this instruction.
    pub attr: InsAttr,
}

/// TSX - transfer the stack index to X.
pub struct Tsx {
    /// Decoded attributes of this instruction.
    pub attr: InsAttr,
}

/// TXA - transfer X to the accumulator.
pub struct Txa {
    /// Decoded attributes of this instruction.
    pub attr: InsAttr,
}

/// TXS - transfer X to the stack index.
pub struct Txs {
    /// Decoded attributes of this instruction.
    pub attr: InsAttr,
}

/// TYA - transfer Y to the accumulator.
pub struct Tya {
    /// Decoded attributes of this instruction.
    pub attr: InsAttr,
}

impl Mos6502Ins for Tax {
    open spec fn ins(&self) -> M6502Ins {
        M6502Ins::Tax(self.attr)
    }

    fn execute(&self, cpu: &mut Mos6502) {
        do_tax(cpu, &self.attr)
    }
}

impl Mos6502Ins for Tay {
    open spec fn ins(&self) -> M6502Ins {
        M6502Ins::Tay(self.attr)
    }

    fn execute(&self, cpu: &mut Mos6502) {
        do_tay(cpu, &self.attr)
    }
}

impl Mos6502Ins for Tsx {
    open spec fn ins(&self) -> M6502Ins {
        M6502Ins::Tsx(self.attr)
    }

    fn execute(&self, cpu: &mut Mos6502) {
        do_tsx(cpu, &self.attr)
    }
}

impl Mos6502Ins for Txa {
    open spec fn ins(&self) -> M6502Ins {
        M6502Ins::Txa(self.attr)
    }

    fn execute(&self, cpu: &mut Mos6502) {
        do_txa(cpu, &self.attr)
    }
}

impl Mos6502Ins for Txs {
    open spec fn ins(&self) -> M6502Ins {
        M6502Ins::Txs(self.attr)
    }

    fn execute(&self, cpu: &mut Mos6502) {
        do_txs(cpu, &self.attr)
    }
}

impl Mos6502Ins for Tya {
    open spec fn ins(&self) -> M6502Ins {
        M6502Ins::Tya(self.attr)
    }

    fn execute(&self, cpu: &mut Mos6502) {
        do_tya(cpu, &self.attr)
    }
}

} // verus!
