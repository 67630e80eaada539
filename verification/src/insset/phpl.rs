//! PHA, PHP, PLA and PLP - push and pull the accumulator and the
//! processor status through the page-one stack.

use vstd::prelude::*;

use crate::cpu::{CpuState, Mos6502};
use crate::insset::utils::{
    pop_stack, push_stack, spec_advance_pc, spec_pop_state, spec_pop_value, spec_push,
    spec_update_zn, update_zn,
};
use crate::insset::{InsAttr, M6502Ins, Mos6502Ins};

verus! {

/// PHA - push the accumulator.
#[verifier::opaque]
pub open spec fn spec_pha(pre: CpuState, len: u8) -> CpuState {
    spec_advance_pc(spec_push(pre, pre.ac), len)
}

/// PHP - push the processor status.
#[verifier::opaque]
pub open spec fn spec_php(pre: CpuState, len: u8) -> CpuState {
    spec_advance_pc(spec_push(pre, pre.sr), len)
}

/// PLA - pull a byte into the accumulator; zero and negative follow the
/// pulled value.
#[verifier::opaque]
pub open spec fn spec_pla(pre: CpuState, len: u8) -> CpuState {
    let v = spec_pop_value(pre);
    spec_advance_pc(
        CpuState { ac: v, sr: spec_update_zn(pre.sr, v), ..spec_pop_state(pre) },
        len,
    )
}

/// PLP - pull a byte into the processor status.
#[verifier::opaque]
pub open spec fn spec_plp(pre: CpuState, len: u8) -> CpuState {
    spec_advance_pc(CpuState { sr: spec_pop_value(pre), ..spec_pop_state(pre) }, len)
}

/// Push the accumulator and advance past the instruction.
pub fn do_pha(cpu: &mut Mos6502, attr: &InsAttr)
    requires
        old(cpu)@.wf(),
    ensures
        final(cpu)@ == spec_pha(old(cpu)@, attr.len),
{
    proof {
        reveal(spec_pha);
    }
    let v = cpu.ac;
    push_stack(cpu, v);
    cpu.next_instruction(attr);
}

/// Push the processor status and advance past the instruction.
pub fn do_php(cpu: &mut Mos6502, attr: &InsAttr)
    requires
        old(cpu)@.wf(),
    ensures
        final(cpu)@ == spec_php(old(cpu)@, attr.len),
{
    proof {
        reveal(spec_php);
    }
    let v = cpu.sr;
    push_stack(cpu, v);
    cpu.next_instruction(attr);
}

/// Pull a byte into the accumulator and advance past the instruction.
pub fn do_pla(cpu: &mut Mos6502, attr: &InsAttr)
    requires
        old(cpu)@.wf(),
    ensures
        final(cpu)@ == spec_pla(old(cpu)@, attr.len),
{
    proof {
        reveal(spec_pla);
    }
    let v = pop_stack(cpu);
    cpu.ac = v;
    update_zn(cpu, v);
    cpu.next_instruction(attr);
}

/// Pull a byte into the processor status and advance past the
/// instruction.
pub fn do_plp(cpu: &mut Mos6502, attr: &InsAttr)
    requires
        old(cpu)@.wf(),
    ensures
        final(cpu)@ == spec_plp(old(cpu)@, attr.len),
{
    proof {
        reveal(spec_plp);
    }
    let v = pop_stack(cpu);
    cpu.sr = v;
    cpu.next_instruction(attr);
}

/// PHA - push the accumulator.
pub struct Pha {
    /// Decoded attributes of this instruction.
    pub attr: InsAttr,
}

/// PHP - push the processor status.
pub struct Php {
    /// Decoded attributes of this instruction.
    pub attr: InsAttr,
}

/// PLA - pull the accumulator.
pub struct Pla {
    /// Decoded attributes of this instruction.
    pub attr: InsAttr,
}

/// PLP - pull the processor status.
pub struct Plp {
    /// Decoded attributes of this instruction.
    pub attr: InsAttr,
}

impl Mos6502Ins for Pha {
    open spec fn ins(&self) -> M6502Ins {
        M6502Ins::Pha(self.attr)
    }

    fn execute(&self, cpu: &mut Mos6502) {
        do_pha(cpu, &self.attr)
    }
}

impl Mos6502Ins for Php {
    open spec fn ins(&self) -> M6502Ins {
        M6502Ins::Php(self.attr)
    }

    fn execute(&self, cpu: &mut Mos6502) {
        do_php(cpu, &self.attr)
    }
}

impl Mos6502Ins for Pla {
    open spec fn ins(&self) -> M6502Ins {
        M6502Ins::Pla(self.attr)
    }

    fn execute(&self, cpu: &mut Mos6502) {
        do_pla(cpu, &self.attr)
    }
}

impl Mos6502Ins for Plp {
    open spec fn ins(&self) -> M6502Ins {
        M6502Ins::Plp(self.attr)
    }

    fn execute(&self, cpu: &mut Mos6502) {
        do_plp(cpu, &self.attr)
    }
}

} // verus!
