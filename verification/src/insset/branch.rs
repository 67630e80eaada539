//! The branch family - each mnemonic tests exactly one status flag.  A
//! taken branch sets the program counter to the relative target directly;
//! an untaken branch advances it by the instruction length.  No branch
//! ever writes a flag.

use vstd::prelude::*;

use crate::address_mode::{relative, spec_relative};
use crate::constant::{CARRY_ON_MASK, NEGATIVE_ON_MASK, OVERFLOW_ON_MASK, ZERO_ON_MASK};
use crate::cpu::{CpuState, Mos6502};
use crate::insset::utils::{flag_is, spec_advance_pc};
use crate::insset::{InsAttr, M6502Ins, Mos6502Ins};

verus! {

/// The state after a conditional branch: on success the program counter
/// becomes the relative target, otherwise it advances past the
/// instruction.  Flags are read, never written.
pub open spec fn spec_branch(pre: CpuState, taken: bool, len: u8) -> CpuState {
    if taken {
        CpuState { pc: spec_relative(pre), ..pre }
    } else {
        spec_advance_pc(pre, len)
    }
}

/// BCC - branch if the carry flag is clear.
#[verifier::opaque]
pub open spec fn spec_do_bcc(pre: CpuState, len: u8) -> CpuState {
    spec_branch(pre, !flag_is(pre.sr, CARRY_ON_MASK), len)
}

/// BCS - branch if the carry flag is set.
#[verifier::opaque]
pub open spec fn spec_do_bcs(pre: CpuState, len: u8) -> CpuState {
    spec_branch(pre, flag_is(pre.sr, CARRY_ON_MASK), len)
}

/// BEQ - branch if the zero flag is set.
#[verifier::opaque]
pub open spec fn spec_do_beq(pre: CpuState, len: u8) -> CpuState {
    spec_branch(pre, flag_is(pre.sr, ZERO_ON_MASK), len)
}

/// BNE - branch if the zero flag is clear.
#[verifier::opaque]
pub open spec fn spec_do_bne(pre: CpuState, len: u8) -> CpuState {
    spec_branch(pre, !flag_is(pre.sr, ZERO_ON_MASK), len)
}

/// BMI - branch if the negative flag is set.
#[verifier::opaque]
pub open spec fn spec_do_bmi(pre: CpuState, len: u8) -> CpuState {
    spec_branch(pre, flag_is(pre.sr, NEGATIVE_ON_MASK), len)
}

/// BPL - branch if the negative flag is clear.
#[verifier::opaque]
pub open spec fn spec_do_bpl(pre: CpuState, len: u8) -> CpuState {
    spec_branch(pre, !flag_is(pre.sr, NEGATIVE_ON_MASK), len)
}

/// BVC - branch if the overflow flag is clear.
#[verifier::opaque]
pub open spec fn spec_do_bvc(pre: CpuState, len: u8) -> CpuState {
    spec_branch(pre, !flag_is(pre.sr, OVERFLOW_ON_MASK), len)
}

/// BVS - branch if the overflow flag is set.
#[verifier::opaque]
pub open spec fn spec_do_bvs(pre: CpuState, len: u8) -> CpuState {
    spec_branch(pre, flag_is(pre.sr, OVERFLOW_ON_MASK), len)
}

/// Take a branch: the program counter becomes the relative target, with
/// no generic length advance on top.
pub fn move_to_offset(cpu: &mut Mos6502)
    requires
        old(cpu)@.wf(),
    ensures
        final(cpu)@ == (CpuState { pc: spec_relative(old(cpu)@), ..old(cpu)@ }),
{
    let target = relative(cpu);
    cpu.pc = target;
}

/// Branch or advance, depending on a condition already read from the
/// flags.
fn do_branch(cpu: &mut Mos6502, attr: &InsAttr, taken: bool)
    requires
        old(cpu)@.wf(),
    ensures
        final(cpu)@ == spec_branch(old(cpu)@, taken, attr.len),
{
    if taken {
        move_to_offset(cpu);
    } else {
        cpu.next_instruction(attr);
    }
}

/// BCC - branch if the carry flag is clear.
pub fn do_bcc(cpu: &mut Mos6502, attr: &InsAttr)
    requires
        old(cpu)@.wf(),
    ensures
        final(cpu)@ == spec_do_bcc(old(cpu)@, attr.len),
{
    proof {
        reveal(spec_do_bcc);
    }
    let taken = cpu.sr & CARRY_ON_MASK == 0;
    do_branch(cpu, attr, taken);
}

/// BCS - branch if the carry flag is set.
pub fn do_bcs(cpu: &mut Mos6502, attr: &InsAttr)
    requires
        old(cpu)@.wf(),
    ensures
        final(cpu)@ == spec_do_bcs(old(cpu)@, attr.len),
{
    proof {
        reveal(spec_do_bcs);
    }
    let taken = cpu.sr & CARRY_ON_MASK != 0;
    do_branch(cpu, attr, taken);
}

/// BEQ - branch if the zero flag is set.
pub fn do_beq(cpu: &mut Mos6502, attr: &InsAttr)
    requires
        old(cpu)@.wf(),
    ensures
        final(cpu)@ == spec_do_beq(old(cpu)@, attr.len),
{
    proof {
        reveal(spec_do_beq);
    }
    let taken = cpu.sr & ZERO_ON_MASK != 0;
    do_branch(cpu, attr, taken);
}

/// BNE - branch if the zero flag is clear.
pub fn do_bne(cpu: &mut Mos6502, attr: &InsAttr)
    requires
        old(cpu)@.wf(),
    ensures
        final(cpu)@ == spec_do_bne(old(cpu)@, attr.len),
{
    proof {
        reveal(spec_do_bne);
    }
    let taken = cpu.sr & ZERO_ON_MASK == 0;
    do_branch(cpu, attr, taken);
}

/// BMI - branch if the negative flag is set.
pub fn do_bmi(cpu: &mut Mos6502, attr: &InsAttr)
    requires
        old(cpu)@.wf(),
    ensures
        final(cpu)@ == spec_do_bmi(old(cpu)@, attr.len),
{
    proof {
        reveal(spec_do_bmi);
    }
    let taken = cpu.sr & NEGATIVE_ON_MASK != 0;
    do_branch(cpu, attr, taken);
}

/// BPL - branch if the negative flag is clear.
pub fn do_bpl(cpu: &mut Mos6502, attr: &InsAttr)
    requires
        old(cpu)@.wf(),
    ensures
        final(cpu)@ == spec_do_bpl(old(cpu)@, attr.len),
{
    proof {
        reveal(spec_do_bpl);
    }
    let taken = cpu.sr & NEGATIVE_ON_MASK == 0;
    do_branch(cpu, attr, taken);
}

/// BVC - branch if the overflow flag is clear.
pub fn do_bvc(cpu: &mut Mos6502, attr: &InsAttr)
    requires
        old(cpu)@.wf(),
    ensures
        final(cpu)@ == spec_do_bvc(old(cpu)@, attr.len),
{
    proof {
        reveal(spec_do_bvc);
    }
    let taken = cpu.sr & OVERFLOW_ON_MASK == 0;
    do_branch(cpu, attr, taken);
}

/// BVS - branch if the overflow flag is set.
pub fn do_bvs(cpu: &mut Mos6502, attr: &InsAttr)
    requires
        old(cpu)@.wf(),
    ensures
        final(cpu)@ == spec_do_bvs(old(cpu)@, attr.len),
{
    proof {
        reveal(spec_do_bvs);
    }
    let taken = cpu.sr & OVERFLOW_ON_MASK != 0;
    do_branch(cpu, attr, taken);
}

/// BCC - branch if carry clear.
pub struct Bcc {
    /// Decoded attributes of this instruction.
    pub attr: InsAttr,
}

/// BCS - branch if carry set.
pub struct Bcs {
    /// Decoded attributes of this instruction.
    pub attr: InsAttr,
}

/// BEQ - branch if equal.
pub struct Beq {
    /// Decoded attributes of this instruction.
    pub attr: InsAttr,
}

/// BMI - branch if minus.
pub struct Bmi {
    /// Decoded attributes of this instruction.
    pub attr: InsAttr,
}

/// BNE - branch if not equal.
pub struct Bne {
    /// Decoded attributes of this instruction.
    pub attr: InsAttr,
}

/// BPL - branch if positive.
pub struct Bpl {
    /// Decoded attributes of this instruction.
    pub attr: InsAttr,
}

/// BVC - branch if overflow clear.
pub struct Bvc {
    /// Decoded attributes of this instruction.
    pub attr: InsAttr,
}

/// BVS - branch if overflow set.
pub struct Bvs {
    /// Decoded attributes of this instruction.
    pub attr: InsAttr,
}

impl Mos6502Ins for Bcc {
    open spec fn ins(&self) -> M6502Ins {
        M6502Ins::Bcc(self.attr)
    }

    fn execute(&self, cpu: &mut Mos6502) {
        do_bcc(cpu, &self.attr)
    }
}

impl Mos6502Ins for Bcs {
    open spec fn ins(&self) -> M6502Ins {
        M6502Ins::Bcs(self.attr)
    }

    fn execute(&self, cpu: &mut Mos6502) {
        do_bcs(cpu, &self.attr)
    }
}

impl Mos6502Ins for Beq {
    open spec fn ins(&self) -> M6502Ins {
        M6502Ins::Beq(self.attr)
    }

    fn execute(&self, cpu: &mut Mos6502) {
        do_beq(cpu, &self.attr)
    }
}

impl Mos6502Ins for Bmi {
    open spec fn ins(&self) -> M6502Ins {
        M6502Ins::Bmi(self.attr)
    }

    fn execute(&self, cpu: &mut Mos6502) {
        do_bmi(cpu, &self.attr)
    }
}

impl Mos6502Ins for Bne {
    open spec fn ins(&self) -> M6502Ins {
        M6502Ins::Bne(self.attr)
    }

    fn execute(&self, cpu: &mut Mos6502) {
        do_bne(cpu, &self.attr)
    }
}

impl Mos6502Ins for Bpl {
    open spec fn ins(&self) -> M6502Ins {
        M6502Ins::Bpl(self.attr)
    }

    fn execute(&self, cpu: &mut Mos6502) {
        do_bpl(cpu, &self.attr)
    }
}

impl Mos6502Ins for Bvc {
    open spec fn ins(&self) -> M6502Ins {
        M6502Ins::Bvc(self.attr)
    }

    fn execute(&self, cpu: &mut Mos6502) {
        do_bvc(cpu, &self.attr)
    }
}

impl Mos6502Ins for Bvs {
    open spec fn ins(&self) -> M6502Ins {
        M6502Ins::Bvs(self.attr)
    }

    fn execute(&self, cpu: &mut Mos6502) {
        do_bvs(cpu, &self.attr)
    }
}

} // verus!
