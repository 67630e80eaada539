//! Control flow and interrupt instructions - BRK, JMP, JSR, NOP, RTI and
//! RTS - together with the flag-setting SEC, SED and SEI and the
//! fail-fast halt on an illegal opcode.  Control-flow instructions set
//! the program counter directly and never also apply the generic length
//! advance.

use vstd::prelude::*;

use crate::address_mode::{
    absolute_immutable, add8, add16, next_nth_byte_from_pc, spec_next_nth_byte, word, wrap_add8,
    wrap_add16,
};
use crate::constant::{BREAK_ON_MASK, CARRY_ON_MASK, DECIMAL_ON_MASK, INTERRUPT_ON_MASK};
use crate::cpu::{CpuState, Mos6502};
use crate::insset::clr::do_flag_op;
use crate::insset::utils::{pop_stack, push_stack, spec_advance_pc, spec_pop_state, spec_pop_value, spec_push};
use crate::insset::{exec_ins, InsAttr, M6502Ins, Mos6502Ins};

verus! {

/// JMP absolute: the program counter takes the two-byte little-endian
/// operand.
#[verifier::opaque]
pub open spec fn spec_jmp_abs(pre: CpuState) -> CpuState {
    CpuState { pc: word(spec_next_nth_byte(pre, 1), spec_next_nth_byte(pre, 2)), ..pre }
}

/// JMP indirect, with the documented page-wrap bug: the second pointer
/// byte is read from the same page as the first, the low pointer byte
/// wrapping modulo 256 instead of carrying into the high byte.
#[verifier::opaque]
pub open spec fn spec_jmp_ind(pre: CpuState) -> CpuState {
    let lo_ptr = spec_next_nth_byte(pre, 1);
    let hi_ptr = spec_next_nth_byte(pre, 2);
    let first = word(lo_ptr, hi_ptr);
    let second = word(add8(lo_ptr, 1), hi_ptr);
    CpuState { pc: word(pre.mem[first as int], pre.mem[second as int]), ..pre }
}

/// JSR - push the return address, pointing at the instruction's last
/// byte, high byte then low byte, then jump to the absolute operand.
#[verifier::opaque]
pub open spec fn spec_jsr(pre: CpuState) -> CpuState {
    let ret = add16(pre.pc, 2);
    let target = word(spec_next_nth_byte(pre, 1), spec_next_nth_byte(pre, 2));
    let pushed = spec_push(spec_push(pre, (ret / 256) as u8), (ret % 256) as u8);
    CpuState { pc: target, ..pushed }
}

/// RTS - pop the low then the high byte of the return address and resume
/// one byte past it.
#[verifier::opaque]
pub open spec fn spec_rts(pre: CpuState) -> CpuState {
    let lo = spec_pop_value(pre);
    let st1 = spec_pop_state(pre);
    let hi = spec_pop_value(st1);
    let st2 = spec_pop_state(st1);
    CpuState { pc: add16(word(lo, hi), 1), ..st2 }
}

/// BRK - force an interrupt: push the address two bytes past the opcode,
/// high byte then low byte, push the status with the break flag set, set
/// the break and interrupt-disable flags, and jump through the interrupt
/// vector at `0xFFFE`/`0xFFFF`.
#[verifier::opaque]
pub open spec fn spec_brk(pre: CpuState) -> CpuState {
    let ret = add16(pre.pc, 2);
    let st1 = spec_push(spec_push(pre, (ret / 256) as u8), (ret % 256) as u8);
    let st2 = spec_push(st1, pre.sr | BREAK_ON_MASK);
    CpuState {
        pc: word(st2.mem[0xFFFE], st2.mem[0xFFFF]),
        sr: (pre.sr | BREAK_ON_MASK) | INTERRUPT_ON_MASK,
        ..st2
    }
}

/// RTI - pop the processor status, then the low and high bytes of the
/// program counter; unlike RTS nothing is added to the popped address.
#[verifier::opaque]
pub open spec fn spec_rti(pre: CpuState) -> CpuState {
    let sr = spec_pop_value(pre);
    let st1 = spec_pop_state(pre);
    let lo = spec_pop_value(st1);
    let st2 = spec_pop_state(st1);
    let hi = spec_pop_value(st2);
    let st3 = spec_pop_state(st2);
    CpuState { pc: word(lo, hi), sr: sr, ..st3 }
}

/// The halted state an illegal opcode leaves behind: only the lifecycle
/// flag changes, so registers, flags and memory stay inspectable and the
/// program counter still names the offending address.
pub open spec fn spec_halt(pre: CpuState) -> CpuState {
    CpuState { power_on: false, ..pre }
}

/// A subroutine call followed at once by its return resumes at the
/// instruction after the call: JSR pushes the address of its own last
/// byte, RTS pops it and adds one, so the program counter lands three
/// bytes past the JSR opcode and the stack index returns to its old
/// value.
pub proof fn lemma_jsr_rts_round_trip(pre: CpuState, jsr_attr: InsAttr, rts_attr: InsAttr)
    requires
        pre.wf(),
    ensures
        exec_ins(exec_ins(pre, M6502Ins::Jsr(jsr_attr)), M6502Ins::Rts(rts_attr)).pc == add16(
            pre.pc,
            3,
        ),
        exec_ins(exec_ins(pre, M6502Ins::Jsr(jsr_attr)), M6502Ins::Rts(rts_attr)).sp == pre.sp,
{
    reveal(spec_jsr);
    reveal(spec_rts);
    let ret = add16(pre.pc, 2);
    let hi = (ret / 256) as u8;
    let lo = (ret % 256) as u8;
    let i1 = 0x100 + pre.sp as int;
    let sp1 = add8(pre.sp, 255);
    let i2 = 0x100 + sp1 as int;
    let st1 = spec_jsr(pre);
    assert(sp1 != pre.sp);
    assert(st1.sp == add8(sp1, 255));
    assert(st1.mem == pre.mem.update(i1, hi).update(i2, lo));
    assert(add8(st1.sp, 1) == sp1);
    assert(spec_pop_value(st1) == lo);
    let st2 = spec_pop_state(st1);
    assert(add8(st2.sp, 1) == pre.sp);
    assert(spec_pop_value(st2) == hi);
    assert(word(lo, hi) == ret);
    assert(add16(ret, 1) == add16(pre.pc, 3));
}

/// Jump to the absolute operand address.
pub fn do_jmp_abs(cpu: &mut Mos6502)
    requires
        old(cpu)@.wf(),
    ensures
        final(cpu)@ == spec_jmp_abs(old(cpu)@),
{
    proof {
        reveal(spec_jmp_abs);
    }
    let target = absolute_immutable(cpu);
    cpu.pc = target;
}

/// Jump through the two-byte pointer after the opcode, reproducing the
/// page-wrap bug when the pointer's low byte is `0xFF`.
pub fn do_jmp_ind(cpu: &mut Mos6502)
    requires
        old(cpu)@.wf(),
    ensures
        final(cpu)@ == spec_jmp_ind(old(cpu)@),
{
    proof {
        reveal(spec_jmp_ind);
    }
    let lo_ptr = next_nth_byte_from_pc(cpu, 1);
    let hi_ptr = next_nth_byte_from_pc(cpu, 2);
    let first: u16 = lo_ptr as u16 + 256 * (hi_ptr as u16);
    let second: u16 = wrap_add8(lo_ptr, 1) as u16 + 256 * (hi_ptr as u16);
    let lo = cpu.read_mem(first);
    let hi = cpu.read_mem(second);
    cpu.pc = lo as u16 + 256 * (hi as u16);
}

/// Push the return address, high byte then low byte, and jump to the
/// absolute operand.
pub fn do_jsr(cpu: &mut Mos6502)
    requires
        old(cpu)@.wf(),
    ensures
        final(cpu)@ == spec_jsr(old(cpu)@),
{
    proof {
        reveal(spec_jsr);
    }
    let target = absolute_immutable(cpu);
    let ret = wrap_add16(cpu.pc, 2);
    push_stack(cpu, (ret / 256) as u8);
    push_stack(cpu, (ret % 256) as u8);
    cpu.pc = target;
}

/// Pop the return address, low byte then high byte, and resume one byte
/// past it.
pub fn do_rts(cpu: &mut Mos6502)
    requires
        old(cpu)@.wf(),
    ensures
        final(cpu)@ == spec_rts(old(cpu)@),
{
    proof {
        reveal(spec_rts);
    }
    let lo = pop_stack(cpu);
    let hi = pop_stack(cpu);
    cpu.pc = wrap_add16(lo as u16 + 256 * (hi as u16), 1);
}

/// Force an interrupt: push the return address and the status with the
/// break flag set, set break and interrupt-disable, and jump through the
/// vector at `0xFFFE`/`0xFFFF`.
pub fn do_brk(cpu: &mut Mos6502)
    requires
        old(cpu)@.wf(),
    ensures
        final(cpu)@ == spec_brk(old(cpu)@),
{
    proof {
        reveal(spec_brk);
    }
    let ret = wrap_add16(cpu.pc, 2);
    push_stack(cpu, (ret / 256) as u8);
    push_stack(cpu, (ret % 256) as u8);
    let sr_with_break = cpu.sr | BREAK_ON_MASK;
    push_stack(cpu, sr_with_break);
    cpu.sr = sr_with_break | INTERRUPT_ON_MASK;
    let lo = cpu.read_mem(0xFFFE);
    let hi = cpu.read_mem(0xFFFF);
    cpu.pc = lo as u16 + 256 * (hi as u16);
}

/// Pop the processor status, then the program counter, low byte first.
pub fn do_rti(cpu: &mut Mos6502)
    requires
        old(cpu)@.wf(),
    ensures
        final(cpu)@ == spec_rti(old(cpu)@),
{
    proof {
        reveal(spec_rti);
    }
    let sr = pop_stack(cpu);
    let lo = pop_stack(cpu);
    let hi = pop_stack(cpu);
    cpu.sr = sr;
    cpu.pc = lo as u16 + 256 * (hi as u16);
}

/// BRK - force interrupt.
pub struct Brk {
    /// Decoded attributes of this instruction.
    pub attr: InsAttr,
}

/// JMP with absolute addressing.
pub struct JmpAbs {
    /// Decoded attributes of this instruction.
    pub attr: InsAttr,
}

/// JMP with indirect addressing.
pub struct JmpInd {
    /// Decoded attributes of this instruction.
    pub attr: InsAttr,
}

/// JSR - jump to subroutine.
pub struct Jsr {
    /// Decoded attributes of this instruction.
    pub attr: InsAttr,
}

/// NOP - no operation.
pub struct Nop {
    /// Decoded attributes of this instruction.
    pub attr: InsAttr,
}

/// RTI - return from interrupt.
pub struct Rti {
    /// Decoded attributes of this instruction.
    pub attr: InsAttr,
}

/// RTS - return from subroutine.
pub struct Rts {
    /// Decoded attributes of this instruction.
    pub attr: InsAttr,
}

/// SEC - set the carry flag.
pub struct Sec {
    /// Decoded attributes of this instruction.
    pub attr: InsAttr,
}

/// SED - set the decimal flag.
pub struct Sed {
    /// Decoded attributes of this instruction.
    pub attr: InsAttr,
}

/// SEI - set the interrupt-disable flag.
pub struct Sei {
    /// Decoded attributes of this instruction.
    pub attr: InsAttr,
}

/// An illegal opcode: executing it halts the processor, leaving every
/// register, flag and memory byte in place for inspection.
pub struct Ilg {
    /// The attributes the offending byte was wrapped with.
    pub attr: InsAttr,
}

impl Ilg {
    /// Halt the processor: the fail-fast answer to an undocumented
    /// opcode, instead of emulating its side effects.
    pub fn execute(&self, cpu: &mut Mos6502)
        ensures
            final(cpu)@ == spec_halt(old(cpu)@),
    {
        cpu.power_on = false;
    }
}

impl Mos6502Ins for Brk {
    open spec fn ins(&self) -> M6502Ins {
        M6502Ins::Brk(self.attr)
    }

    fn execute(&self, cpu: &mut Mos6502) {
        do_brk(cpu)
    }
}

impl Mos6502Ins for JmpAbs {
    open spec fn ins(&self) -> M6502Ins {
        M6502Ins::JmpAbs(self.attr)
    }

    fn execute(&self, cpu: &mut Mos6502) {
        do_jmp_abs(cpu)
    }
}

impl Mos6502Ins for JmpInd {
    open spec fn ins(&self) -> M6502Ins {
        M6502Ins::JmpInd(self.attr)
    }

    fn execute(&self, cpu: &mut Mos6502) {
        do_jmp_ind(cpu)
    }
}

impl Mos6502Ins for Jsr {
    open spec fn ins(&self) -> M6502Ins {
        M6502Ins::Jsr(self.attr)
    }

    fn execute(&self, cpu: &mut Mos6502) {
        do_jsr(cpu)
    }
}

impl Mos6502Ins for Nop {
    open spec fn ins(&self) -> M6502Ins {
        M6502Ins::Nop(self.attr)
    }

    fn execute(&self, cpu: &mut Mos6502) {
        cpu.next_instruction(&self.attr)
    }
}

impl Mos6502Ins for Rti {
    open spec fn ins(&self) -> M6502Ins {
        M6502Ins::Rti(self.attr)
    }

    fn execute(&self, cpu: &mut Mos6502) {
        do_rti(cpu)
    }
}

impl Mos6502Ins for Rts {
    open spec fn ins(&self) -> M6502Ins {
        M6502Ins::Rts(self.attr)
    }

    fn execute(&self, cpu: &mut Mos6502) {
        do_rts(cpu)
    }
}

impl Mos6502Ins for Sec {
    open spec fn ins(&self) -> M6502Ins {
        M6502Ins::Sec(self.attr)
    }

    fn execute(&self, cpu: &mut Mos6502) {
        do_flag_op(cpu, &self.attr, CARRY_ON_MASK, true)
    }
}

impl Mos6502Ins for Sed {
    open spec fn ins(&self) -> M6502Ins {
        M6502Ins::Sed(self.attr)
    }

    fn execute(&self, cpu: &mut Mos6502) {
        do_flag_op(cpu, &self.attr, DECIMAL_ON_MASK, true)
    }
}

impl Mos6502Ins for Sei {
    open spec fn ins(&self) -> M6502Ins {
        M6502Ins::Sei(self.attr)
    }

    fn execute(&self, cpu: &mut Mos6502) {
        do_flag_op(cpu, &self.attr, INTERRUPT_ON_MASK, true)
    }
}

} // verus!
