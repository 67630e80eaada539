//! Shared helpers of the instruction set: single-bit status-flag updates,
//! program-counter advancement and the page-one stack discipline.

use vstd::prelude::*;

use crate::address_mode::{add8, add16, wrap_add8};
use crate::constant::{
    BREAK_ON_MASK, CARRY_ON_MASK, DECIMAL_ON_MASK, INTERRUPT_ON_MASK, NEGATIVE_ON_MASK,
    OVERFLOW_ON_MASK, ZERO_ON_MASK,
};
use crate::cpu::{CpuState, Mos6502};

verus! {

/// The status byte with exactly the bits of `mask` forced to `on`; every
/// other bit keeps its value.
pub open spec fn flag_set(sr: u8, mask: u8, on: bool) -> u8 {
    if on {
        sr | mask
    } else {
        sr & !mask
    }
}

/// Whether any bit of `mask` is set in the status byte.
pub open spec fn flag_is(sr: u8, mask: u8) -> bool {
    sr & mask != 0
}

/// The status byte after the zero and negative flags are updated from a
/// result byte: zero iff the result is zero, negative iff its high bit is
/// set.
pub open spec fn spec_update_zn(sr: u8, result: u8) -> u8 {
    flag_set(flag_set(sr, ZERO_ON_MASK, result == 0), NEGATIVE_ON_MASK, result >= 0x80)
}

/// The state with the program counter advanced by an instruction length,
/// wrapping modulo 65,536.
pub open spec fn spec_advance_pc(pre: CpuState, len: u8) -> CpuState {
    CpuState { pc: add16(pre.pc, len as u16), ..pre }
}

/// The state after a byte is pushed: the byte is written at `0x0100 | sp`,
/// then the stack index decrements, wrapping inside page one.
pub open spec fn spec_push(pre: CpuState, v: u8) -> CpuState {
    CpuState {
        mem: pre.mem.update(0x100 + pre.sp as int, v),
        sp: add8(pre.sp, 255),
        ..pre
    }
}

/// The byte a pop returns: the stack index increments, wrapping, and the
/// byte at `0x0100 | sp` is read.
pub open spec fn spec_pop_value(pre: CpuState) -> u8 {
    pre.mem[0x100 + add8(pre.sp, 1) as int]
}

/// The state after a pop: only the stack index moves.
pub open spec fn spec_pop_state(pre: CpuState) -> CpuState {
    CpuState { sp: add8(pre.sp, 1), ..pre }
}

/// Force the zero flag on or off, leaving every other bit untouched.
pub fn update_zero_flag(cpu: &mut Mos6502, is_updated: bool)
    ensures
        final(cpu)@ == (CpuState { sr: flag_set(old(cpu)@.sr, ZERO_ON_MASK, is_updated), ..old(cpu)@ }),
{
    update_flag(cpu, ZERO_ON_MASK, is_updated);
}

/// Force the overflow flag on or off, leaving every other bit untouched.
pub fn update_overflow_flag(cpu: &mut Mos6502, is_updated: bool)
    ensures
        final(cpu)@ == (CpuState { sr: flag_set(old(cpu)@.sr, OVERFLOW_ON_MASK, is_updated), ..old(cpu)@ }),
{
    update_flag(cpu, OVERFLOW_ON_MASK, is_updated);
}

/// Force the carry flag on or off, leaving every other bit untouched.
pub fn update_carry_flag(cpu: &mut Mos6502, is_updated: bool)
    ensures
        final(cpu)@ == (CpuState { sr: flag_set(old(cpu)@.sr, CARRY_ON_MASK, is_updated), ..old(cpu)@ }),
{
    update_flag(cpu, CARRY_ON_MASK, is_updated);
}

/// Force the negative flag on or off, leaving every other bit untouched.
pub fn update_negative_flag(cpu: &mut Mos6502, is_updated: bool)
    ensures
        final(cpu)@ == (CpuState { sr: flag_set(old(cpu)@.sr, NEGATIVE_ON_MASK, is_updated), ..old(cpu)@ }),
{
    update_flag(cpu, NEGATIVE_ON_MASK, is_updated);
}

/// Force the break flag on or off, leaving every other bit untouched.
pub fn update_break_flag(cpu: &mut Mos6502, is_updated: bool)
    ensures
        final(cpu)@ == (CpuState { sr: flag_set(old(cpu)@.sr, BREAK_ON_MASK, is_updated), ..old(cpu)@ }),
{
    update_flag(cpu, BREAK_ON_MASK, is_updated);
}

/// Force the decimal-mode flag on or off, leaving every other bit
/// untouched.
pub fn update_decimal_flag(cpu: &mut Mos6502, is_updated: bool)
    ensures
        final(cpu)@ == (CpuState { sr: flag_set(old(cpu)@.sr, DECIMAL_ON_MASK, is_updated), ..old(cpu)@ }),
{
    update_flag(cpu, DECIMAL_ON_MASK, is_updated);
}

/// Force the interrupt-disable flag on or off, leaving every other bit
/// untouched.
pub fn update_interrupt_flag(cpu: &mut Mos6502, is_updated: bool)
    ensures
        final(cpu)@ == (CpuState { sr: flag_set(old(cpu)@.sr, INTERRUPT_ON_MASK, is_updated), ..old(cpu)@ }),
{
    update_flag(cpu, INTERRUPT_ON_MASK, is_updated);
}

/// Force the bits of `mask` on or off, leaving every other bit untouched.
fn update_flag(cpu: &mut Mos6502, mask: u8, is_updated: bool)
    ensures
        final(cpu)@ == (CpuState { sr: flag_set(old(cpu)@.sr, mask, is_updated), ..old(cpu)@ }),
{
    if is_updated {
        cpu.sr = cpu.sr | mask;
    } else {
        cpu.sr = cpu.sr & !mask;
    }
}

/// A flag update is atomic: forcing the bits of one mask never disturbs
/// a bit outside it.
pub proof fn lemma_flag_set_other_bit(sr: u8, mask: u8, on: bool, other: u8)
    requires
        mask & other == 0,
    ensures
        flag_set(sr, mask, on) & other == sr & other,
{
    if on {
        assert((sr | mask) & other == sr & other) by (bit_vector)
            requires
                mask & other == 0,
        ;
    } else {
        assert((sr & !mask) & other == sr & other) by (bit_vector)
            requires
                mask & other == 0,
        ;
    }
}

/// A flag update lands: after forcing a non-empty mask, reading that
/// mask gives exactly the value forced.
pub proof fn lemma_flag_set_same_bit(sr: u8, mask: u8, on: bool)
    requires
        mask != 0,
    ensures
        flag_is(flag_set(sr, mask, on), mask) == on,
{
    if on {
        assert((sr | mask) & mask != 0) by (bit_vector)
            requires
                mask != 0,
        ;
    } else {
        assert((sr & !mask) & mask == 0) by (bit_vector);
    }
}

/// Push then pop is the identity the stack discipline owes: the popped
/// byte is the pushed one, and the stack index returns to its old value.
pub proof fn lemma_push_pop_round_trip(pre: CpuState, v: u8)
    requires
        pre.wf(),
    ensures
        spec_pop_value(spec_push(pre, v)) == v,
        spec_pop_state(spec_push(pre, v)).sp == pre.sp,
{
    assert(add8(add8(pre.sp, 255), 1) == pre.sp);
}

/// Push a byte: write it at `0x0100 | sp`, then decrement the stack
/// index, wrapping inside page one.
pub fn push_stack(cpu: &mut Mos6502, v: u8)
    requires
        old(cpu)@.wf(),
    ensures
        final(cpu)@ == spec_push(old(cpu)@, v),
{
    let addr: u16 = 0x100 + cpu.sp as u16;
    cpu.write_mem(addr, v);
    cpu.sp = wrap_add8(cpu.sp, 255);
}

/// Pop a byte: increment the stack index, wrapping, then read the byte at
/// `0x0100 | sp`.
pub fn pop_stack(cpu: &mut Mos6502) -> (r: u8)
    requires
        old(cpu)@.wf(),
    ensures
        final(cpu)@ == spec_pop_state(old(cpu)@),
        r == spec_pop_value(old(cpu)@),
{
    cpu.sp = wrap_add8(cpu.sp, 1);
    cpu.read_mem(0x100 + cpu.sp as u16)
}

/// Update the zero and negative flags from a result byte.
pub(crate) fn update_zn(cpu: &mut Mos6502, result: u8)
    ensures
        final(cpu)@ == (CpuState { sr: spec_update_zn(old(cpu)@.sr, result), ..old(cpu)@ }),
{
    update_zero_flag(cpu, result == 0);
    update_negative_flag(cpu, result >= 0x80);
}

} // verus!
