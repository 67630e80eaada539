//! LSR - logical shift right: every bit moves one place down, the carry
//! takes the bit shifted off the bottom, and bit seven becomes zero.

use vstd::prelude::*;

use crate::address_mode::{resolve_address, spec_address_of, AddrMode};
use crate::constant::CARRY_ON_MASK;
use crate::cpu::{CpuState, Mos6502};
use crate::insset::utils::{
    flag_set, spec_advance_pc, spec_update_zn, update_carry_flag, update_zn,
};
use crate::insset::{InsAttr, M6502Ins, Mos6502Ins};

verus! {

/// A byte shifted right once: halved.
pub open spec fn spec_shr_value(v: u8) -> u8 {
    v / 2
}

/// The status byte after a right shift of `v`: carry takes the old bit 0,
/// zero and negative follow the shifted result.
pub open spec fn spec_shr_flags(sr: u8, v: u8) -> u8 {
    spec_update_zn(flag_set(sr, CARRY_ON_MASK, v % 2 == 1), spec_shr_value(v))
}

/// LSR on the accumulator.
#[verifier::opaque]
pub open spec fn spec_lsr_acc(pre: CpuState, len: u8) -> CpuState {
    spec_advance_pc(
        CpuState { ac: spec_shr_value(pre.ac), sr: spec_shr_flags(pre.sr, pre.ac), ..pre },
        len,
    )
}

/// LSR on a memory byte: the byte at the mode's effective address is
/// shifted in place.
#[verifier::opaque]
pub open spec fn spec_do_lsr(pre: CpuState, mode: AddrMode, len: u8) -> CpuState {
    let addr = spec_address_of(pre, mode);
    let v = pre.mem[addr as int];
    spec_advance_pc(
        CpuState {
            mem: pre.mem.update(addr as int, spec_shr_value(v)),
            sr: spec_shr_flags(pre.sr, v),
            ..pre
        },
        len,
    )
}

/// Shift the accumulator right and advance past the instruction.
pub fn do_lsr_acc(cpu: &mut Mos6502, attr: &InsAttr)
    ensures
        final(cpu)@ == spec_lsr_acc(old(cpu)@, attr.len),
{
    proof {
        reveal(spec_lsr_acc);
    }
    let v = cpu.ac;
    let result: u8 = v / 2;
    update_carry_flag(cpu, v % 2 == 1);
    update_zn(cpu, result);
    cpu.ac = result;
    cpu.next_instruction(attr);
}

/// Shift the byte at the mode's effective address right in place and
/// advance past the instruction.
pub fn do_lsr(cpu: &mut Mos6502, attr: &InsAttr, mode: AddrMode)
    requires
        old(cpu)@.wf(),
    ensures
        final(cpu)@ == spec_do_lsr(old(cpu)@, mode, attr.len),
{
    proof {
        reveal(spec_do_lsr);
    }
    let addr = resolve_address(cpu, mode);
    let v = cpu.read_mem(addr);
    let result: u8 = v / 2;
    cpu.write_mem(addr, result);
    update_carry_flag(cpu, v % 2 == 1);
    update_zn(cpu, result);
    cpu.next_instruction(attr);
}

/// LSR on the accumulator.
pub struct LsrAcc {
    /// Decoded attributes of this instruction.
    pub attr: InsAttr,
}

/// LSR with zero-page addressing.
pub struct LsrZP {
    /// Decoded attributes of this instruction.
    pub attr: InsAttr,
}

/// LSR with zero-page,X addressing.
pub struct LsrZPX {
    /// Decoded attributes of this instruction.
    pub attr: InsAttr,
}

/// LSR with absolute addressing.
pub struct LsrAbs {
    /// Decoded attributes of this instruction.
    pub attr: InsAttr,
}

/// LSR with absolute,X addressing.
pub struct LsrAbsX {
    /// Decoded attributes of this instruction.
    pub attr: InsAttr,
}

impl Mos6502Ins for LsrAcc {
    open spec fn ins(&self) -> M6502Ins {
        M6502Ins::LsrAcc(self.attr)
    }

    fn execute(&self, cpu: &mut Mos6502) {
        do_lsr_acc(cpu, &self.attr)
    }
}

impl Mos6502Ins for LsrZP {
    open spec fn ins(&self) -> M6502Ins {
        M6502Ins::LsrZP(self.attr)
    }

    fn execute(&self, cpu: &mut Mos6502) {
        do_lsr(cpu, &self.attr, AddrMode::ZP)
    }
}

impl Mos6502Ins for LsrZPX {
    open spec fn ins(&self) -> M6502Ins {
        M6502Ins::LsrZPX(self.attr)
    }

    fn execute(&self, cpu: &mut Mos6502) {
        do_lsr(cpu, &self.attr, AddrMode::ZPX)
    }
}

impl Mos6502Ins for LsrAbs {
    open spec fn ins(&self) -> M6502Ins {
        M6502Ins::LsrAbs(self.attr)
    }

    fn execute(&self, cpu: &mut Mos6502) {
        do_lsr(cpu, &self.attr, AddrMode::Abs)
    }
}

impl Mos6502Ins for LsrAbsX {
    open spec fn ins(&self) -> M6502Ins {
        M6502Ins::LsrAbsX(self.attr)
    }

    fn execute(&self, cpu: &mut Mos6502) {
        do_lsr(cpu, &self.attr, AddrMode::AbsX)
    }
}

} // verus!
