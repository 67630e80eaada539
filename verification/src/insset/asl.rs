//! ASL - arithmetic shift left: every bit moves one place up, the carry
//! takes the bit shifted off the top, and bit zero becomes zero.

use vstd::prelude::*;

use crate::address_mode::{resolve_address, spec_address_of, AddrMode};
use crate::constant::CARRY_ON_MASK;
use crate::cpu::{CpuState, Mos6502};
use crate::insset::utils::{
    flag_set, spec_advance_pc, spec_update_zn, update_carry_flag, update_zn,
};
use crate::insset::{InsAttr, M6502Ins, Mos6502Ins};

verus! {

/// A byte shifted left once: doubled modulo 256.
pub open spec fn spec_shl_value(v: u8) -> u8 {
    ((v * 2) % 256) as u8
}

/// The status byte after a left shift of `v`: carry takes the old bit 7,
/// zero and negative follow the shifted result.
pub open spec fn spec_shl_flags(sr: u8, v: u8) -> u8 {
    spec_update_zn(flag_set(sr, CARRY_ON_MASK, v >= 0x80), spec_shl_value(v))
}

/// ASL on the accumulator.
#[verifier::opaque]
pub open spec fn spec_asl_acc(pre: CpuState, len: u8) -> CpuState {
    spec_advance_pc(
        CpuState { ac: spec_shl_value(pre.ac), sr: spec_shl_flags(pre.sr, pre.ac), ..pre },
        len,
    )
}

/// ASL on a memory byte: the byte at the mode's effective address is
/// shifted in place.
#[verifier::opaque]
pub open spec fn spec_do_asl(pre: CpuState, mode: AddrMode, len: u8) -> CpuState {
    let addr = spec_address_of(pre, mode);
    let v = pre.mem[addr as int];
    spec_advance_pc(
        CpuState {
            mem: pre.mem.update(addr as int, spec_shl_value(v)),
            sr: spec_shl_flags(pre.sr, v),
            ..pre
        },
        len,
    )
}

/// Shift the accumulator left and advance past the instruction.
pub fn do_asl_acc(cpu: &mut Mos6502, attr: &InsAttr)
    ensures
        final(cpu)@ == spec_asl_acc(old(cpu)@, attr.len),
{
    proof {
        reveal(spec_asl_acc);
    }
    let v = cpu.ac;
    let result: u8 = (((v as u16) * 2) % 256) as u8;
    update_carry_flag(cpu, v >= 0x80);
    update_zn(cpu, result);
    cpu.ac = result;
    cpu.next_instruction(attr);
}

/// Shift the byte at the mode's effective address left in place and
/// advance past the instruction.
pub fn do_asl(cpu: &mut Mos6502, attr: &InsAttr, mode: AddrMode)
    requires
        old(cpu)@.wf(),
    ensures
        final(cpu)@ == spec_do_asl(old(cpu)@, mode, attr.len),
{
    proof {
        reveal(spec_do_asl);
    }
    let addr = resolve_address(cpu, mode);
    let v = cpu.read_mem(addr);
    let result: u8 = (((v as u16) * 2) % 256) as u8;
    cpu.write_mem(addr, result);
    update_carry_flag(cpu, v >= 0x80);
    update_zn(cpu, result);
    cpu.next_instruction(attr);
}

/// ASL on the accumulator.
pub struct AslAcc {
    /// Decoded attributes of this instruction.
    pub attr: InsAttr,
}

/// ASL with zero-page addressing.
pub struct AslZP {
    /// Decoded attributes of this instruction.
    pub attr: InsAttr,
}

/// ASL with zero-page,X addressing.
pub struct AslZPX {
    /// Decoded attributes of this instruction.
    pub attr: InsAttr,
}

/// ASL with absolute addressing.
pub struct AslAbs {
    /// Decoded attributes of this instruction.
    pub attr: InsAttr,
}

/// ASL with absolute,X addressing.
pub struct AslAbsX {
    /// Decoded attributes of this instruction.
    pub attr: InsAttr,
}

impl Mos6502Ins for AslAcc {
    open spec fn ins(&self) -> M6502Ins {
        M6502Ins::AslAcc(self.attr)
    }

    fn execute(&self, cpu: &mut Mos6502) {
        do_asl_acc(cpu, &self.attr)
    }
}

impl Mos6502Ins for AslZP {
    open spec fn ins(&self) -> M6502Ins {
        M6502Ins::AslZP(self.attr)
    }

    fn execute(&self, cpu: &mut Mos6502) {
        do_asl(cpu, &self.attr, AddrMode::ZP)
    }
}

impl Mos6502Ins for AslZPX {
    open spec fn ins(&self) -> M6502Ins {
        M6502Ins::AslZPX(self.attr)
    }

    fn execute(&self, cpu: &mut Mos6502) {
        do_asl(cpu, &self.attr, AddrMode::ZPX)
    }
}

impl Mos6502Ins for AslAbs {
    open spec fn ins(&self) -> M6502Ins {
        M6502Ins::AslAbs(self.attr)
    }

    fn execute(&self, cpu: &mut Mos6502) {
        do_asl(cpu, &self.attr, AddrMode::Abs)
    }
}

impl Mos6502Ins for AslAbsX {
    open spec fn ins(&self) -> M6502Ins {
        M6502Ins::AslAbsX(self.attr)
    }

    fn execute(&self, cpu: &mut Mos6502) {
        do_asl(cpu, &self.attr, AddrMode::AbsX)
    }
}

} // verus!
