//! ROL and ROR - rotate left or right through the carry: the carry takes
//! the bit shifted off, and the prior carry fills the vacated bit.

use vstd::prelude::*;

use crate::address_mode::{resolve_address, spec_address_of, AddrMode};
use crate::constant::CARRY_ON_MASK;
use crate::cpu::{CpuState, Mos6502};
use crate::insset::utils::{
    flag_set, spec_advance_pc, spec_update_zn, update_carry_flag, update_zn,
};
use crate::insset::{InsAttr, M6502Ins, Mos6502Ins};

verus! {

/// A byte rotated left through a carry bit: doubled modulo 256 with the
/// prior carry as the new bit 0.
pub open spec fn spec_rol_value(v: u8, carry_in: u8) -> u8 {
    ((v * 2 + carry_in) % 256) as u8
}

/// A byte rotated right through a carry bit: halved with the prior carry
/// as the new bit 7.
pub open spec fn spec_ror_value(v: u8, carry_in: u8) -> u8 {
    (v / 2 + carry_in * 128) as u8
}

/// The status byte after a left rotation of `v`: carry takes the old bit
/// 7, zero and negative follow the rotated result.
pub open spec fn spec_rol_flags(sr: u8, v: u8) -> u8 {
    spec_update_zn(
        flag_set(sr, CARRY_ON_MASK, v >= 0x80),
        spec_rol_value(v, sr & CARRY_ON_MASK),
    )
}

/// The status byte after a right rotation of `v`: carry takes the old bit
/// 0, zero and negative follow the rotated result.
pub open spec fn spec_ror_flags(sr: u8, v: u8) -> u8 {
    spec_update_zn(
        flag_set(sr, CARRY_ON_MASK, v % 2 == 1),
        spec_ror_value(v, sr & CARRY_ON_MASK),
    )
}

/// ROL on the accumulator.
#[verifier::opaque]
pub open spec fn spec_rol_acc(pre: CpuState, len: u8) -> CpuState {
    spec_advance_pc(
        CpuState {
            ac: spec_rol_value(pre.ac, pre.sr & CARRY_ON_MASK),
            sr: spec_rol_flags(pre.sr, pre.ac),
            ..pre
        },
        len,
    )
}

/// ROR on the accumulator.
#[verifier::opaque]
pub open spec fn spec_ror_acc(pre: CpuState, len: u8) -> CpuState {
    spec_advance_pc(
        CpuState {
            ac: spec_ror_value(pre.ac, pre.sr & CARRY_ON_MASK),
            sr: spec_ror_flags(pre.sr, pre.ac),
            ..pre
        },
        len,
    )
}

/// ROL on a memory byte: the byte at the mode's effective address is
/// rotated in place.
#[verifier::opaque]
pub open spec fn spec_do_rol(pre: CpuState, mode: AddrMode, len: u8) -> CpuState {
    let addr = spec_address_of(pre, mode);
    let v = pre.mem[addr as int];
    spec_advance_pc(
        CpuState {
            mem: pre.mem.update(addr as int, spec_rol_value(v, pre.sr & CARRY_ON_MASK)),
            sr: spec_rol_flags(pre.sr, v),
            ..pre
        },
        len,
    )
}

/// ROR on a memory byte: the byte at the mode's effective address is
/// rotated in place.
#[verifier::opaque]
pub open spec fn spec_do_ror(pre: CpuState, mode: AddrMode, len: u8) -> CpuState {
    let addr = spec_address_of(pre, mode);
    let v = pre.mem[addr as int];
    spec_advance_pc(
        CpuState {
            mem: pre.mem.update(addr as int, spec_ror_value(v, pre.sr & CARRY_ON_MASK)),
            sr: spec_ror_flags(pre.sr, v),
            ..pre
        },
        len,
    )
}

/// Rotate the accumulator left through the carry and advance past the
/// instruction.
pub fn do_rol_acc(cpu: &mut Mos6502, attr: &InsAttr)
    ensures
        final(cpu)@ == spec_rol_acc(old(cpu)@, attr.len),
{
    proof {
        reveal(spec_rol_acc);
    }
    let carry = cpu.is_carried();
    let v = cpu.ac;
    let result: u8 = (((v as u16) * 2 + carry as u16) % 256) as u8;
    update_carry_flag(cpu, v >= 0x80);
    update_zn(cpu, result);
    cpu.ac = result;
    cpu.next_instruction(attr);
}

/// Rotate the byte at the mode's effective address left through the carry
/// in place and advance past the instruction.
pub fn do_rol(cpu: &mut Mos6502, attr: &InsAttr, mode: AddrMode)
    requires
        old(cpu)@.wf(),
    ensures
        final(cpu)@ == spec_do_rol(old(cpu)@, mode, attr.len),
{
    proof {
        reveal(spec_do_rol);
    }
    let carry = cpu.is_carried();
    let addr = resolve_address(cpu, mode);
    let v = cpu.read_mem(addr);
    let result: u8 = (((v as u16) * 2 + carry as u16) % 256) as u8;
    cpu.write_mem(addr, result);
    update_carry_flag(cpu, v >= 0x80);
    update_zn(cpu, result);
    cpu.next_instruction(attr);
}

/// Rotate the accumulator right through the carry and advance past the
/// instruction.
pub fn do_ror_acc(cpu: &mut Mos6502, attr: &InsAttr)
    ensures
        final(cpu)@ == spec_ror_acc(old(cpu)@, attr.len),
{
    proof {
        reveal(spec_ror_acc);
    }
    let carry = cpu.is_carried();
    let v = cpu.ac;
    let result: u8 = v / 2 + carry * 128;
    update_carry_flag(cpu, v % 2 == 1);
    update_zn(cpu, result);
    cpu.ac = result;
    cpu.next_instruction(attr);
}

/// Rotate the byte at the mode's effective address right through the
/// carry in place and advance past the instruction.
pub fn do_ror(cpu: &mut Mos6502, attr: &InsAttr, mode: AddrMode)
    requires
        old(cpu)@.wf(),
    ensures
        final(cpu)@ == spec_do_ror(old(cpu)@, mode, attr.len),
{
    proof {
        reveal(spec_do_ror);
    }
    let carry = cpu.is_carried();
    let addr = resolve_address(cpu, mode);
    let v = cpu.read_mem(addr);
    let result: u8 = v / 2 + carry * 128;
    cpu.write_mem(addr, result);
    update_carry_flag(cpu, v % 2 == 1);
    update_zn(cpu, result);
    cpu.next_instruction(attr);
}

/// ROL on the accumulator.
pub struct RolAcc {
    /// Decoded attributes of this instruction.
    pub attr: InsAttr,
}

/// ROL with zero-page addressing.
pub struct RolZP {
    /// Decoded attributes of this instruction.
    pub attr: InsAttr,
}

/// ROL with zero-page,X addressing.
pub struct RolZPX {
    /// Decoded attributes of this instruction.
    pub attr: InsAttr,
}

/// ROL with absolute addressing.
pub struct RolAbs {
    /// Decoded attributes of this instruction.
    pub attr: InsAttr,
}

/// ROL with absolute,X addressing.
pub struct RolAbsX {
    /// Decoded attributes of this instruction.
    pub attr: InsAttr,
}

/// ROR on the accumulator.
pub struct RorAcc {
    /// Decoded attributes of this instruction.
    pub attr: InsAttr,
}

/// ROR with zero-page addressing.
pub struct RorZP {
    /// Decoded attributes of this instruction.
    pub attr: InsAttr,
}

/// ROR with zero-page,X addressing.
pub struct RorZPX {
    /// Decoded attributes of this instruction.
    pub attr: InsAttr,
}

/// ROR with absolute addressing.
pub struct RorAbs {
    /// Decoded attributes of this instruction.
    pub attr: InsAttr,
}

/// ROR with absolute,X addressing.
pub struct RorAbsX {
    /// Decoded attributes of this instruction.
    pub attr: InsAttr,
}

impl Mos6502Ins for RolAcc {
    open spec fn ins(&self) -> M6502Ins {
        M6502Ins::RolAcc(self.attr)
    }

    fn execute(&self, cpu: &mut Mos6502) {
        do_rol_acc(cpu, &self.attr)
    }
}

impl Mos6502Ins for RolZP {
    open spec fn ins(&self) -> M6502Ins {
        M6502Ins::RolZP(self.attr)
    }

    fn execute(&self, cpu: &mut Mos6502) {
        do_rol(cpu, &self.attr, AddrMode::ZP)
    }
}

impl Mos6502Ins for RolZPX {
    open spec fn ins(&self) -> M6502Ins {
        M6502Ins::RolZPX(self.attr)
    }

    fn execute(&self, cpu: &mut Mos6502) {
        do_rol(cpu, &self.attr, AddrMode::ZPX)
    }
}

impl Mos6502Ins for RolAbs {
    open spec fn ins(&self) -> M6502Ins {
        M6502Ins::RolAbs(self.attr)
    }

    fn execute(&self, cpu: &mut Mos6502) {
        do_rol(cpu, &self.attr, AddrMode::Abs)
    }
}

impl Mos6502Ins for RolAbsX {
    open spec fn ins(&self) -> M6502Ins {
        M6502Ins::RolAbsX(self.attr)
    }

    fn execute(&self, cpu: &mut Mos6502) {
        do_rol(cpu, &self.attr, AddrMode::AbsX)
    }
}

impl Mos6502Ins for RorAcc {
    open spec fn ins(&self) -> M6502Ins {
        M6502Ins::RorAcc(self.attr)
    }

    fn execute(&self, cpu: &mut Mos6502) {
        do_ror_acc(cpu, &self.attr)
    }
}

impl Mos6502Ins for RorZP {
    open spec fn ins(&self) -> M6502Ins {
        M6502Ins::RorZP(self.attr)
    }

    fn execute(&self, cpu: &mut Mos6502) {
        do_ror(cpu, &self.attr, AddrMode::ZP)
    }
}

impl Mos6502Ins for RorZPX {
    open spec fn ins(&self) -> M6502Ins {
        M6502Ins::RorZPX(self.attr)
    }

    fn execute(&self, cpu: &mut Mos6502) {
        do_ror(cpu, &self.attr, AddrMode::ZPX)
    }
}

impl Mos6502Ins for RorAbs {
    open spec fn ins(&self) -> M6502Ins {
        M6502Ins::RorAbs(self.attr)
    }

    fn execute(&self, cpu: &mut Mos6502) {
        do_ror(cpu, &self.attr, AddrMode::Abs)
    }
}

impl Mos6502Ins for RorAbsX {
    open spec fn ins(&self) -> M6502Ins {
        M6502Ins::RorAbsX(self.attr)
    }

    fn execute(&self, cpu: &mut Mos6502) {
        do_ror(cpu, &self.attr, AddrMode::AbsX)
    }
}

} // verus!
