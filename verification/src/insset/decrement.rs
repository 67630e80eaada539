//! DEC, DEX and DEY - decrement a memory byte or an index register by
//! one, wrapping modulo 256.

use vstd::prelude::*;

use crate::address_mode::{resolve_address, spec_address_of, AddrMode};
use crate::cpu::{CpuState, Mos6502};
use crate::insset::utils::{spec_advance_pc, spec_update_zn, update_zn};
use crate::insset::{InsAttr, M6502Ins, Mos6502Ins};

verus! {

/// A byte decremented by one, wrapping modulo 256.
pub open spec fn spec_dec8(v: u8) -> u8 {
    ((v + 255) % 256) as u8
}

/// DEC with a given addressing mode: the byte at the effective address is
/// decremented in place; zero and negative follow the new value.
#[verifier::opaque]
pub open spec fn spec_do_decrement_at_mem(pre: CpuState, mode: AddrMode, len: u8) -> CpuState {
    let addr = spec_address_of(pre, mode);
    let result = spec_dec8(pre.mem[addr as int]);
    spec_advance_pc(
        CpuState {
            mem: pre.mem.update(addr as int, result),
            sr: spec_update_zn(pre.sr, result),
            ..pre
        },
        len,
    )
}

/// DEX - decrement the X register; zero and negative follow the new value.
#[verifier::opaque]
pub open spec fn spec_dex(pre: CpuState, len: u8) -> CpuState {
    let result = spec_dec8(pre.xr);
    spec_advance_pc(CpuState { xr: result, sr: spec_update_zn(pre.sr, result), ..pre }, len)
}

/// DEY - decrement the Y register; zero and negative follow the new value.
#[verifier::opaque]
pub open spec fn spec_dey(pre: CpuState, len: u8) -> CpuState {
    let result = spec_dec8(pre.yr);
    spec_advance_pc(CpuState { yr: result, sr: spec_update_zn(pre.sr, result), ..pre }, len)
}

/// A byte decremented by one, wrapping modulo 256.
fn dec8(v: u8) -> (r: u8)
    ensures
        r == spec_dec8(v),
{
    (((v as u16) + 255) % 256) as u8
}

/// Decrement the byte at the mode's effective address in place and
/// advance past the instruction.
pub fn do_decrement_at_mem(cpu: &mut Mos6502, attr: &InsAttr, mode: AddrMode)
    requires
        old(cpu)@.wf(),
    ensures
        final(cpu)@ == spec_do_decrement_at_mem(old(cpu)@, mode, attr.len),
{
    proof {
        reveal(spec_do_decrement_at_mem);
    }
    let addr = resolve_address(cpu, mode);
    let result = dec8(cpu.read_mem(addr));
    cpu.write_mem(addr, result);
    update_zn(cpu, result);
    cpu.next_instruction(attr);
}

/// Decrement the X register and advance past the instruction.
pub fn do_dex(cpu: &mut Mos6502, attr: &InsAttr)
    ensures
        final(cpu)@ == spec_dex(old(cpu)@, attr.len),
{
    proof {
        reveal(spec_dex);
    }
    let result = dec8(cpu.xr);
    cpu.xr = result;
    update_zn(cpu, result);
    cpu.next_instruction(attr);
}

/// Decrement the Y register and advance past the instruction.
pub fn do_dey(cpu: &mut Mos6502, attr: &InsAttr)
    ensures
        final(cpu)@ == spec_dey(old(cpu)@, attr.len),
{
    proof {
        reveal(spec_dey);
    }
    let result = dec8(cpu.yr);
    cpu.yr = result;
    update_zn(cpu, result);
    cpu.next_instruction(attr);
}

/// DEC with zero-page addressing.
pub struct DecZP {
    /// Decoded attributes of this instruction.
    pub attr: InsAttr,
}

/// DEC with zero-page,X addressing.
pub struct DecZPX {
    /// Decoded attributes of this instruction.
    pub attr: InsAttr,
}

/// DEC with absolute addressing.
pub struct DecAbs {
    /// Decoded attributes of this instruction.
    pub attr: InsAttr,
}

/// DEC with absolute,X addressing.
pub struct DecAbsX {
    /// Decoded attributes of this instruction.
    pub attr: InsAttr,
}

/// DEX - decrement the X register.
pub struct Dex {
    /// Decoded attributes of this instruction.
    pub attr: InsAttr,
}

/// DEY - decrement the Y register.
pub struct Dey {
    /// Decoded attributes of this instruction.
    pub attr: InsAttr,
}

impl Mos6502Ins for DecZP {
    open spec fn ins(&self) -> M6502Ins {
        M6502Ins::DecZP(self.attr)
    }

    fn execute(&self, cpu: &mut Mos6502) {
        do_decrement_at_mem(cpu, &self.attr, AddrMode::ZP)
    }
}

impl Mos6502Ins for DecZPX {
    open spec fn ins(&self) -> M6502Ins {
        M6502Ins::DecZPX(self.attr)
    }

    fn execute(&self, cpu: &mut Mos6502) {
        do_decrement_at_mem(cpu, &self.attr, AddrMode::ZPX)
    }
}

impl Mos6502Ins for DecAbs {
    open spec fn ins(&self) -> M6502Ins {
        M6502Ins::DecAbs(self.attr)
    }

    fn execute(&self, cpu: &mut Mos6502) {
        do_decrement_at_mem(cpu, &self.attr, AddrMode::Abs)
    }
}

impl Mos6502Ins for DecAbsX {
    open spec fn ins(&self) -> M6502Ins {
        M6502Ins::DecAbsX(self.attr)
    }

    fn execute(&self, cpu: &mut Mos6502) {
        do_decrement_at_mem(cpu, &self.attr, AddrMode::AbsX)
    }
}

impl Mos6502Ins for Dex {
    open spec fn ins(&self) -> M6502Ins {
        M6502Ins::Dex(self.attr)
    }

    fn execute(&self, cpu: &mut Mos6502) {
        do_dex(cpu, &self.attr)
    }
}

impl Mos6502Ins for Dey {
    open spec fn ins(&self) -> M6502Ins {
        M6502Ins::Dey(self.attr)
    }

    fn execute(&self, cpu: &mut Mos6502) {
        do_dey(cpu, &self.attr)
    }
}

} // verus!
