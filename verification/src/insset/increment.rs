//! INC, INX and INY - increment a memory byte or an index register by
//! one, wrapping modulo 256.

use vstd::prelude::*;

use crate::address_mode::{resolve_address, spec_address_of, AddrMode};
use crate::cpu::{CpuState, Mos6502};
use crate::insset::utils::{spec_advance_pc, spec_update_zn, update_zn};
use crate::insset::{InsAttr, M6502Ins, Mos6502Ins};

verus! {

/// A byte incremented by one, wrapping modulo 256.
pub open spec fn spec_inc8(v: u8) -> u8 {
    ((v + 1) % 256) as u8
}

/// INC with a given addressing mode: the byte at the effective address is
/// incremented in place; zero and negative follow the new value.
#[verifier::opaque]
pub open spec fn spec_do_increment_at_mem(pre: CpuState, mode: AddrMode, len: u8) -> CpuState {
    let addr = spec_address_of(pre, mode);
    let result = spec_inc8(pre.mem[addr as int]);
    spec_advance_pc(
        CpuState {
            mem: pre.mem.update(addr as int, result),
            sr: spec_update_zn(pre.sr, result),
            ..pre
        },
        len,
    )
}

/// INX - increment the X register; zero and negative follow the new value.
#[verifier::opaque]
pub open spec fn spec_inx(pre: CpuState, len: u8) -> CpuState {
    let result = spec_inc8(pre.xr);
    spec_advance_pc(CpuState { xr: result, sr: spec_update_zn(pre.sr, result), ..pre }, len)
}

/// INY - increment the Y register; zero and negative follow the new value.
#[verifier::opaque]
pub open spec fn spec_iny(pre: CpuState, len: u8) -> CpuState {
    let result = spec_inc8(pre.yr);
    spec_advance_pc(CpuState { yr: result, sr: spec_update_zn(pre.sr, result), ..pre }, len)
}

/// A byte incremented by one, wrapping modulo 256.
fn inc8(v: u8) -> (r: u8)
    ensures
        r == spec_inc8(v),
{
    (((v as u16) + 1) % 256) as u8
}

/// Increment the byte at the mode's effective address in place and
/// advance past the instruction.
pub fn do_increment_at_mem(cpu: &mut Mos6502, attr: &InsAttr, mode: AddrMode)
    requires
        old(cpu)@.wf(),
    ensures
        final(cpu)@ == spec_do_increment_at_mem(old(cpu)@, mode, attr.len),
{
    proof {
        reveal(spec_do_increment_at_mem);
    }
    let addr = resolve_address(cpu, mode);
    let result = inc8(cpu.read_mem(addr));
    cpu.write_mem(addr, result);
    update_zn(cpu, result);
    cpu.next_instruction(attr);
}

/// Increment the X register and advance past the instruction.
pub fn do_inx(cpu: &mut Mos6502, attr: &InsAttr)
    ensures
        final(cpu)@ == spec_inx(old(cpu)@, attr.len),
{
    proof {
        reveal(spec_inx);
    }
    let result = inc8(cpu.xr);
    cpu.xr = result;
    update_zn(cpu, result);
    cpu.next_instruction(attr);
}

/// Increment the Y register and advance past the instruction.
pub fn do_iny(cpu: &mut Mos6502, attr: &InsAttr)
    ensures
        final(cpu)@ == spec_iny(old(cpu)@, attr.len),
{
    proof {
        reveal(spec_iny);
    }
    let result = inc8(cpu.yr);
    cpu.yr = result;
    update_zn(cpu, result);
    cpu.next_instruction(attr);
}

/// INC with zero-page addressing.
pub struct IncZP {
    /// Decoded attributes of this instruction.
    pub attr: InsAttr,
}

/// INC with zero-page,X addressing.
pub struct IncZPX {
    /// Decoded attributes of this instruction.
    pub attr: InsAttr,
}

/// INC with absolute addressing.
pub struct IncAbs {
    /// Decoded attributes of this instruction.
    pub attr: InsAttr,
}

/// INC with absolute,X addressing.
pub struct IncAbsX {
    /// Decoded attributes of this instruction.
    pub attr: InsAttr,
}

/// INX - increment the X register.
pub struct Inx {
    /// Decoded attributes of this instruction.
    pub attr: InsAttr,
}

/// INY - increment the Y register.
pub struct Iny {
    /// Decoded attributes of this instruction.
    pub attr: InsAttr,
}

impl Mos6502Ins for IncZP {
    open spec fn ins(&self) -> M6502Ins {
        M6502Ins::IncZP(self.attr)
    }

    fn execute(&self, cpu: &mut Mos6502) {
        do_increment_at_mem(cpu, &self.attr, AddrMode::ZP)
    }
}

impl Mos6502Ins for IncZPX {
    open spec fn ins(&self) -> M6502Ins {
        M6502Ins::IncZPX(self.attr)
    }

    fn execute(&self, cpu: &mut Mos6502) {
        do_increment_at_mem(cpu, &self.attr, AddrMode::ZPX)
    }
}

impl Mos6502Ins for IncAbs {
    open spec fn ins(&self) -> M6502Ins {
        M6502Ins::IncAbs(self.attr)
    }

    fn execute(&self, cpu: &mut Mos6502) {
        do_increment_at_mem(cpu, &self.attr, AddrMode::Abs)
    }
}

impl Mos6502Ins for IncAbsX {
    open spec fn ins(&self) -> M6502Ins {
        M6502Ins::IncAbsX(self.attr)
    }

    fn execute(&self, cpu: &mut Mos6502) {
        do_increment_at_mem(cpu, &self.attr, AddrMode::AbsX)
    }
}

impl Mos6502Ins for Inx {
    open spec fn ins(&self) -> M6502Ins {
        M6502Ins::Inx(self.attr)
    }

    fn execute(&self, cpu: &mut Mos6502) {
        do_inx(cpu, &self.attr)
    }
}

impl Mos6502Ins for Iny {
    open spec fn ins(&self) -> M6502Ins {
        M6502Ins::Iny(self.attr)
    }

    fn execute(&self, cpu: &mut Mos6502) {
        do_iny(cpu, &self.attr)
    }
}

} // verus!
