//! STX and STY - store the index registers at a mode's effective address.

use vstd::prelude::*;

use crate::address_mode::{resolve_address, spec_address_of, AddrMode};
use crate::cpu::{CpuState, Mos6502};
use crate::insset::utils::spec_advance_pc;
use crate::insset::{InsAttr, M6502Ins, Mos6502Ins};

verus! {

/// STX with a given addressing mode: the X register is written at the
/// effective address; no flag changes.
#[verifier::opaque]
pub open spec fn spec_do_store_x(pre: CpuState, mode: AddrMode, len: u8) -> CpuState {
    spec_advance_pc(
        CpuState { mem: pre.mem.update(spec_address_of(pre, mode) as int, pre.xr), ..pre },
        len,
    )
}

/// STY with a given addressing mode: the Y register is written at the
/// effective address; no flag changes.
#[verifier::opaque]
pub open spec fn spec_do_store_y(pre: CpuState, mode: AddrMode, len: u8) -> CpuState {
    spec_advance_pc(
        CpuState { mem: pre.mem.update(spec_address_of(pre, mode) as int, pre.yr), ..pre },
        len,
    )
}

/// Write the X register at the mode's effective address and advance past
/// the instruction.
pub fn do_store_x(cpu: &mut Mos6502, attr: &InsAttr, mode: AddrMode)
    requires
        old(cpu)@.wf(),
    ensures
        final(cpu)@ == spec_do_store_x(old(cpu)@, mode, attr.len),
{
    proof {
        reveal(spec_do_store_x);
    }
    let addr = resolve_address(cpu, mode);
    let v = cpu.xr;
    cpu.write_mem(addr, v);
    cpu.next_instruction(attr);
}

/// Write the Y register at the mode's effective address and advance past
/// the instruction.
pub fn do_store_y(cpu: &mut Mos6502, attr: &InsAttr, mode: AddrMode)
    requires
        old(cpu)@.wf(),
    ensures
        final(cpu)@ == spec_do_store_y(old(cpu)@, mode, attr.len),
{
    proof {
        reveal(spec_do_store_y);
    }
    let addr = resolve_address(cpu, mode);
    let v = cpu.yr;
    cpu.write_mem(addr, v);
    cpu.next_instruction(attr);
}

/// STX with zero-page addressing.
pub struct StxZP {
    /// Decoded attributes of this instruction.
    pub attr: InsAttr,
}

/// STX with zero-page,Y addressing.
pub struct StxZPY {
    /// Decoded attributes of this instruction.
    pub attr: InsAttr,
}

/// STX with absolute addressing.
pub struct StxAbs {
    /// Decoded attributes of this instruction.
    pub attr: InsAttr,
}

/// STY with zero-page addressing.
pub struct StyZP {
    /// Decoded attributes of this instruction.
    pub attr: InsAttr,
}

/// STY with zero-page,X addressing.
pub struct StyZPX {
    /// Decoded attributes of this instruction.
    pub attr: InsAttr,
}

/// STY with absolute addressing.
pub struct StyAbs {
    /// Decoded attributes of this instruction.
    pub attr: InsAttr,
}

impl Mos6502Ins for StxZP {
    open spec fn ins(&self) -> M6502Ins {
        M6502Ins::StxZP(self.attr)
    }

    fn execute(&self, cpu: &mut Mos6502) {
        do_store_x(cpu, &self.attr, AddrMode::ZP)
    }
}

impl Mos6502Ins for StxZPY {
    open spec fn ins(&self) -> M6502Ins {
        M6502Ins::StxZPY(self.attr)
    }

    fn execute(&self, cpu: &mut Mos6502) {
        do_store_x(cpu, &self.attr, AddrMode::ZPY)
    }
}

impl Mos6502Ins for StxAbs {
    open spec fn ins(&self) -> M6502Ins {
        M6502Ins::StxAbs(self.attr)
    }

    fn execute(&self, cpu: &mut Mos6502) {
        do_store_x(cpu, &self.attr, AddrMode::Abs)
    }
}

impl Mos6502Ins for StyZP {
    open spec fn ins(&self) -> M6502Ins {
        M6502Ins::StyZP(self.attr)
    }

    fn execute(&self, cpu: &mut Mos6502) {
        do_store_y(cpu, &self.attr, AddrMode::ZP)
    }
}

impl Mos6502Ins for StyZPX {
    open spec fn ins(&self) -> M6502Ins {
        M6502Ins::StyZPX(self.attr)
    }

    fn execute(&self, cpu: &mut Mos6502) {
        do_store_y(cpu, &self.attr, AddrMode::ZPX)
    }
}

impl Mos6502Ins for StyAbs {
    open spec fn ins(&self) -> M6502Ins {
        M6502Ins::StyAbs(self.attr)
    }

    fn execute(&self, cpu: &mut Mos6502) {
        do_store_y(cpu, &self.attr, AddrMode::Abs)
    }
}

} // verus!
