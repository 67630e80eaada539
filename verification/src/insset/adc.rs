//! ADC - add a memory operand and the carry flag to the accumulator.

use vstd::prelude::*;

use crate::address_mode::{resolve_operand, spec_operand_of, AddrMode};
use crate::constant::{CARRY_ON_MASK, NEGATIVE_ON_MASK, OVERFLOW_ON_MASK, ZERO_ON_MASK};
use crate::cpu::{CpuState, Mos6502};
use crate::insset::utils::{
    flag_is, flag_set, lemma_flag_set_other_bit, lemma_flag_set_same_bit, spec_advance_pc,
    spec_update_zn, update_carry_flag, update_overflow_flag, update_zn,
};
use crate::insset::{InsAttr, M6502Ins, Mos6502Ins};

verus! {

/// The state after the accumulator takes `ac + operand + carry_in`.
///
/// The sum is formed nine bits wide: the carry flag becomes its ninth bit,
/// the accumulator its low eight.  Overflow is signed: it is set exactly
/// when both addends share a sign bit and the result's sign bit differs
/// from theirs.  Zero and negative follow the eight-bit result.
pub open spec fn spec_add(pre: CpuState, operand: u8) -> CpuState {
    let carry_in = pre.sr & CARRY_ON_MASK;
    let sum = pre.ac + operand + carry_in;
    let result = (sum % 256) as u8;
    let overflow = (pre.ac >= 0x80) == (operand >= 0x80) && (pre.ac >= 0x80) != (result >= 0x80);
    let sr1 = flag_set(pre.sr, OVERFLOW_ON_MASK, overflow);
    let sr2 = flag_set(sr1, CARRY_ON_MASK, sum > 255);
    CpuState { ac: result, sr: spec_update_zn(sr2, result), ..pre }
}

/// ADC with a given addressing mode: resolve the operand, add it with the
/// carry into the accumulator, advance the program counter.
#[verifier::opaque]
pub open spec fn spec_do_add(pre: CpuState, mode: AddrMode, len: u8) -> CpuState {
    spec_advance_pc(spec_add(pre, spec_operand_of(pre, mode)), len)
}

/// The addition matches the native addition-with-carry: with the carry
/// flag clear, the accumulator takes `(ac + operand) mod 256` and the
/// carry flag comes out set exactly when the true sum overflows a byte.
pub proof fn lemma_add_matches_native_addition(pre: CpuState, operand: u8)
    requires
        !flag_is(pre.sr, CARRY_ON_MASK),
    ensures
        spec_add(pre, operand).ac == (pre.ac + operand) % 256,
        flag_is(spec_add(pre, operand).sr, CARRY_ON_MASK) == (pre.ac + operand > 255),
{
    let sum = pre.ac + operand;
    let result = (sum % 256) as u8;
    let overflow = (pre.ac >= 0x80) == (operand >= 0x80) && (pre.ac >= 0x80) != (result >= 0x80);
    let sr1 = flag_set(pre.sr, OVERFLOW_ON_MASK, overflow);
    let sr2 = flag_set(sr1, CARRY_ON_MASK, sum > 255);
    assert(0x02u8 & 0x01u8 == 0) by (bit_vector);
    assert(0x80u8 & 0x01u8 == 0) by (bit_vector);
    lemma_flag_set_same_bit(sr1, CARRY_ON_MASK, sum > 255);
    lemma_flag_set_other_bit(sr2, ZERO_ON_MASK, result == 0, CARRY_ON_MASK);
    lemma_flag_set_other_bit(
        flag_set(sr2, ZERO_ON_MASK, result == 0),
        NEGATIVE_ON_MASK,
        result >= 0x80,
        CARRY_ON_MASK,
    );
}

/// Adding zero with the carry clear returns the accumulator unchanged
/// and, provided the overflow flag was clear too, changes only the zero
/// and negative flags.
pub proof fn lemma_add_zero_identity(pre: CpuState)
    requires
        !flag_is(pre.sr, CARRY_ON_MASK),
        !flag_is(pre.sr, OVERFLOW_ON_MASK),
    ensures
        spec_add(pre, 0).ac == pre.ac,
        spec_add(pre, 0).sr == spec_update_zn(pre.sr, pre.ac),
{
    let s = pre.sr;
    assert(s & !0x40u8 == s) by (bit_vector)
        requires
            s & 0x40u8 == 0,
    ;
    assert(s & !0x01u8 == s) by (bit_vector)
        requires
            s & 0x01u8 == 0,
    ;
}

/// Add an operand and the carry flag into the accumulator, updating the
/// overflow, carry, zero and negative flags.
pub fn add_and_update_status_register(cpu: &mut Mos6502, operand: u8)
    ensures
        final(cpu)@ == spec_add(old(cpu)@, operand),
{
    let carry: u8 = cpu.is_carried();
    let sum: u16 = cpu.ac as u16 + operand as u16 + carry as u16;
    let result: u8 = (sum % 256) as u8;
    let acc_neg = cpu.ac >= 0x80;
    update_overflow_flag(cpu, acc_neg == (operand >= 0x80) && acc_neg != (result >= 0x80));
    update_carry_flag(cpu, sum > 255);
    update_zn(cpu, result);
    cpu.ac = result;
}

/// Resolve the operand, add it with the carry into the accumulator and
/// advance past the instruction.
pub fn do_add(cpu: &mut Mos6502, attr: &InsAttr, mode: AddrMode)
    requires
        old(cpu)@.wf(),
    ensures
        final(cpu)@ == spec_do_add(old(cpu)@, mode, attr.len),
{
    proof {
        reveal(spec_do_add);
    }
    let operand = resolve_operand(cpu, mode);
    add_and_update_status_register(cpu, operand);
    cpu.next_instruction(attr);
}

/// ADC with immediate addressing.
pub struct AdcImm {
    /// Decoded attributes of this instruction.
    pub attr: InsAttr,
}

/// ADC with zero-page addressing.
pub struct AdcZP {
    /// Decoded attributes of this instruction.
    pub attr: InsAttr,
}

/// ADC with zero-page,X addressing.
pub struct AdcZPX {
    /// Decoded attributes of this instruction.
    pub attr: InsAttr,
}

/// ADC with absolute addressing.
pub struct AdcAbs {
    /// Decoded attributes of this instruction.
    pub attr: InsAttr,
}

/// ADC with absolute,X addressing.
pub struct AdcAbsX {
    /// Decoded attributes of this instruction.
    pub attr: InsAttr,
}

/// ADC with absolute,Y addressing.
pub struct AdcAbsY {
    /// Decoded attributes of this instruction.
    pub attr: InsAttr,
}

/// ADC with indexed indirect addressing.
pub struct AdcIndX {
    /// Decoded attributes of this instruction.
    pub attr: InsAttr,
}

/// ADC with indirect indexed addressing.
pub struct AdcIndY {
    /// Decoded attributes of this instruction.
    pub attr: InsAttr,
}

impl Mos6502Ins for AdcImm {
    open spec fn ins(&self) -> M6502Ins {
        M6502Ins::AdcImm(self.attr)
    }

    fn execute(&self, cpu: &mut Mos6502) {
        do_add(cpu, &self.attr, AddrMode::Imm)
    }
}

impl Mos6502Ins for AdcZP {
    open spec fn ins(&self) -> M6502Ins {
        M6502Ins::AdcZP(self.attr)
    }

    fn execute(&self, cpu: &mut Mos6502) {
        do_add(cpu, &self.attr, AddrMode::ZP)
    }
}

impl Mos6502Ins for AdcZPX {
    open spec fn ins(&self) -> M6502Ins {
        M6502Ins::AdcZPX(self.attr)
    }

    fn execute(&self, cpu: &mut Mos6502) {
        do_add(cpu, &self.attr, AddrMode::ZPX)
    }
}

impl Mos6502Ins for AdcAbs {
    open spec fn ins(&self) -> M6502Ins {
        M6502Ins::AdcAbs(self.attr)
    }

    fn execute(&self, cpu: &mut Mos6502) {
        do_add(cpu, &self.attr, AddrMode::Abs)
    }
}

impl Mos6502Ins for AdcAbsX {
    open spec fn ins(&self) -> M6502Ins {
        M6502Ins::AdcAbsX(self.attr)
    }

    fn execute(&self, cpu: &mut Mos6502) {
        do_add(cpu, &self.attr, AddrMode::AbsX)
    }
}

impl Mos6502Ins for AdcAbsY {
    open spec fn ins(&self) -> M6502Ins {
        M6502Ins::AdcAbsY(self.attr)
    }

    fn execute(&self, cpu: &mut Mos6502) {
        do_add(cpu, &self.attr, AddrMode::AbsY)
    }
}

impl Mos6502Ins for AdcIndX {
    open spec fn ins(&self) -> M6502Ins {
        M6502Ins::AdcIndX(self.attr)
    }

    fn execute(&self, cpu: &mut Mos6502) {
        do_add(cpu, &self.attr, AddrMode::IndX)
    }
}

impl Mos6502Ins for AdcIndY {
    open spec fn ins(&self) -> M6502Ins {
        M6502Ins::AdcIndY(self.attr)
    }

    fn execute(&self, cpu: &mut Mos6502) {
        do_add(cpu, &self.attr, AddrMode::IndY)
    }
}

} // verus!
