//! Addressing-mode resolution: pure functions computing an operand value or
//! an effective address from the processor state.
//!
//! All zero-page and indirect-pointer arithmetic wraps modulo 256 and never
//! carries into page one; all absolute-indexed arithmetic wraps modulo
//! 65,536.  Neither wrap is an error.  Relative addressing adds the offset
//! to the low byte of the program counter only and never adjusts the high
//! byte: a documented quirk of the hardware that is preserved exactly.

use vstd::prelude::*;

use crate::cpu::{CpuState, Mos6502};

verus! {

/// Tag of an addressing mode that yields a memory operand.
///
/// Accumulator, implied, relative and indirect-jump addressing never go
/// through this tag: they are resolved by their instructions directly.
#[derive(Clone, Copy, PartialEq, Eq, Structural, Debug)]
pub enum AddrMode {
    /// Immediate: the operand is the byte after the opcode.
    Imm,
    /// Zero page: a one-byte address into page zero.
    ZP,
    /// Zero page indexed with X, wrapping inside page zero.
    ZPX,
    /// Zero page indexed with Y, wrapping inside page zero.
    ZPY,
    /// Absolute: a two-byte little-endian address.
    Abs,
    /// Absolute indexed with X, wrapping modulo 65,536.
    AbsX,
    /// Absolute indexed with Y, wrapping modulo 65,536.
    AbsY,
    /// Indexed indirect: a zero-page pointer table indexed with X.
    IndX,
    /// Indirect indexed: a zero-page pointer, then Y added to the address.
    IndY,
}

/// Eight-bit addition that wraps modulo 256.
pub open spec fn add8(a: u8, b: u8) -> u8 {
    ((a + b) % 256) as u8
}

/// Sixteen-bit addition that wraps modulo 65,536.
pub open spec fn add16(a: u16, b: u16) -> u16 {
    ((a + b) % 0x10000) as u16
}

/// A 16-bit word assembled from a low and a high byte.
pub open spec fn word(lo: u8, hi: u8) -> u16 {
    (lo + 256 * hi) as u16
}

/// The byte `nth` places after the current instruction's opcode.
pub open spec fn spec_next_nth_byte(pre: CpuState, nth: u16) -> u8 {
    pre.mem[add16(pre.pc, nth) as int]
}

/// The effective address that an addressing mode resolves to.
///
/// For immediate addressing this is the address of the operand byte itself,
/// so that every mode's operand is the byte at its effective address.
pub open spec fn spec_address_of(pre: CpuState, mode: AddrMode) -> u16 {
    match mode {
        AddrMode::Imm => add16(pre.pc, 1),
        AddrMode::ZP => spec_next_nth_byte(pre, 1) as u16,
        AddrMode::ZPX => add8(spec_next_nth_byte(pre, 1), pre.xr) as u16,
        AddrMode::ZPY => add8(spec_next_nth_byte(pre, 1), pre.yr) as u16,
        AddrMode::Abs => word(spec_next_nth_byte(pre, 1), spec_next_nth_byte(pre, 2)),
        AddrMode::AbsX => add16(
            word(spec_next_nth_byte(pre, 1), spec_next_nth_byte(pre, 2)),
            pre.xr as u16,
        ),
        AddrMode::AbsY => add16(
            word(spec_next_nth_byte(pre, 1), spec_next_nth_byte(pre, 2)),
            pre.yr as u16,
        ),
        AddrMode::IndX => {
            let p = add8(spec_next_nth_byte(pre, 1), pre.xr);
            word(pre.mem[p as int], pre.mem[add8(p, 1) as int])
        },
        AddrMode::IndY => {
            let p = spec_next_nth_byte(pre, 1);
            add16(word(pre.mem[p as int], pre.mem[add8(p, 1) as int]), pre.yr as u16)
        },
    }
}

/// The operand value of an addressing mode: the byte at its effective address.
pub open spec fn spec_operand_of(pre: CpuState, mode: AddrMode) -> u8 {
    pre.mem[spec_address_of(pre, mode) as int]
}

/// The target of relative addressing: the offset byte is added to the low
/// byte of the program counter modulo 256 and the high byte is never
/// adjusted, exactly as the hardware behaves.
pub open spec fn spec_relative(pre: CpuState) -> u16 {
    ((pre.pc / 256) * 256 + (pre.pc % 256 + spec_next_nth_byte(pre, 1)) % 256) as u16
}

/// Eight-bit addition wrapping modulo 256.
pub(crate) fn wrap_add8(a: u8, b: u8) -> (r: u8)
    ensures
        r == add8(a, b),
{
    (((a as u16) + (b as u16)) % 256) as u8
}

/// Sixteen-bit addition wrapping modulo 65,536.
pub(crate) fn wrap_add16(a: u16, b: u16) -> (r: u16)
    ensures
        r == add16(a, b),
{
    (((a as u32) + (b as u32)) % 0x10000) as u16
}

/// The byte `nth` places after the current instruction's opcode.
pub(crate) fn next_nth_byte_from_pc(cpu: &Mos6502, nth: u16) -> (r: u8)
    requires
        cpu@.wf(),
    ensures
        r == spec_next_nth_byte(cpu@, nth),
{
    let addr = wrap_add16(cpu.pc, nth);
    cpu.read_mem(addr)
}

/// Immediate addressing: the operand is the byte after the opcode.
pub fn immediate(cpu: &Mos6502) -> (r: u8)
    requires
        cpu@.wf(),
    ensures
        r == spec_operand_of(cpu@, AddrMode::Imm),
{
    next_nth_byte_from_pc(cpu, 1)
}

/// Zero-page addressing: the operand lives at a one-byte address.
pub fn zero_page(cpu: &Mos6502) -> (r: u8)
    requires
        cpu@.wf(),
    ensures
        r == spec_operand_of(cpu@, AddrMode::ZP),
{
    let addr = zero_page_immutatble(cpu);
    cpu.read_mem(addr)
}

/// The effective address of zero-page addressing.
pub fn zero_page_immutatble(cpu: &Mos6502) -> (r: u16)
    requires
        cpu@.wf(),
    ensures
        r == spec_address_of(cpu@, AddrMode::ZP),
{
    next_nth_byte_from_pc(cpu, 1) as u16
}

/// Zero-page,X addressing: the pointer wraps inside page zero and never
/// carries into page one.
pub fn zero_page_x(cpu: &Mos6502) -> (r: u8)
    requires
        cpu@.wf(),
    ensures
        r == spec_operand_of(cpu@, AddrMode::ZPX),
{
    let addr = zero_page_x_immutable(cpu);
    cpu.read_mem(addr)
}

/// The effective address of zero-page,X addressing.
pub fn zero_page_x_immutable(cpu: &Mos6502) -> (r: u16)
    requires
        cpu@.wf(),
    ensures
        r == spec_address_of(cpu@, AddrMode::ZPX),
{
    let base = next_nth_byte_from_pc(cpu, 1);
    wrap_add8(base, cpu.xr) as u16
}

/// Zero-page,Y addressing: the pointer wraps inside page zero.
pub fn zero_page_y(cpu: &Mos6502) -> (r: u8)
    requires
        cpu@.wf(),
    ensures
        r == spec_operand_of(cpu@, AddrMode::ZPY),
{
    let addr = zero_page_y_immutable(cpu);
    cpu.read_mem(addr)
}

/// The effective address of zero-page,Y addressing.
pub fn zero_page_y_immutable(cpu: &Mos6502) -> (r: u16)
    requires
        cpu@.wf(),
    ensures
        r == spec_address_of(cpu@, AddrMode::ZPY),
{
    let base = next_nth_byte_from_pc(cpu, 1);
    wrap_add8(base, cpu.yr) as u16
}

/// Absolute addressing: a two-byte little-endian address after the opcode.
pub fn absolute(cpu: &Mos6502) -> (r: u8)
    requires
        cpu@.wf(),
    ensures
        r == spec_operand_of(cpu@, AddrMode::Abs),
{
    let addr = absolute_immutable(cpu);
    cpu.read_mem(addr)
}

/// The effective address of absolute addressing.
pub fn absolute_immutable(cpu: &Mos6502) -> (r: u16)
    requires
        cpu@.wf(),
    ensures
        r == spec_address_of(cpu@, AddrMode::Abs),
{
    let lo = next_nth_byte_from_pc(cpu, 1);
    let hi = next_nth_byte_from_pc(cpu, 2);
    (lo as u16) + 256 * (hi as u16)
}

/// Absolute,X addressing: the index is added with 16-bit arithmetic and may
/// cross a page boundary.
pub fn absolute_x(cpu: &Mos6502) -> (r: u8)
    requires
        cpu@.wf(),
    ensures
        r == spec_operand_of(cpu@, AddrMode::AbsX),
{
    let addr = absolute_x_immutable(cpu);
    cpu.read_mem(addr)
}

/// The effective address of absolute,X addressing.
pub fn absolute_x_immutable(cpu: &Mos6502) -> (r: u16)
    requires
        cpu@.wf(),
    ensures
        r == spec_address_of(cpu@, AddrMode::AbsX),
{
    let base = absolute_immutable(cpu);
    wrap_add16(base, cpu.xr as u16)
}

/// Absolute,Y addressing: the index is added with 16-bit arithmetic.
pub fn absolute_y(cpu: &Mos6502) -> (r: u8)
    requires
        cpu@.wf(),
    ensures
        r == spec_operand_of(cpu@, AddrMode::AbsY),
{
    let addr = absolute_y_immutable(cpu);
    cpu.read_mem(addr)
}

/// The effective address of absolute,Y addressing.
pub fn absolute_y_immutable(cpu: &Mos6502) -> (r: u16)
    requires
        cpu@.wf(),
    ensures
        r == spec_address_of(cpu@, AddrMode::AbsY),
{
    let base = absolute_immutable(cpu);
    wrap_add16(base, cpu.yr as u16)
}

/// Indexed indirect addressing: the zero-page pointer table is indexed with
/// X, and both pointer bytes are read modulo 256.
pub fn indirect_x(cpu: &Mos6502) -> (r: u8)
    requires
        cpu@.wf(),
    ensures
        r == spec_operand_of(cpu@, AddrMode::IndX),
{
    let addr = indirect_x_immutable(cpu);
    cpu.read_mem(addr)
}

/// The effective address of indexed indirect addressing.
pub fn indirect_x_immutable(cpu: &Mos6502) -> (r: u16)
    requires
        cpu@.wf(),
    ensures
        r == spec_address_of(cpu@, AddrMode::IndX),
{
    let table = next_nth_byte_from_pc(cpu, 1);
    let first = wrap_add8(table, cpu.xr);
    let second = wrap_add8(first, 1);
    let lo = cpu.read_mem(first as u16);
    let hi = cpu.read_mem(second as u16);
    (lo as u16) + 256 * (hi as u16)
}

/// Indirect indexed addressing: a zero-page pointer is read little-endian,
/// then Y is added with 16-bit arithmetic and may cross a page.
pub fn indirect_y(cpu: &Mos6502) -> (r: u8)
    requires
        cpu@.wf(),
    ensures
        r == spec_operand_of(cpu@, AddrMode::IndY),
{
    let addr = indirect_y_immutable(cpu);
    cpu.read_mem(addr)
}

/// The effective address of indirect indexed addressing.
pub fn indirect_y_immutable(cpu: &Mos6502) -> (r: u16)
    requires
        cpu@.wf(),
    ensures
        r == spec_address_of(cpu@, AddrMode::IndY),
{
    let p = next_nth_byte_from_pc(cpu, 1);
    let p_next = wrap_add8(p, 1);
    let lo = cpu.read_mem(p as u16);
    let hi = cpu.read_mem(p_next as u16);
    let base = (lo as u16) + 256 * (hi as u16);
    wrap_add16(base, cpu.yr as u16)
}

/// Relative addressing: the branch target.  The offset is added to the low
/// byte of the program counter modulo 256; the high byte is never adjusted.
pub fn relative(cpu: &Mos6502) -> (r: u16)
    requires
        cpu@.wf(),
    ensures
        r == spec_relative(cpu@),
{
    let offset = next_nth_byte_from_pc(cpu, 1);
    let pc_lsb = (cpu.pc % 256) as u8;
    let pc_msb = cpu.pc / 256;
    let target_lsb = wrap_add8(pc_lsb, offset);
    pc_msb * 256 + target_lsb as u16
}

/// The effective address that an addressing-mode tag resolves to.
pub fn resolve_address(cpu: &Mos6502, mode: AddrMode) -> (r: u16)
    requires
        cpu@.wf(),
    ensures
        r == spec_address_of(cpu@, mode),
{
    match mode {
        AddrMode::Imm => wrap_add16(cpu.pc, 1),
        AddrMode::ZP => zero_page_immutatble(cpu),
        AddrMode::ZPX => zero_page_x_immutable(cpu),
        AddrMode::ZPY => zero_page_y_immutable(cpu),
        AddrMode::Abs => absolute_immutable(cpu),
        AddrMode::AbsX => absolute_x_immutable(cpu),
        AddrMode::AbsY => absolute_y_immutable(cpu),
        AddrMode::IndX => indirect_x_immutable(cpu),
        AddrMode::IndY => indirect_y_immutable(cpu),
    }
}

/// The operand value that an addressing-mode tag resolves to.
pub fn resolve_operand(cpu: &Mos6502, mode: AddrMode) -> (r: u8)
    requires
        cpu@.wf(),
    ensures
        r == spec_operand_of(cpu@, mode),
{
    let addr = resolve_address(cpu, mode);
    cpu.read_mem(addr)
}

} // verus!
