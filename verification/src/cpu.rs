//! The processor state: registers, status flags and the 64 KB memory image.

use vstd::prelude::*;

use crate::address_mode::wrap_add16;
use crate::constant::{
    BIT_0_MASK, BREAK_ON_MASK, CARRY_ON_MASK, DECIMAL_ON_MASK, INTERRUPT_ON_MASK,
    NEGATIVE_ON_MASK, OVERFLOW_ON_MASK, ZERO_ON_MASK,
};
use crate::insset::utils::{flag_is, spec_advance_pc};
use crate::insset::InsAttr;

verus! {

/// Number of bytes in the flat address space reachable with a 16-bit address.
pub const MEM_SIZE: usize = 0x10000;

/// The mathematical model of the processor: the value of every register,
/// the status byte and the memory image as a sequence of bytes.  All
/// contracts of the crate are stated over this model.
#[verifier::ext_equal]
pub ghost struct CpuState {
    /// Program counter.
    pub pc: u16,
    /// Stack index into page `0x0100`-`0x01FF`.
    pub sp: u8,
    /// Accumulator.
    pub ac: u8,
    /// X index register.
    pub xr: u8,
    /// Y index register.
    pub yr: u8,
    /// Status byte, laid out `N V - B D I Z C`.
    pub sr: u8,
    /// The 64 KB memory image.
    pub mem: Seq<u8>,
    /// Lifecycle flag: cleared when the processor halts.
    pub power_on: bool,
}

impl CpuState {
    /// The memory image always spans the whole 16-bit address space.
    pub open spec fn wf(self) -> bool {
        self.mem.len() == MEM_SIZE
    }
}

/// The MOS 6502 processor: registers, status byte and the 64 KB memory.
pub struct Mos6502 {
    /// Program counter.
    pub pc: u16,
    /// Stack index into page `0x0100`-`0x01FF`.
    pub sp: u8,
    /// Accumulator.
    pub ac: u8,
    /// X index register.
    pub xr: u8,
    /// Y index register.
    pub yr: u8,
    /// Status byte, laid out `N V - B D I Z C`.
    pub sr: u8,
    /// The 64 KB memory image.
    pub mem: Vec<u8>,
    /// Lifecycle flag: cleared when the processor halts.
    pub power_on: bool,
}

impl View for Mos6502 {
    type V = CpuState;

    open spec fn view(&self) -> CpuState {
        CpuState {
            pc: self.pc,
            sp: self.sp,
            ac: self.ac,
            xr: self.xr,
            yr: self.yr,
            sr: self.sr,
            mem: self.mem@,
            power_on: self.power_on,
        }
    }
}

impl Mos6502 {
    /// Read the byte stored at a 16-bit address.
    pub fn read_mem(&self, addr: u16) -> (r: u8)
        requires
            self@.wf(),
        ensures
            r == self@.mem[addr as int],
    {
        self.mem[addr as usize]
    }

    /// Overwrite the byte stored at a 16-bit address.
    pub fn write_mem(&mut self, addr: u16, v: u8)
        requires
            old(self)@.wf(),
        ensures
            final(self)@ == (CpuState { mem: old(self)@.mem.update(addr as int, v), ..old(self)@ }),
    {
        self.mem[addr as usize] = v;
    }
}

impl Mos6502 {
    /// Whether the carry flag is set.
    pub fn carry_flag(&self) -> (r: bool)
        ensures
            r == flag_is(self@.sr, CARRY_ON_MASK),
    {
        self.sr & CARRY_ON_MASK != 0
    }

    /// Whether the zero flag is set.
    pub fn zero_flag(&self) -> (r: bool)
        ensures
            r == flag_is(self@.sr, ZERO_ON_MASK),
    {
        self.sr & ZERO_ON_MASK != 0
    }

    /// Whether the interrupt-disable flag is set.
    pub fn interrupt_flag(&self) -> (r: bool)
        ensures
            r == flag_is(self@.sr, INTERRUPT_ON_MASK),
    {
        self.sr & INTERRUPT_ON_MASK != 0
    }

    /// Whether the decimal-mode flag is set.
    pub fn decimal_flag(&self) -> (r: bool)
        ensures
            r == flag_is(self@.sr, DECIMAL_ON_MASK),
    {
        self.sr & DECIMAL_ON_MASK != 0
    }

    /// Whether the break flag is set.
    pub fn break_flag(&self) -> (r: bool)
        ensures
            r == flag_is(self@.sr, BREAK_ON_MASK),
    {
        self.sr & BREAK_ON_MASK != 0
    }

    /// Whether the overflow flag is set.
    pub fn overflow_flag(&self) -> (r: bool)
        ensures
            r == flag_is(self@.sr, OVERFLOW_ON_MASK),
    {
        self.sr & OVERFLOW_ON_MASK != 0
    }

    /// Whether the negative flag is set.
    pub fn negative_flag(&self) -> (r: bool)
        ensures
            r == flag_is(self@.sr, NEGATIVE_ON_MASK),
    {
        self.sr & NEGATIVE_ON_MASK != 0
    }

    /// The carry flag as a numeric bit, ready to join an addition.
    pub(crate) fn is_carried(&self) -> (r: u8)
        ensures
            r == self@.sr & CARRY_ON_MASK,
            r <= 1,
    {
        proof {
            let s = self.sr;
            assert(s & 1u8 <= 1) by (bit_vector);
        }
        self.sr & BIT_0_MASK
    }

    /// Advance the program counter past the instruction, wrapping modulo
    /// 65,536.
    pub(crate) fn next_instruction(&mut self, attr: &InsAttr)
        ensures
            final(self)@ == spec_advance_pc(old(self)@, attr.len),
    {
        self.pc = wrap_add16(self.pc, attr.len as u16);
    }
}

impl Default for Mos6502 {
    /// The power-on state: every register, flag and memory byte zeroed.
    fn default() -> (r: Self)
        ensures
            r@.wf(),
            r@.pc == 0 && r@.sp == 0 && r@.ac == 0 && r@.xr == 0 && r@.yr == 0 && r@.sr == 0,
            forall|i: int| 0 <= i < MEM_SIZE ==> r@.mem[i] == 0,
            !r@.power_on,
    {
        let mut mem: Vec<u8> = Vec::new();
        let mut i: usize = 0;
        while i < MEM_SIZE
            invariant
                i <= MEM_SIZE,
                mem@.len() == i,
                forall|k: int| 0 <= k < i ==> mem@[k] == 0,
            decreases MEM_SIZE - i,
        {
            mem.push(0);
            i = i + 1;
        }
        Mos6502 { pc: 0, sp: 0, ac: 0, xr: 0, yr: 0, sr: 0, mem, power_on: false }
    }
}

} // verus!
