//! Bit masks of the status register, laid out `N V - B D I Z C`.

use vstd::prelude::*;

verus! {

/// Negative flag: bit 7 of the status register.
pub const NEGATIVE_ON_MASK: u8 = 0b1000_0000;

/// Overflow flag: bit 6 of the status register.
pub const OVERFLOW_ON_MASK: u8 = 0b0100_0000;

/// Break flag: bit 4 of the status register.
pub const BREAK_ON_MASK: u8 = 0b0001_0000;

/// Decimal-mode flag: bit 3 of the status register.
pub const DECIMAL_ON_MASK: u8 = 0b0000_1000;

/// Interrupt-disable flag: bit 2 of the status register.
pub const INTERRUPT_ON_MASK: u8 = 0b0000_0100;

/// Zero flag: bit 1 of the status register.
pub const ZERO_ON_MASK: u8 = 0b0000_0010;

/// Carry flag: bit 0 of the status register.
pub const CARRY_ON_MASK: u8 = 0b0000_0001;

/// Mask selecting bit 0 of a byte.
pub const BIT_0_MASK: u8 = 0b0000_0001;

} // verus!
