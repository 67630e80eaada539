//! Addressing-mode resolution, including the zero-page wrap and the
//! relative-addressing quirk of the hardware.

use mos6502::address_mode::{
    absolute, absolute_immutable, absolute_x, absolute_x_immutable, absolute_y, immediate,
    indirect_x, indirect_y, relative, zero_page, zero_page_immutatble, zero_page_x,
    zero_page_x_immutable, zero_page_y,
};
use mos6502::Mos6502;

#[test]
fn test_immediate() {
    let mut cpu = Mos6502::default();
    cpu.mem[cpu.pc as usize + 1] = 0xaa;
    let actual = immediate(&cpu);
    assert_eq!(0xaa, actual);
}

#[test]
fn test_zero_page() {
    let mut cpu = Mos6502::default();
    cpu.pc = 30;
    cpu.mem[31] = 0xaa;
    cpu.mem[0xaa] = 0x12;
    let actual = zero_page(&cpu);
    assert_eq!(0x12, actual);
}

#[test]
fn test_zero_page_x() {
    let mut cpu = Mos6502::default();
    cpu.pc = 30;
    cpu.mem[31] = 0xaa;
    cpu.xr = 0x1;
    cpu.mem[0xaa + 0x1] = 0x12;
    let actual = zero_page_x(&cpu);
    assert_eq!(0x12, actual);
}

#[test]
fn test_absolute() {
    let mut cpu = Mos6502::default();
    cpu.mem[cpu.pc as usize + 1] = 0x30;
    cpu.mem[2] = 0x10;
    cpu.mem[0x1030] = 0xaa;
    let actual = absolute(&cpu);
    assert_eq!(0xaa, actual)
}

#[test]
fn test_absolute_x() {
    let mut cpu = Mos6502::default();
    cpu.mem[cpu.pc as usize + 1] = 0x30;
    cpu.mem[2] = 0x10;
    cpu.xr = 0x12;
    cpu.mem[0x1030 + 0x12] = 0xaa;
    let actual = absolute_x(&cpu);
    assert_eq!(0xaa, actual)
}

#[test]
fn test_absolute_y() {
    let mut cpu = Mos6502::default();
    cpu.mem[cpu.pc as usize + 1] = 0x30;
    cpu.mem[2] = 0x10;
    cpu.yr = 0x12;
    cpu.mem[0x1030 + 0x12] = 0xaa;
    let actual = absolute_y(&cpu);
    assert_eq!(0xaa, actual)
}

#[test]
fn test_indirect_x() {
    let mut cpu = Mos6502::default();
    cpu.mem[cpu.pc as usize + 1] = 0x70;
    cpu.xr = 0x10;
    cpu.mem[0x70 + 0x10] = 0x20;
    cpu.mem[0x70 + 0x10 + 0x1] = 0x10;
    cpu.mem[0x1020] = 0xaa;
    let actual = indirect_x(&cpu);
    assert_eq!(0xaa, actual)
}

#[test]
fn test_indirect_y() {
    let mut cpu = Mos6502::default();
    cpu.mem[cpu.pc as usize + 1] = 0x70;
    cpu.yr = 0x10;
    cpu.mem[0x70] = 0x20;
    cpu.mem[0x71] = 0x10;
    cpu.mem[0x1020 + 0x10] = 0xaa;
    let actual = indirect_y(&cpu);
    assert_eq!(0xaa, actual)
}

#[test]
fn test_zero_page_immutable() {
    let mut cpu = Mos6502::default();
    cpu.pc = 30;
    cpu.mem[31] = 0xaa;
    cpu.mem[0xaa] = 0x12;
    let actual = zero_page_immutatble(&cpu);
    assert_eq!(0x12, cpu.mem[actual as usize]);
    cpu.mem[actual as usize] = 0xff;
    assert_eq!(0xff, cpu.mem[actual as usize]);
}

#[test]
fn test_zero_page_x_immutable() {
    let mut cpu = Mos6502::default();
    cpu.pc = 30;
    cpu.mem[31] = 0xaa;
    cpu.xr = 0x1;
    cpu.mem[0xaa + 0x1] = 0x12;
    let actual = zero_page_x_immutable(&cpu);
    assert_eq!(0x12, cpu.mem[actual as usize]);
    cpu.mem[actual as usize] = 0xff;
    assert_eq!(0xff, cpu.mem[actual as usize]);
}

#[test]
fn test_absolute_immutable() {
    let mut cpu = Mos6502::default();
    cpu.mem[cpu.pc as usize + 1] = 0x30;
    cpu.mem[2] = 0x10;
    cpu.mem[0x1030] = 0xaa;
    let actual = absolute_immutable(&cpu);
    assert_eq!(0xaa, cpu.mem[actual as usize]);
    cpu.mem[actual as usize] = 0xff;
    assert_eq!(0xff, cpu.mem[actual as usize]);
}

#[test]
fn test_absolute_x_immutable() {
    let mut cpu = Mos6502::default();
    cpu.mem[cpu.pc as usize + 1] = 0x30;
    cpu.mem[2] = 0x10;
    cpu.xr = 0x12;
    cpu.mem[0x1030 + 0x12] = 0xaa;
    let actual = absolute_x_immutable(&cpu);
    assert_eq!(0xaa, cpu.mem[actual as usize]);
    cpu.mem[actual as usize] = 0xff;
    assert_eq!(0xff, cpu.mem[actual as usize]);
}

#[test]
fn test_relative() {
    let mut cpu = Mos6502::default();
    cpu.pc = 0x00f8;
    cpu.mem[cpu.pc as usize + 1] = 0xf9;
    let actual = relative(&cpu);
    assert_eq!(0xf1, actual)
}

#[test]
fn test_zero_page_y() {
    let mut cpu = Mos6502::default();
    cpu.pc = 30;
    cpu.mem[31] = 0xaa;
    cpu.yr = 0x1;
    cpu.mem[0xaa + 0x1] = 0x12;
    let actual = zero_page_y(&cpu);
    assert_eq!(0x12, actual);
}

#[test]
fn zero_page_x_wraps_inside_page_zero() {
    let mut cpu = Mos6502::default();
    cpu.mem[1] = 0xff;
    cpu.xr = 0x02;
    let actual = zero_page_x_immutable(&cpu);
    assert_eq!(0x01, actual);
    assert_ne!(0x0101, actual);
}

#[test]
fn relative_keeps_high_byte_of_pc() {
    let mut cpu = Mos6502::default();
    cpu.pc = 0x12f8;
    cpu.mem[cpu.pc as usize + 1] = 0xf9;
    let actual = relative(&cpu);
    assert_eq!(0x12f1, actual);
}

#[test]
fn absolute_x_crosses_pages_with_full_width() {
    let mut cpu = Mos6502::default();
    cpu.mem[1] = 0xff;
    cpu.mem[2] = 0x00;
    cpu.xr = 0x02;
    let actual = absolute_x_immutable(&cpu);
    assert_eq!(0x0101, actual);
}

#[test]
fn indirect_x_pointer_wraps_inside_page_zero() {
    let mut cpu = Mos6502::default();
    cpu.mem[1] = 0xfe;
    cpu.xr = 0x01;
    cpu.mem[0xff] = 0x34;
    cpu.mem[0x00] = 0x12;
    cpu.mem[0x1234] = 0x99;
    let actual = indirect_x(&cpu);
    assert_eq!(0x99, actual);
}
