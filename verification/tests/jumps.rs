//! The jump instructions, including the page-wrap bug of the indirect
//! jump: when the pointer's low byte is `0xFF`, the second pointer byte
//! comes from the start of the same page, never the next one.

use mos6502::insset::misc::{JmpAbs, JmpInd};
use mos6502::insset::{InsAttr, Mos6502Ins};
use mos6502::Mos6502;

#[test]
#[allow(non_snake_case)]
fn JmpInd_should_jump_indirect() {
    let mut cpu = Mos6502::default();
    cpu.mem[cpu.pc as usize + 1] = 0xfe;
    cpu.mem[cpu.pc as usize + 2] = 0x02;
    cpu.mem[0x02fe] = 0xaa;
    cpu.mem[0x02ff] = 0xaa;
    let ins = JmpInd {
        attr: InsAttr::new(0x0, 0x2, 0x1),
    };
    ins.execute(&mut cpu);
    assert_eq!(0xaaaa, cpu.pc)
}

#[test]
#[allow(non_snake_case)]
fn JmpInd_should_jump_indirect_and_not_turn_page() {
    let mut cpu = Mos6502::default();
    cpu.mem[cpu.pc as usize + 1] = 0xff;
    cpu.mem[cpu.pc as usize + 2] = 0x02;
    cpu.mem[0x02ff] = 0xaa;
    cpu.mem[0x0200] = 0xaa;
    let ins = JmpInd {
        attr: InsAttr::new(0x0, 0x2, 0x1),
    };
    ins.execute(&mut cpu);
    assert_eq!(0xaaaa, cpu.pc)
}

#[test]
fn indirect_jump_follows_the_wrapped_pointer_pair() {
    let mut cpu = Mos6502::default();
    cpu.pc = 0x0400;
    cpu.mem[0x0400] = 0x6c;
    cpu.mem[0x0401] = 0xff;
    cpu.mem[0x0402] = 0x02;
    cpu.mem[0x02ff] = 0x34;
    cpu.mem[0x0200] = 0x12;
    cpu.mem[0x0300] = 0x99;
    let r = cpu.step();
    assert!(r.is_none());
    assert_eq!(0x1234, cpu.pc);
}

#[test]
fn absolute_jump_sets_pc_to_operand() {
    let mut cpu = Mos6502::default();
    cpu.pc = 0x0100;
    cpu.mem[0x0101] = 0x34;
    cpu.mem[0x0102] = 0x12;
    let ins = JmpAbs {
        attr: InsAttr::new(0x4c, 3, 3),
    };
    ins.execute(&mut cpu);
    assert_eq!(0x1234, cpu.pc);
}
