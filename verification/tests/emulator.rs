//! The execution loop: stepping, the fail-fast halt on an illegal
//! opcode, and whole programs run to their halt.

use mos6502::parser::InvalidOpcodeError;
use mos6502::Mos6502;

#[test]
fn illegal_opcode_halts_and_reports() {
    let mut cpu = Mos6502::default();
    cpu.pc = 0x0040;
    cpu.mem[0x0040] = 0x02;
    cpu.ac = 0x55;
    cpu.power_on = true;
    let r = cpu.step();
    assert_eq!(Some(InvalidOpcodeError { opcode: 0x02 }), r);
    assert!(!cpu.power_on);
    // The halt leaves the state inspectable: the program counter still
    // names the offending address and the registers keep their values.
    assert_eq!(0x0040, cpu.pc);
    assert_eq!(0x55, cpu.ac);
    assert_eq!(0x02, cpu.mem[0x0040]);
}

#[test]
fn legal_step_reports_nothing() {
    let mut cpu = Mos6502::default();
    cpu.mem[0] = 0xea;
    let r = cpu.step();
    assert!(r.is_none());
}

#[test]
fn start_runs_until_an_illegal_opcode() {
    // LDA #$05; TAX; INX; then a byte with no documented instruction.
    let mut cpu = Mos6502::default();
    cpu.mem[0] = 0xa9;
    cpu.mem[1] = 0x05;
    cpu.mem[2] = 0xaa;
    cpu.mem[3] = 0xe8;
    cpu.mem[4] = 0x02;
    cpu.start();
    assert!(!cpu.power_on);
    assert_eq!(4, cpu.pc);
    assert_eq!(0x05, cpu.ac);
    assert_eq!(0x06, cpu.xr);
}

#[test]
fn start_executes_a_counting_loop() {
    // LDX #$03; loop: INC $40; DEX; BNE loop; illegal halt.
    let mut cpu = Mos6502::default();
    cpu.mem[0] = 0xa2;
    cpu.mem[1] = 0x03;
    cpu.mem[2] = 0xe6;
    cpu.mem[3] = 0x40;
    cpu.mem[4] = 0xca;
    cpu.mem[5] = 0xd0;
    cpu.mem[6] = 0xfd; // back to the INC at address 2: the branch sits at 5, and 5 - 3 = 2
    cpu.mem[7] = 0x02;
    cpu.start();
    assert!(!cpu.power_on);
    assert_eq!(0x03, cpu.mem[0x40]);
    assert_eq!(0x00, cpu.xr);
    assert_eq!(7, cpu.pc);
}

#[test]
fn stop_clears_the_lifecycle_flag_only() {
    let mut cpu = Mos6502::default();
    cpu.power_on = true;
    cpu.pc = 0x1234;
    cpu.ac = 0x9a;
    cpu.stop();
    assert!(!cpu.power_on);
    assert_eq!(0x1234, cpu.pc);
    assert_eq!(0x9a, cpu.ac);
}

#[test]
fn power_on_state_is_zeroed() {
    let cpu = Mos6502::default();
    assert_eq!(0, cpu.pc);
    assert_eq!(0, cpu.sp);
    assert_eq!(0, cpu.ac);
    assert_eq!(0, cpu.xr);
    assert_eq!(0, cpu.yr);
    assert_eq!(0, cpu.sr);
    assert!(!cpu.power_on);
    assert_eq!(0x10000, cpu.mem.len());
    assert!(cpu.mem.iter().all(|b| *b == 0));
}
