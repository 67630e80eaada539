//! Per-instruction semantics: arithmetic, flags, shifts, rotations,
//! loads, stores, transfers and the stack family, each against exact
//! expected values.

use mos6502::constant::{
    CARRY_ON_MASK, DECIMAL_ON_MASK, INTERRUPT_ON_MASK, NEGATIVE_ON_MASK, OVERFLOW_ON_MASK,
    ZERO_ON_MASK,
};
use mos6502::insset::utils::{
    pop_stack, push_stack, update_break_flag, update_decimal_flag, update_interrupt_flag,
};
use mos6502::Mos6502;

/// A processor with a program placed at an address and started there.
fn cpu_with(pc: u16, prog: &[u8]) -> Mos6502 {
    let mut cpu = Mos6502::default();
    cpu.pc = pc;
    for (i, b) in prog.iter().enumerate() {
        cpu.mem[pc as usize + i] = *b;
    }
    cpu
}

fn flag(cpu: &Mos6502, mask: u8) -> bool {
    cpu.sr & mask != 0
}

#[test]
fn lda_immediate_then_break_scenario() {
    let mut cpu = cpu_with(0, &[0xa9, 0x05, 0x00]);
    let r = cpu.step();
    assert!(r.is_none());
    assert_eq!(0x05, cpu.ac);
    assert!(!flag(&cpu, ZERO_ON_MASK));
    assert!(!flag(&cpu, NEGATIVE_ON_MASK));
    assert_eq!(2, cpu.pc);
}

#[test]
fn adc_signed_overflow_scenario() {
    let mut cpu = cpu_with(0, &[0x69, 0x01]);
    cpu.ac = 0x7f;
    cpu.step();
    assert_eq!(0x80, cpu.ac);
    assert!(flag(&cpu, OVERFLOW_ON_MASK));
    assert!(flag(&cpu, NEGATIVE_ON_MASK));
    assert!(!flag(&cpu, CARRY_ON_MASK));
}

#[test]
fn cmp_equal_scenario() {
    let mut cpu = cpu_with(0, &[0xc9, 0xff]);
    cpu.ac = 0xff;
    cpu.step();
    assert!(flag(&cpu, CARRY_ON_MASK));
    assert!(flag(&cpu, ZERO_ON_MASK));
    assert!(!flag(&cpu, NEGATIVE_ON_MASK));
    assert_eq!(0xff, cpu.ac);
}

#[test]
fn adc_matches_native_addition_for_all_pairs() {
    let mut cpu = Mos6502::default();
    for a in 0..=255u8 {
        for b in 0..=255u8 {
            cpu.pc = 0;
            cpu.mem[0] = 0x69;
            cpu.mem[1] = b;
            cpu.ac = a;
            cpu.sr = 0;
            cpu.step();
            let (sum, carried) = a.overflowing_add(b);
            assert_eq!(sum, cpu.ac);
            assert_eq!(carried, flag(&cpu, CARRY_ON_MASK));
            assert_eq!(sum == 0, flag(&cpu, ZERO_ON_MASK));
            assert_eq!(sum >= 0x80, flag(&cpu, NEGATIVE_ON_MASK));
            let expected_overflow = (a >= 0x80) == (b >= 0x80) && (a >= 0x80) != (sum >= 0x80);
            assert_eq!(expected_overflow, flag(&cpu, OVERFLOW_ON_MASK));
        }
    }
}

#[test]
fn adc_zero_changes_only_zero_and_negative() {
    let mut cpu = Mos6502::default();
    for a in 0..=255u8 {
        cpu.pc = 0;
        cpu.mem[0] = 0x69;
        cpu.mem[1] = 0x00;
        cpu.ac = a;
        cpu.sr = 0;
        cpu.step();
        assert_eq!(a, cpu.ac);
        assert_eq!(0, cpu.sr & !(ZERO_ON_MASK | NEGATIVE_ON_MASK));
        assert_eq!(a == 0, flag(&cpu, ZERO_ON_MASK));
        assert_eq!(a >= 0x80, flag(&cpu, NEGATIVE_ON_MASK));
    }
}

#[test]
fn adc_resolves_every_addressing_mode() {
    let mut cpu = cpu_with(0, &[0x65, 0x40]);
    cpu.mem[0x40] = 7;
    cpu.ac = 3;
    cpu.step();
    assert_eq!(10, cpu.ac);

    let mut cpu = cpu_with(0, &[0x75, 0x40]);
    cpu.xr = 2;
    cpu.mem[0x42] = 7;
    cpu.ac = 3;
    cpu.step();
    assert_eq!(10, cpu.ac);

    let mut cpu = cpu_with(0, &[0x6d, 0x34, 0x12]);
    cpu.mem[0x1234] = 7;
    cpu.ac = 3;
    cpu.step();
    assert_eq!(10, cpu.ac);

    let mut cpu = cpu_with(0, &[0x7d, 0x34, 0x12]);
    cpu.xr = 1;
    cpu.mem[0x1235] = 7;
    cpu.ac = 3;
    cpu.step();
    assert_eq!(10, cpu.ac);

    let mut cpu = cpu_with(0, &[0x79, 0x34, 0x12]);
    cpu.yr = 2;
    cpu.mem[0x1236] = 7;
    cpu.ac = 3;
    cpu.step();
    assert_eq!(10, cpu.ac);

    let mut cpu = cpu_with(0, &[0x61, 0x70]);
    cpu.xr = 0x10;
    cpu.mem[0x80] = 0x00;
    cpu.mem[0x81] = 0x20;
    cpu.mem[0x2000] = 7;
    cpu.ac = 3;
    cpu.step();
    assert_eq!(10, cpu.ac);

    let mut cpu = cpu_with(0, &[0x71, 0x70]);
    cpu.mem[0x70] = 0x00;
    cpu.mem[0x71] = 0x20;
    cpu.yr = 5;
    cpu.mem[0x2005] = 7;
    cpu.ac = 3;
    cpu.step();
    assert_eq!(10, cpu.ac);
}

#[test]
fn ldx_zero_page_y_indexes_with_y() {
    let mut cpu = cpu_with(0, &[0xb6, 0x40]);
    cpu.yr = 1;
    cpu.mem[0x41] = 0x99;
    cpu.step();
    assert_eq!(0x99, cpu.xr);
    assert!(flag(&cpu, NEGATIVE_ON_MASK));
    assert_eq!(2, cpu.pc);
}

#[test]
fn adc_uses_the_incoming_carry() {
    let mut cpu = cpu_with(0, &[0x69, 0x01]);
    cpu.ac = 0x01;
    cpu.sr = CARRY_ON_MASK;
    cpu.step();
    assert_eq!(0x03, cpu.ac);
    assert!(!flag(&cpu, CARRY_ON_MASK));
}

#[test]
fn sbc_subtracts_with_borrow_clear() {
    let mut cpu = cpu_with(0, &[0xe9, 0x03]);
    cpu.ac = 0x05;
    cpu.sr = CARRY_ON_MASK;
    cpu.step();
    assert_eq!(0x02, cpu.ac);
    assert!(flag(&cpu, CARRY_ON_MASK));
    assert!(!flag(&cpu, ZERO_ON_MASK));
}

#[test]
fn sbc_borrows_when_operand_is_larger() {
    let mut cpu = cpu_with(0, &[0xe9, 0x06]);
    cpu.ac = 0x05;
    cpu.sr = CARRY_ON_MASK;
    cpu.step();
    assert_eq!(0xff, cpu.ac);
    assert!(!flag(&cpu, CARRY_ON_MASK));
    assert!(flag(&cpu, NEGATIVE_ON_MASK));
}

#[test]
fn and_masks_the_accumulator() {
    let mut cpu = cpu_with(0, &[0x29, 0x0f]);
    cpu.ac = 0xf3;
    cpu.step();
    assert_eq!(0x03, cpu.ac);
    assert!(!flag(&cpu, ZERO_ON_MASK));
    assert!(!flag(&cpu, NEGATIVE_ON_MASK));
    assert_eq!(2, cpu.pc);
}

#[test]
fn ora_merges_into_the_accumulator() {
    let mut cpu = cpu_with(0, &[0x09, 0x80]);
    cpu.ac = 0x01;
    cpu.step();
    assert_eq!(0x81, cpu.ac);
    assert!(flag(&cpu, NEGATIVE_ON_MASK));
}

#[test]
fn eor_flips_bits_of_the_accumulator() {
    let mut cpu = cpu_with(0, &[0x49, 0xff]);
    cpu.ac = 0xff;
    cpu.step();
    assert_eq!(0x00, cpu.ac);
    assert!(flag(&cpu, ZERO_ON_MASK));
}

#[test]
fn asl_accumulator_shifts_into_the_carry() {
    let mut cpu = cpu_with(0, &[0x0a]);
    cpu.ac = 0x81;
    cpu.step();
    assert_eq!(0x02, cpu.ac);
    assert!(flag(&cpu, CARRY_ON_MASK));
    assert!(!flag(&cpu, NEGATIVE_ON_MASK));
    assert_eq!(1, cpu.pc);
}

#[test]
fn asl_memory_shifts_in_place() {
    let mut cpu = cpu_with(0, &[0x06, 0x40]);
    cpu.mem[0x40] = 0x40;
    cpu.step();
    assert_eq!(0x80, cpu.mem[0x40]);
    assert!(!flag(&cpu, CARRY_ON_MASK));
    assert!(flag(&cpu, NEGATIVE_ON_MASK));
}

#[test]
fn lsr_shifts_bit_zero_into_the_carry() {
    let mut cpu = cpu_with(0, &[0x4a]);
    cpu.ac = 0x01;
    cpu.step();
    assert_eq!(0x00, cpu.ac);
    assert!(flag(&cpu, CARRY_ON_MASK));
    assert!(flag(&cpu, ZERO_ON_MASK));
}

#[test]
fn rol_feeds_the_old_carry_into_bit_zero() {
    let mut cpu = cpu_with(0, &[0x2a]);
    cpu.ac = 0x80;
    cpu.sr = CARRY_ON_MASK;
    cpu.step();
    assert_eq!(0x01, cpu.ac);
    assert!(flag(&cpu, CARRY_ON_MASK));
}

#[test]
fn ror_feeds_the_old_carry_into_bit_seven() {
    let mut cpu = cpu_with(0, &[0x6a]);
    cpu.ac = 0x01;
    cpu.sr = CARRY_ON_MASK;
    cpu.step();
    assert_eq!(0x80, cpu.ac);
    assert!(flag(&cpu, CARRY_ON_MASK));
    assert!(flag(&cpu, NEGATIVE_ON_MASK));
}

#[test]
fn bit_copies_operand_bits_into_the_flags() {
    let mut cpu = cpu_with(0, &[0x24, 0x40]);
    cpu.mem[0x40] = 0xc0;
    cpu.ac = 0x0f;
    cpu.step();
    assert!(flag(&cpu, ZERO_ON_MASK));
    assert!(flag(&cpu, NEGATIVE_ON_MASK));
    assert!(flag(&cpu, OVERFLOW_ON_MASK));
    assert_eq!(0x0f, cpu.ac);
}

#[test]
fn taken_branch_moves_to_the_relative_target() {
    let mut cpu = cpu_with(0x0010, &[0xd0, 0x05]);
    cpu.step();
    assert_eq!(0x0015, cpu.pc);
}

#[test]
fn untaken_branch_advances_past_the_instruction() {
    let mut cpu = cpu_with(0x0010, &[0xd0, 0x05]);
    cpu.sr = ZERO_ON_MASK;
    cpu.step();
    assert_eq!(0x0012, cpu.pc);
}

#[test]
fn branches_test_exactly_their_flag() {
    // Each entry: opcode, the status byte that takes the branch, and the
    // one that does not.
    let cases: Vec<(u8, u8, u8)> = vec![
        (0x90, 0, CARRY_ON_MASK),
        (0xb0, CARRY_ON_MASK, 0),
        (0xf0, ZERO_ON_MASK, 0),
        (0xd0, 0, ZERO_ON_MASK),
        (0x30, NEGATIVE_ON_MASK, 0),
        (0x10, 0, NEGATIVE_ON_MASK),
        (0x50, 0, OVERFLOW_ON_MASK),
        (0x70, OVERFLOW_ON_MASK, 0),
    ];
    for (op, taken_sr, untaken_sr) in cases {
        let mut cpu = cpu_with(0x0020, &[op, 0x06]);
        cpu.sr = taken_sr;
        cpu.step();
        assert_eq!(0x0026, cpu.pc);
        assert_eq!(taken_sr, cpu.sr);
        let mut cpu = cpu_with(0x0020, &[op, 0x06]);
        cpu.sr = untaken_sr;
        cpu.step();
        assert_eq!(0x0022, cpu.pc);
        assert_eq!(untaken_sr, cpu.sr);
    }
}

#[test]
fn branch_offset_wraps_in_the_low_byte_only() {
    let mut cpu = cpu_with(0x12f8, &[0xd0, 0xf9]);
    cpu.step();
    assert_eq!(0x12f1, cpu.pc);
}

#[test]
fn inc_and_dec_wrap_in_memory() {
    let mut cpu = cpu_with(0, &[0xe6, 0x40]);
    cpu.mem[0x40] = 0xff;
    cpu.step();
    assert_eq!(0x00, cpu.mem[0x40]);
    assert!(flag(&cpu, ZERO_ON_MASK));

    let mut cpu = cpu_with(0, &[0xc6, 0x40]);
    cpu.mem[0x40] = 0x00;
    cpu.step();
    assert_eq!(0xff, cpu.mem[0x40]);
    assert!(flag(&cpu, NEGATIVE_ON_MASK));
}

#[test]
fn register_increments_and_decrements_wrap() {
    let mut cpu = cpu_with(0, &[0xe8]);
    cpu.xr = 0xff;
    cpu.step();
    assert_eq!(0x00, cpu.xr);
    assert!(flag(&cpu, ZERO_ON_MASK));

    let mut cpu = cpu_with(0, &[0xca]);
    cpu.xr = 0x00;
    cpu.step();
    assert_eq!(0xff, cpu.xr);
    assert!(flag(&cpu, NEGATIVE_ON_MASK));

    let mut cpu = cpu_with(0, &[0xc8]);
    cpu.yr = 0x7f;
    cpu.step();
    assert_eq!(0x80, cpu.yr);
    assert!(flag(&cpu, NEGATIVE_ON_MASK));

    let mut cpu = cpu_with(0, &[0x88]);
    cpu.yr = 0x01;
    cpu.step();
    assert_eq!(0x00, cpu.yr);
    assert!(flag(&cpu, ZERO_ON_MASK));
}

#[test]
fn loads_set_zero_and_negative() {
    let mut cpu = cpu_with(0, &[0xa2, 0x00]);
    cpu.xr = 0x55;
    cpu.step();
    assert_eq!(0x00, cpu.xr);
    assert!(flag(&cpu, ZERO_ON_MASK));

    let mut cpu = cpu_with(0, &[0xa0, 0x90]);
    cpu.step();
    assert_eq!(0x90, cpu.yr);
    assert!(flag(&cpu, NEGATIVE_ON_MASK));
}

#[test]
fn cpx_and_cpy_compare_the_index_registers() {
    let mut cpu = cpu_with(0, &[0xe0, 0x10]);
    cpu.xr = 0x20;
    cpu.step();
    assert!(flag(&cpu, CARRY_ON_MASK));
    assert!(!flag(&cpu, ZERO_ON_MASK));

    let mut cpu = cpu_with(0, &[0xc0, 0x30]);
    cpu.yr = 0x20;
    cpu.step();
    assert!(!flag(&cpu, CARRY_ON_MASK));
    assert!(flag(&cpu, NEGATIVE_ON_MASK));
}

#[test]
fn cmp_negative_follows_the_wrapped_difference() {
    // 0xff - 0x7f leaves 0x80: negative set even though the register is
    // the larger value.
    let mut cpu = cpu_with(0, &[0xc9, 0x7f]);
    cpu.ac = 0xff;
    cpu.step();
    assert!(flag(&cpu, CARRY_ON_MASK));
    assert!(flag(&cpu, NEGATIVE_ON_MASK));
    assert!(!flag(&cpu, ZERO_ON_MASK));
}

#[test]
fn stores_write_without_touching_flags() {
    let mut cpu = cpu_with(0, &[0x85, 0x40]);
    cpu.ac = 0x99;
    cpu.sr = ZERO_ON_MASK;
    cpu.step();
    assert_eq!(0x99, cpu.mem[0x40]);
    assert_eq!(ZERO_ON_MASK, cpu.sr);
    assert_eq!(2, cpu.pc);

    let mut cpu = cpu_with(0, &[0x86, 0x41]);
    cpu.xr = 0x77;
    cpu.step();
    assert_eq!(0x77, cpu.mem[0x41]);

    let mut cpu = cpu_with(0, &[0x84, 0x42]);
    cpu.yr = 0x66;
    cpu.step();
    assert_eq!(0x66, cpu.mem[0x42]);
}

#[test]
fn sta_indirect_indexed_writes_through_the_pointer() {
    let mut cpu = cpu_with(0, &[0x91, 0x70]);
    cpu.mem[0x70] = 0x20;
    cpu.mem[0x71] = 0x10;
    cpu.yr = 0x10;
    cpu.ac = 0xab;
    cpu.step();
    assert_eq!(0xab, cpu.mem[0x1030]);
}

#[test]
fn transfers_copy_registers_and_set_flags() {
    let mut cpu = cpu_with(0, &[0xaa]);
    cpu.ac = 0x80;
    cpu.step();
    assert_eq!(0x80, cpu.xr);
    assert!(flag(&cpu, NEGATIVE_ON_MASK));

    let mut cpu = cpu_with(0, &[0xa8]);
    cpu.ac = 0x00;
    cpu.step();
    assert_eq!(0x00, cpu.yr);
    assert!(flag(&cpu, ZERO_ON_MASK));

    let mut cpu = cpu_with(0, &[0x8a]);
    cpu.xr = 0x12;
    cpu.step();
    assert_eq!(0x12, cpu.ac);

    let mut cpu = cpu_with(0, &[0x98]);
    cpu.yr = 0x34;
    cpu.step();
    assert_eq!(0x34, cpu.ac);

    let mut cpu = cpu_with(0, &[0xba]);
    cpu.sp = 0xf0;
    cpu.step();
    assert_eq!(0xf0, cpu.xr);
    assert!(flag(&cpu, NEGATIVE_ON_MASK));
}

#[test]
fn txs_changes_no_flag() {
    let mut cpu = cpu_with(0, &[0x9a]);
    cpu.xr = 0x00;
    cpu.sr = 0x00;
    cpu.step();
    assert_eq!(0x00, cpu.sp);
    assert_eq!(0x00, cpu.sr);
    assert_eq!(1, cpu.pc);
}

#[test]
fn flag_instructions_force_single_bits() {
    let mut cpu = cpu_with(0, &[0x38, 0xf8, 0x78]);
    cpu.step();
    cpu.step();
    cpu.step();
    assert_eq!(CARRY_ON_MASK | DECIMAL_ON_MASK | INTERRUPT_ON_MASK, cpu.sr);

    let mut cpu = cpu_with(0, &[0x18, 0xd8, 0x58, 0xb8]);
    cpu.sr = 0xff;
    cpu.step();
    cpu.step();
    cpu.step();
    cpu.step();
    assert_eq!(
        0xff & !(CARRY_ON_MASK | DECIMAL_ON_MASK | INTERRUPT_ON_MASK | OVERFLOW_ON_MASK),
        cpu.sr
    );
}

#[test]
fn nop_only_advances() {
    let mut cpu = cpu_with(0, &[0xea]);
    cpu.sr = 0x55;
    cpu.step();
    assert_eq!(1, cpu.pc);
    assert_eq!(0x55, cpu.sr);
}

#[test]
fn flag_accessors_read_single_bits() {
    let mut cpu = Mos6502::default();
    cpu.sr = CARRY_ON_MASK | NEGATIVE_ON_MASK;
    assert!(cpu.carry_flag());
    assert!(cpu.negative_flag());
    assert!(!cpu.zero_flag());
    assert!(!cpu.interrupt_flag());
    assert!(!cpu.decimal_flag());
    assert!(!cpu.break_flag());
    assert!(!cpu.overflow_flag());
    cpu.sr = ZERO_ON_MASK | OVERFLOW_ON_MASK;
    assert!(cpu.zero_flag());
    assert!(cpu.overflow_flag());
    assert!(!cpu.carry_flag());
    assert!(!cpu.negative_flag());
}

#[test]
fn flag_updates_never_disturb_other_bits() {
    let mut cpu = Mos6502::default();
    cpu.sr = CARRY_ON_MASK | NEGATIVE_ON_MASK;
    update_break_flag(&mut cpu, true);
    assert!(cpu.break_flag());
    assert!(cpu.carry_flag());
    assert!(cpu.negative_flag());
    update_decimal_flag(&mut cpu, true);
    update_interrupt_flag(&mut cpu, true);
    assert!(cpu.decimal_flag());
    assert!(cpu.interrupt_flag());
    update_break_flag(&mut cpu, false);
    assert!(!cpu.break_flag());
    assert!(cpu.decimal_flag());
    assert!(cpu.interrupt_flag());
    assert!(cpu.carry_flag());
    assert!(cpu.negative_flag());
}

#[test]
fn push_then_pop_restores_sp_and_returns_the_byte() {
    let mut cpu = Mos6502::default();
    cpu.sp = 0x80;
    push_stack(&mut cpu, 0xab);
    assert_eq!(0x7f, cpu.sp);
    assert_eq!(0xab, cpu.mem[0x0180]);
    let v = pop_stack(&mut cpu);
    assert_eq!(0xab, v);
    assert_eq!(0x80, cpu.sp);
}

#[test]
fn stack_index_wraps_inside_page_one() {
    let mut cpu = Mos6502::default();
    cpu.sp = 0x00;
    push_stack(&mut cpu, 0x11);
    assert_eq!(0xff, cpu.sp);
    assert_eq!(0x11, cpu.mem[0x0100]);
    let v = pop_stack(&mut cpu);
    assert_eq!(0x11, v);
    assert_eq!(0x00, cpu.sp);
}

#[test]
fn pha_pla_round_trip_through_the_stack() {
    let mut cpu = cpu_with(0, &[0x48, 0xa9, 0x00, 0x68]);
    cpu.ac = 0x42;
    cpu.sp = 0xff;
    cpu.step();
    assert_eq!(0xfe, cpu.sp);
    assert_eq!(0x42, cpu.mem[0x01ff]);
    cpu.step();
    assert_eq!(0x00, cpu.ac);
    cpu.step();
    assert_eq!(0x42, cpu.ac);
    assert_eq!(0xff, cpu.sp);
}

#[test]
fn php_plp_round_trip_the_status_byte() {
    let mut cpu = cpu_with(0, &[0x08, 0x38, 0x28]);
    cpu.sr = NEGATIVE_ON_MASK | ZERO_ON_MASK;
    cpu.sp = 0xff;
    cpu.step();
    cpu.step();
    assert!(flag(&cpu, CARRY_ON_MASK));
    cpu.step();
    assert_eq!(NEGATIVE_ON_MASK | ZERO_ON_MASK, cpu.sr);
}

#[test]
fn jsr_then_rts_resumes_after_the_call() {
    let mut cpu = cpu_with(0x0300, &[0x20, 0x34, 0x12]);
    cpu.mem[0x1234] = 0x60;
    cpu.sp = 0xff;
    cpu.step();
    assert_eq!(0x1234, cpu.pc);
    assert_eq!(0xfd, cpu.sp);
    assert_eq!(0x03, cpu.mem[0x01ff]);
    assert_eq!(0x02, cpu.mem[0x01fe]);
    cpu.step();
    assert_eq!(0x0303, cpu.pc);
    assert_eq!(0xff, cpu.sp);
}

#[test]
fn brk_pushes_state_and_jumps_through_the_vector() {
    let mut cpu = cpu_with(0x0200, &[0x00]);
    cpu.sp = 0xff;
    cpu.sr = CARRY_ON_MASK;
    cpu.mem[0xfffe] = 0x34;
    cpu.mem[0xffff] = 0x12;
    cpu.step();
    assert_eq!(0x1234, cpu.pc);
    assert_eq!(0xfc, cpu.sp);
    assert_eq!(0x02, cpu.mem[0x01ff]);
    assert_eq!(0x02, cpu.mem[0x01fe]);
    assert_eq!(CARRY_ON_MASK | 0b0001_0000, cpu.mem[0x01fd]);
    assert!(flag(&cpu, INTERRUPT_ON_MASK));
}

#[test]
fn rti_restores_status_and_resumes() {
    let mut cpu = cpu_with(0x0500, &[0x40]);
    cpu.sp = 0xfc;
    cpu.mem[0x01fd] = ZERO_ON_MASK;
    cpu.mem[0x01fe] = 0x34;
    cpu.mem[0x01ff] = 0x12;
    cpu.step();
    assert_eq!(0x1234, cpu.pc);
    assert_eq!(ZERO_ON_MASK, cpu.sr);
    assert_eq!(0xff, cpu.sp);
}
