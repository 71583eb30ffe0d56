use chip8::{decode, Chip8Error, Cpu, Mmu, Opcode};

fn machine_running(program: &[u8]) -> Cpu {
    let mut mmu = Mmu::new();
    mmu.load_rom(program).unwrap();
    Cpu::new(mmu)
}

fn run_steps(cpu: &mut Cpu, steps: usize) {
    for _ in 0..steps {
        assert_eq!(cpu.step_with(0), Ok(false));
    }
}

#[test]
fn new_cpu_is_zeroed_and_starts_at_512() {
    let cpu = machine_running(&[]);
    assert_eq!(cpu.pc(), 512);
    assert_eq!(cpu.index(), 0);
    assert_eq!(cpu.stack_depth(), 0);
    assert_eq!(cpu.delay_timer(), 0);
    assert_eq!(cpu.sound_timer(), 0);
    for x in 0..16 {
        assert_eq!(cpu.register(x), 0);
        assert!(!cpu.key(x));
    }
    assert_eq!(cpu.framebuffer(), &vec![0u8; 2048]);
    assert_eq!(cpu.pressed_key(), None);
}

#[test]
fn new_cpu_keeps_the_memory_it_was_given() {
    let cpu = machine_running(&[0xAB, 0xCD]);
    assert_eq!(cpu.mmu().read_word(512), Ok(0xABCD));
    assert_eq!(cpu.mmu().read_byte(0), Ok(0xF0));
    assert_eq!(cpu.fetch(), Ok(0xABCD));
}

#[test]
fn add_with_carry_sets_the_flag_on_overflow() {
    let mut cpu = machine_running(&[0x60, 0xFF, 0x61, 0x01, 0x80, 0x14]);
    run_steps(&mut cpu, 3);
    assert_eq!(cpu.register(0), 0x00);
    assert_eq!(cpu.register(0xF), 1);
    assert_eq!(cpu.pc(), 518);
}

#[test]
fn add_with_carry_clears_the_flag_without_overflow() {
    let mut cpu = machine_running(&[0x6F, 0x01, 0x60, 0x01, 0x61, 0x01, 0x80, 0x14]);
    run_steps(&mut cpu, 4);
    assert_eq!(cpu.register(0), 0x02);
    assert_eq!(cpu.register(1), 0x01);
    assert_eq!(cpu.register(0xF), 0);
}

#[test]
fn add_with_carry_at_the_edge_of_overflow() {
    let mut cpu = machine_running(&[]);
    cpu.ld_v(0, 0xFE);
    cpu.ld_v(1, 0x01);
    cpu.add_v_v(0, 1);
    assert_eq!(cpu.register(0), 0xFF);
    assert_eq!(cpu.register(0xF), 0);
    cpu.add_v_v(0, 1);
    assert_eq!(cpu.register(0), 0x00);
    assert_eq!(cpu.register(0xF), 1);
    cpu.ld_v(2, 0xFF);
    cpu.ld_v(3, 0xFF);
    cpu.add_v_v(2, 3);
    assert_eq!(cpu.register(2), 0xFE);
    assert_eq!(cpu.register(0xF), 1);
}

#[test]
fn subtract_wraps_and_clears_the_flag_when_vx_is_smaller() {
    let mut cpu = machine_running(&[0x60, 0x05, 0x61, 0x0A, 0x80, 0x15]);
    run_steps(&mut cpu, 3);
    assert_eq!(cpu.register(0), 0xFB);
    assert_eq!(cpu.register(1), 0x0A);
    assert_eq!(cpu.register(0xF), 0);
    assert_eq!(cpu.pc(), 518);
}

#[test]
fn subtract_sets_the_flag_only_when_vx_is_greater() {
    let mut cpu = machine_running(&[]);
    cpu.ld_v(0, 0x0A);
    cpu.ld_v(1, 0x05);
    cpu.sub_v_v(0, 1);
    assert_eq!(cpu.register(0), 0x05);
    assert_eq!(cpu.register(0xF), 1);
    cpu.sub_v_v(0, 1);
    assert_eq!(cpu.register(0), 0x00);
    assert_eq!(cpu.register(0xF), 0);
}

#[test]
fn reverse_subtract_takes_vx_from_vy() {
    let mut cpu = machine_running(&[]);
    cpu.ld_v(0, 0x05);
    cpu.ld_v(1, 0x0A);
    cpu.subn_v_v(0, 1);
    assert_eq!(cpu.register(0), 0x05);
    assert_eq!(cpu.register(0xF), 1);
    cpu.ld_v(0, 0x0B);
    cpu.subn_v_v(0, 1);
    assert_eq!(cpu.register(0), 0xFF);
    assert_eq!(cpu.register(0xF), 0);
}

#[test]
fn subtract_reads_the_flag_register_after_the_flag_was_written() {
    let mut cpu = machine_running(&[]);
    cpu.ld_v(0, 5);
    cpu.ld_v(0xF, 3);
    cpu.sub_v_v(0, 0xF);
    assert_eq!(cpu.register(0xF), 1);
    assert_eq!(cpu.register(0), 4);
}

#[test]
fn add_into_the_flag_register_leaves_the_carry_there() {
    let mut cpu = machine_running(&[]);
    cpu.ld_v(0xF, 0xFF);
    cpu.ld_v(1, 0x02);
    cpu.add_v_v(0xF, 1);
    assert_eq!(cpu.register(0xF), 1);
    cpu.ld_v(0xF, 0x10);
    cpu.add_v_v(0xF, 1);
    assert_eq!(cpu.register(0xF), 0);
}

#[test]
fn shift_right_puts_the_low_bit_in_the_flag() {
    let mut cpu = machine_running(&[0x60, 0x05, 0x80, 0x16, 0x80, 0x16]);
    run_steps(&mut cpu, 2);
    assert_eq!(cpu.register(0), 0x02);
    assert_eq!(cpu.register(0xF), 1);
    run_steps(&mut cpu, 1);
    assert_eq!(cpu.register(0), 0x01);
    assert_eq!(cpu.register(0xF), 0);
}

#[test]
fn shift_left_puts_the_high_bit_in_the_flag() {
    let mut cpu = machine_running(&[0x60, 0x81, 0x80, 0x1E, 0x80, 0x1E]);
    run_steps(&mut cpu, 2);
    assert_eq!(cpu.register(0), 0x02);
    assert_eq!(cpu.register(0xF), 1);
    run_steps(&mut cpu, 1);
    assert_eq!(cpu.register(0), 0x04);
    assert_eq!(cpu.register(0xF), 0);
}

#[test]
fn shifts_ignore_vy_and_the_low_byte_of_the_word() {
    let mut cpu = machine_running(&[]);
    cpu.ld_v(0, 0x04);
    cpu.ld_v(1, 0xFF);
    assert_eq!(cpu.execute(decode(0x8016).unwrap(), 0), Ok(()));
    assert_eq!(cpu.register(0), 0x02);
    assert_eq!(cpu.register(1), 0xFF);
    assert_eq!(cpu.register(0xF), 0);
}

#[test]
fn add_immediate_wraps_and_leaves_the_flag_alone() {
    let mut cpu = machine_running(&[0x6F, 0x07, 0x60, 0xFF, 0x70, 0x02]);
    run_steps(&mut cpu, 3);
    assert_eq!(cpu.register(0), 0x01);
    assert_eq!(cpu.register(0xF), 0x07);
    assert_eq!(cpu.pc(), 518);
}

#[test]
fn load_and_bitwise_instructions() {
    let mut cpu = machine_running(&[]);
    cpu.ld_v(0, 0b1100);
    cpu.ld_v(1, 0b1010);
    cpu.ld_v_v(2, 0);
    cpu.or_v_v(2, 1);
    assert_eq!(cpu.register(2), 0b1110);
    cpu.ld_v_v(3, 0);
    cpu.and_v_v(3, 1);
    assert_eq!(cpu.register(3), 0b1000);
    cpu.ld_v_v(4, 0);
    cpu.xor_v_v(4, 1);
    assert_eq!(cpu.register(4), 0b0110);
    assert_eq!(cpu.register(0), 0b1100);
    assert_eq!(cpu.register(1), 0b1010);
    assert_eq!(cpu.register(0xF), 0);
    assert_eq!(cpu.pc(), 512 + 2 * 8);
}

#[test]
fn an_instruction_that_advances_changes_only_what_it_writes() {
    let mut cpu = machine_running(&[0x12, 0x34]);
    cpu.ld_v(3, 0x33);
    cpu.ld_i(0x234);
    cpu.set_key(4, true);
    let before_video = cpu.framebuffer().clone();
    let pc = cpu.pc();
    cpu.ld_v(7, 0x77);
    assert_eq!(cpu.pc(), pc + 2);
    assert_eq!(cpu.register(7), 0x77);
    for x in 0..16 {
        if x != 7 && x != 3 {
            assert_eq!(cpu.register(x), 0);
        }
    }
    assert_eq!(cpu.register(3), 0x33);
    assert_eq!(cpu.index(), 0x234);
    assert_eq!(cpu.stack_depth(), 0);
    assert_eq!(cpu.delay_timer(), 0);
    assert_eq!(cpu.sound_timer(), 0);
    assert!(cpu.key(4));
    assert_eq!(cpu.framebuffer(), &before_video);
    assert_eq!(cpu.mmu().read_word(512), Ok(0x1234));
}

#[test]
fn skip_if_equal_to_byte_moves_by_two_or_four() {
    let mut cpu = machine_running(&[]);
    cpu.ld_v(2, 0x42);
    let pc = cpu.pc();
    cpu.se_v(2, 0x42);
    assert_eq!(cpu.pc(), pc + 4);
    cpu.se_v(2, 0x43);
    assert_eq!(cpu.pc(), pc + 6);
}

#[test]
fn skip_if_not_equal_to_byte_moves_by_two_or_four() {
    let mut cpu = machine_running(&[]);
    cpu.ld_v(2, 0x42);
    let pc = cpu.pc();
    cpu.sne_v(2, 0x42);
    assert_eq!(cpu.pc(), pc + 2);
    cpu.sne_v(2, 0x43);
    assert_eq!(cpu.pc(), pc + 6);
}

#[test]
fn skip_if_registers_equal_moves_by_two_or_four() {
    let mut cpu = machine_running(&[]);
    cpu.ld_v(1, 9);
    cpu.ld_v(2, 9);
    cpu.ld_v(3, 8);
    let pc = cpu.pc();
    cpu.se_v_v(1, 2);
    assert_eq!(cpu.pc(), pc + 4);
    cpu.se_v_v(1, 3);
    assert_eq!(cpu.pc(), pc + 6);
}

#[test]
fn skip_if_registers_differ_moves_by_two_or_four() {
    let mut cpu = machine_running(&[]);
    cpu.ld_v(1, 9);
    cpu.ld_v(2, 9);
    cpu.ld_v(3, 8);
    let pc = cpu.pc();
    cpu.sne_v_v(1, 2);
    assert_eq!(cpu.pc(), pc + 2);
    cpu.sne_v_v(1, 3);
    assert_eq!(cpu.pc(), pc + 6);
}

#[test]
fn skips_in_a_program_step_over_one_instruction() {
    // 6005; 3005 (skips the next); 6101 (skipped); 6202; 4005 (does not skip); 6303
    let mut cpu = machine_running(&[
        0x60, 0x05, 0x30, 0x05, 0x61, 0x01, 0x62, 0x02, 0x40, 0x05, 0x63, 0x03,
    ]);
    run_steps(&mut cpu, 5);
    assert_eq!(cpu.register(0), 5);
    assert_eq!(cpu.register(1), 0);
    assert_eq!(cpu.register(2), 2);
    assert_eq!(cpu.register(3), 3);
    assert_eq!(cpu.pc(), 512 + 12);
}

#[test]
fn jump_sets_the_program_counter() {
    let mut cpu = machine_running(&[0x1A, 0xBC]);
    run_steps(&mut cpu, 1);
    assert_eq!(cpu.pc(), 0xABC);
    assert_eq!(cpu.stack_depth(), 0);
}

#[test]
fn jump_with_offset_adds_v0() {
    let mut cpu = machine_running(&[0x60, 0x04, 0xB3, 0x00]);
    run_steps(&mut cpu, 2);
    assert_eq!(cpu.pc(), 0x304);
    let mut far = machine_running(&[0x60, 0xFF, 0xBF, 0xFF]);
    run_steps(&mut far, 2);
    assert_eq!(far.pc(), 0xFFF + 0xFF);
}

#[test]
fn call_then_return_lands_after_the_call() {
    let mut program = vec![0u8; 0x102];
    program[0] = 0x23;
    program[1] = 0x00;
    program[0x100] = 0x00;
    program[0x101] = 0xEE;
    let mut cpu = machine_running(&program);
    run_steps(&mut cpu, 1);
    assert_eq!(cpu.pc(), 0x300);
    assert_eq!(cpu.stack_depth(), 1);
    run_steps(&mut cpu, 1);
    assert_eq!(cpu.pc(), 0x202);
    assert_eq!(cpu.stack_depth(), 0);
}

#[test]
fn nested_calls_return_in_reverse_order() {
    let mut cpu = machine_running(&[]);
    assert_eq!(cpu.call(0x400), Ok(()));
    assert_eq!(cpu.call(0x600), Ok(()));
    assert_eq!(cpu.stack_depth(), 2);
    assert_eq!(cpu.pc(), 0x600);
    assert_eq!(cpu.ret(), Ok(()));
    assert_eq!(cpu.pc(), 0x402);
    assert_eq!(cpu.ret(), Ok(()));
    assert_eq!(cpu.pc(), 0x202);
    assert_eq!(cpu.stack_depth(), 0);
}

#[test]
fn return_on_an_empty_stack_underflows() {
    let mut cpu = machine_running(&[0x00, 0xEE]);
    assert_eq!(cpu.step_with(0), Err(Chip8Error::StackUnderflow));
    assert_eq!(cpu.pc(), 512);
    assert_eq!(cpu.stack_depth(), 0);
}

#[test]
fn seventeenth_nested_call_overflows() {
    let mut cpu = machine_running(&[0x22, 0x00]);
    for depth in 1..=16 {
        assert_eq!(cpu.step_with(0), Ok(false));
        assert_eq!(cpu.stack_depth(), depth);
    }
    assert_eq!(cpu.step_with(0), Err(Chip8Error::StackOverflow));
    assert_eq!(cpu.stack_depth(), 16);
    assert_eq!(cpu.pc(), 0x200);
    for _ in 0..16 {
        assert_eq!(cpu.ret(), Ok(()));
        assert_eq!(cpu.pc(), 0x202);
        cpu.jp(0x200);
    }
    assert_eq!(cpu.ret(), Err(Chip8Error::StackUnderflow));
}

#[test]
fn load_index_sets_i() {
    let mut cpu = machine_running(&[0xA1, 0x23]);
    run_steps(&mut cpu, 1);
    assert_eq!(cpu.index(), 0x123);
    assert_eq!(cpu.pc(), 514);
}

#[test]
fn add_to_index_adds_vx() {
    let mut cpu = machine_running(&[0xA1, 0x00, 0x60, 0x05, 0xF0, 0x1E]);
    run_steps(&mut cpu, 3);
    assert_eq!(cpu.index(), 0x105);
    assert_eq!(cpu.register(0xF), 0);
}

#[test]
fn add_to_index_wraps_at_sixteen_bits() {
    let mut cpu = machine_running(&[]);
    cpu.ld_i(0xFFF);
    cpu.ld_v(0, 0xFF);
    for _ in 0..240 {
        cpu.add_i_v(0);
    }
    assert_eq!(cpu.index(), 0xFFF + 240 * 0xFF);
    cpu.add_i_v(0);
    assert_eq!(cpu.index(), 14);
    assert_eq!(cpu.register(0xF), 0);
}

#[test]
fn font_address_is_five_times_the_digit() {
    let mut cpu = machine_running(&[0x60, 0x0A, 0xF0, 0x29]);
    run_steps(&mut cpu, 2);
    assert_eq!(cpu.index(), 50);
    assert_eq!(cpu.mmu().read_byte(50), Ok(0xF0));
    cpu.ld_v(1, 0xFF);
    cpu.ld_f_v(1);
    assert_eq!(cpu.index(), 1275);
}

#[test]
fn decimal_digits_of_157() {
    let mut cpu = machine_running(&[0x60, 0x9D, 0xA3, 0x00, 0xF0, 0x33]);
    run_steps(&mut cpu, 3);
    assert_eq!(cpu.mmu().read_byte(0x2FF), Ok(0));
    assert_eq!(cpu.mmu().read_byte(0x300), Ok(1));
    assert_eq!(cpu.mmu().read_byte(0x301), Ok(5));
    assert_eq!(cpu.mmu().read_byte(0x302), Ok(7));
    assert_eq!(cpu.mmu().read_byte(0x303), Ok(0));
    assert_eq!(cpu.index(), 0x300);
    assert_eq!(cpu.pc(), 518);
}

#[test]
fn decimal_digits_of_other_values() {
    let mut cpu = machine_running(&[]);
    cpu.ld_i(0x300);
    cpu.ld_v(0, 255);
    assert_eq!(cpu.ld_b_v(0), Ok(()));
    assert_eq!(cpu.mmu().read_byte(0x300), Ok(2));
    assert_eq!(cpu.mmu().read_byte(0x301), Ok(5));
    assert_eq!(cpu.mmu().read_byte(0x302), Ok(5));
    cpu.ld_v(0, 7);
    assert_eq!(cpu.ld_b_v(0), Ok(()));
    assert_eq!(cpu.mmu().read_byte(0x300), Ok(0));
    assert_eq!(cpu.mmu().read_byte(0x301), Ok(0));
    assert_eq!(cpu.mmu().read_byte(0x302), Ok(7));
    cpu.ld_v(0, 40);
    assert_eq!(cpu.ld_b_v(0), Ok(()));
    assert_eq!(cpu.mmu().read_byte(0x300), Ok(0));
    assert_eq!(cpu.mmu().read_byte(0x301), Ok(4));
    assert_eq!(cpu.mmu().read_byte(0x302), Ok(0));
}

#[test]
fn decimal_digits_at_the_end_of_memory() {
    let mut cpu = machine_running(&[]);
    cpu.ld_v(0, 123);
    cpu.ld_i(0xFFD);
    assert_eq!(cpu.ld_b_v(0), Ok(()));
    assert_eq!(cpu.mmu().read_byte(0xFFD), Ok(1));
    assert_eq!(cpu.mmu().read_byte(0xFFE), Ok(2));
    assert_eq!(cpu.mmu().read_byte(0xFFF), Ok(3));
    cpu.ld_v(0, 255);
    cpu.ld_i(0xFFE);
    let pc = cpu.pc();
    assert_eq!(cpu.ld_b_v(0), Err(Chip8Error::OutOfBounds { address: 0xFFE }));
    assert_eq!(cpu.mmu().read_byte(0xFFE), Ok(2));
    assert_eq!(cpu.mmu().read_byte(0xFFF), Ok(3));
    assert_eq!(cpu.pc(), pc);
}

#[test]
fn store_registers_writes_v0_to_vx() {
    let mut cpu = machine_running(&[]);
    for x in 0..16usize {
        cpu.ld_v(x, 0x10 + x as u8);
    }
    cpu.ld_i(0x300);
    assert_eq!(cpu.ld_i_v(3), Ok(()));
    assert_eq!(cpu.mmu().read_byte(0x2FF), Ok(0));
    assert_eq!(cpu.mmu().read_byte(0x300), Ok(0x10));
    assert_eq!(cpu.mmu().read_byte(0x301), Ok(0x11));
    assert_eq!(cpu.mmu().read_byte(0x302), Ok(0x12));
    assert_eq!(cpu.mmu().read_byte(0x303), Ok(0x13));
    assert_eq!(cpu.mmu().read_byte(0x304), Ok(0));
    assert_eq!(cpu.index(), 0x300);
    assert_eq!(cpu.ld_i_v(0xF), Ok(()));
    for x in 0..16usize {
        assert_eq!(cpu.mmu().read_byte(0x300 + x), Ok(0x10 + x as u8));
    }
    assert_eq!(cpu.mmu().read_byte(0x310), Ok(0));
}

#[test]
fn load_registers_reads_v0_to_vx() {
    let mut cpu = machine_running(&[0x0A, 0x0B, 0x0C, 0x0D]);
    for x in 0..16usize {
        cpu.ld_v(x, 0xEE);
    }
    cpu.ld_i(0x200);
    assert_eq!(cpu.ld_v_i(2), Ok(()));
    assert_eq!(cpu.register(0), 0x0A);
    assert_eq!(cpu.register(1), 0x0B);
    assert_eq!(cpu.register(2), 0x0C);
    for x in 3..16 {
        assert_eq!(cpu.register(x), 0xEE);
    }
    assert_eq!(cpu.index(), 0x200);
}

#[test]
fn store_then_load_registers_round_trips_through_a_program() {
    // 6011 6122 6233 A300 F255 6000 6100 6200 F265
    let mut cpu = machine_running(&[
        0x60, 0x11, 0x61, 0x22, 0x62, 0x33, 0xA3, 0x00, 0xF2, 0x55, 0x60, 0x00, 0x61, 0x00, 0x62,
        0x00, 0xF2, 0x65,
    ]);
    run_steps(&mut cpu, 8);
    assert_eq!(cpu.register(0), 0);
    assert_eq!(cpu.register(1), 0);
    assert_eq!(cpu.register(2), 0);
    run_steps(&mut cpu, 1);
    assert_eq!(cpu.register(0), 0x11);
    assert_eq!(cpu.register(1), 0x22);
    assert_eq!(cpu.register(2), 0x33);
    assert_eq!(cpu.register(3), 0);
}

#[test]
fn register_block_transfers_stop_at_the_end_of_memory() {
    let mut cpu = machine_running(&[]);
    cpu.ld_v(0, 1);
    cpu.ld_v(1, 2);
    cpu.ld_v(2, 3);
    cpu.ld_i(0xFFE);
    let pc = cpu.pc();
    assert_eq!(cpu.ld_i_v(2), Err(Chip8Error::OutOfBounds { address: 0xFFE }));
    assert_eq!(cpu.mmu().read_byte(0xFFE), Ok(0));
    assert_eq!(cpu.mmu().read_byte(0xFFF), Ok(0));
    assert_eq!(cpu.ld_v_i(2), Err(Chip8Error::OutOfBounds { address: 0xFFE }));
    assert_eq!(cpu.register(0), 1);
    assert_eq!(cpu.register(1), 2);
    assert_eq!(cpu.register(2), 3);
    assert_eq!(cpu.pc(), pc);
    assert_eq!(cpu.ld_i_v(1), Ok(()));
    assert_eq!(cpu.mmu().read_byte(0xFFE), Ok(1));
    assert_eq!(cpu.mmu().read_byte(0xFFF), Ok(2));
    cpu.ld_v(0, 0);
    cpu.ld_v(1, 0);
    assert_eq!(cpu.ld_v_i(1), Ok(()));
    assert_eq!(cpu.register(0), 1);
    assert_eq!(cpu.register(1), 2);
}

#[test]
fn random_byte_is_masked_by_kk() {
    let mut cpu = machine_running(&[0xC0, 0xF0, 0xC1, 0x0F, 0xC2, 0x00, 0xC3, 0xFF]);
    assert_eq!(cpu.step_with(0xAB), Ok(false));
    assert_eq!(cpu.register(0), 0xA0);
    assert_eq!(cpu.step_with(0xAB), Ok(false));
    assert_eq!(cpu.register(1), 0x0B);
    assert_eq!(cpu.step_with(0xAB), Ok(false));
    assert_eq!(cpu.register(2), 0x00);
    assert_eq!(cpu.step_with(0xAB), Ok(false));
    assert_eq!(cpu.register(3), 0xAB);
    assert_eq!(cpu.pc(), 520);
    assert_eq!(cpu.register(0xF), 0);
}

#[test]
fn random_byte_is_ignored_by_other_instructions() {
    let program = [0x60, 0x12, 0x70, 0x01, 0xA2, 0x22];
    let mut one = machine_running(&program);
    let mut other = machine_running(&program);
    for _ in 0..3 {
        assert_eq!(one.step_with(0x00), Ok(false));
        assert_eq!(other.step_with(0xFF), Ok(false));
    }
    assert_eq!(one.register(0), 0x13);
    assert_eq!(other.register(0), 0x13);
    assert_eq!(one.index(), other.index());
    assert_eq!(one.pc(), other.pc());
}

#[test]
fn step_draws_its_own_random_byte() {
    let mut program = Vec::new();
    for _ in 0..64 {
        program.push(0xC5);
        program.push(0x3C);
    }
    let mut cpu = machine_running(&program);
    let mut seen_nonzero = false;
    for count in 1..=64u16 {
        assert_eq!(cpu.step(), Ok(false));
        assert_eq!(cpu.register(5) & !0x3C, 0);
        assert_eq!(cpu.pc(), 512 + 2 * count);
        if cpu.register(5) != 0 {
            seen_nonzero = true;
        }
    }
    // Each draw is zero under the mask with probability 1/16.
    assert!(seen_nonzero);
}

#[test]
fn step_without_random_instruction_equals_step_with() {
    let program = [0x60, 0xFF, 0x61, 0x01, 0x80, 0x14, 0xF0, 0x18];
    let mut stepped = machine_running(&program);
    let mut fed = machine_running(&program);
    for _ in 0..4 {
        assert_eq!(stepped.step(), fed.step_with(0x5A));
    }
    for x in 0..16 {
        assert_eq!(stepped.register(x), fed.register(x));
    }
    assert_eq!(stepped.pc(), fed.pc());
    assert_eq!(stepped.sound_timer(), fed.sound_timer());
}

#[test]
fn skip_if_key_pressed() {
    let mut cpu = machine_running(&[]);
    cpu.ld_v(0, 5);
    let pc = cpu.pc();
    cpu.skp_v(0);
    assert_eq!(cpu.pc(), pc + 2);
    cpu.set_key(5, true);
    cpu.skp_v(0);
    assert_eq!(cpu.pc(), pc + 6);
    cpu.set_key(5, false);
    cpu.set_key(4, true);
    cpu.skp_v(0);
    assert_eq!(cpu.pc(), pc + 8);
}

#[test]
fn skip_if_key_not_pressed() {
    let mut cpu = machine_running(&[]);
    cpu.ld_v(0, 5);
    let pc = cpu.pc();
    cpu.sknp_v(0);
    assert_eq!(cpu.pc(), pc + 4);
    cpu.set_key(5, true);
    cpu.sknp_v(0);
    assert_eq!(cpu.pc(), pc + 6);
}

#[test]
fn an_index_above_fifteen_names_no_key() {
    let mut cpu = machine_running(&[]);
    for key in 0..16 {
        cpu.set_key(key, true);
    }
    cpu.ld_v(0, 16);
    cpu.ld_v(1, 0xFF);
    let pc = cpu.pc();
    cpu.skp_v(0);
    assert_eq!(cpu.pc(), pc + 2);
    cpu.skp_v(1);
    assert_eq!(cpu.pc(), pc + 4);
    cpu.sknp_v(0);
    assert_eq!(cpu.pc(), pc + 8);
    cpu.sknp_v(1);
    assert_eq!(cpu.pc(), pc + 12);
}

#[test]
fn key_instructions_in_a_program() {
    // 600A E09E 6101 E0A1 6201 6301
    let mut cpu = machine_running(&[
        0x60, 0x0A, 0xE0, 0x9E, 0x61, 0x01, 0xE0, 0xA1, 0x62, 0x01, 0x63, 0x01,
    ]);
    cpu.set_key(0xA, true);
    run_steps(&mut cpu, 4);
    assert_eq!(cpu.register(1), 0);
    assert_eq!(cpu.register(2), 1);
    run_steps(&mut cpu, 1);
    assert_eq!(cpu.register(3), 1);
}

#[test]
fn set_key_changes_one_key() {
    let mut cpu = machine_running(&[]);
    cpu.set_key(0, true);
    cpu.set_key(15, true);
    for key in 1..15 {
        assert!(!cpu.key(key));
    }
    assert!(cpu.key(0));
    assert!(cpu.key(15));
    assert_eq!(cpu.pressed_key(), Some(0));
    cpu.set_key(0, false);
    assert!(!cpu.key(0));
    assert_eq!(cpu.pressed_key(), Some(15));
    cpu.set_key(15, false);
    assert_eq!(cpu.pressed_key(), None);
    assert_eq!(cpu.pc(), 512);
}

#[test]
fn wait_for_key_repeats_until_a_key_is_pressed() {
    let mut cpu = machine_running(&[0xF3, 0x0A, 0x64, 0x01]);
    for _ in 0..5 {
        assert_eq!(cpu.step_with(0), Ok(false));
        assert_eq!(cpu.pc(), 512);
        assert_eq!(cpu.register(3), 0);
    }
    cpu.set_key(9, true);
    cpu.set_key(7, true);
    assert_eq!(cpu.step_with(0), Ok(false));
    assert_eq!(cpu.pc(), 514);
    assert_eq!(cpu.register(3), 7);
    assert_eq!(cpu.step_with(0), Ok(false));
    assert_eq!(cpu.register(4), 1);
    assert_eq!(cpu.pc(), 516);
}

#[test]
fn wait_for_key_advances_once_with_several_keys_down() {
    let mut cpu = machine_running(&[]);
    for key in 2..16 {
        cpu.set_key(key, true);
    }
    cpu.ld_v_k(0xE);
    assert_eq!(cpu.register(0xE), 2);
    assert_eq!(cpu.pc(), 514);
}

#[test]
fn wait_for_key_still_ticks_the_timers() {
    // 6003 F015 F10A
    let mut cpu = machine_running(&[0x60, 0x03, 0xF0, 0x15, 0xF1, 0x0A]);
    run_steps(&mut cpu, 2);
    assert_eq!(cpu.delay_timer(), 2);
    run_steps(&mut cpu, 1);
    assert_eq!(cpu.delay_timer(), 1);
    assert_eq!(cpu.pc(), 516);
    run_steps(&mut cpu, 2);
    assert_eq!(cpu.delay_timer(), 0);
    assert_eq!(cpu.pc(), 516);
}

#[test]
fn delay_timer_counts_down_to_zero() {
    // 6003 F015 6100 6100 6100 6100
    let mut cpu = machine_running(&[
        0x60, 0x03, 0xF0, 0x15, 0x61, 0x00, 0x61, 0x00, 0x61, 0x00, 0x61, 0x00,
    ]);
    run_steps(&mut cpu, 1);
    assert_eq!(cpu.delay_timer(), 0);
    run_steps(&mut cpu, 1);
    assert_eq!(cpu.delay_timer(), 2);
    run_steps(&mut cpu, 1);
    assert_eq!(cpu.delay_timer(), 1);
    run_steps(&mut cpu, 1);
    assert_eq!(cpu.delay_timer(), 0);
    run_steps(&mut cpu, 2);
    assert_eq!(cpu.delay_timer(), 0);
    assert_eq!(cpu.sound_timer(), 0);
}

#[test]
fn delay_timer_is_read_before_the_tick() {
    // 6009 F015 F107
    let mut cpu = machine_running(&[0x60, 0x09, 0xF0, 0x15, 0xF1, 0x07]);
    run_steps(&mut cpu, 2);
    assert_eq!(cpu.delay_timer(), 8);
    run_steps(&mut cpu, 1);
    assert_eq!(cpu.register(1), 8);
    assert_eq!(cpu.delay_timer(), 7);
}

#[test]
fn sound_timer_signals_its_last_tick() {
    // 6002 F018 6100 6100
    let mut cpu = machine_running(&[0x60, 0x02, 0xF0, 0x18, 0x61, 0x00, 0x61, 0x00]);
    assert_eq!(cpu.step_with(0), Ok(false));
    assert_eq!(cpu.step_with(0), Ok(false));
    assert_eq!(cpu.sound_timer(), 1);
    assert_eq!(cpu.step_with(0), Ok(true));
    assert_eq!(cpu.sound_timer(), 0);
    assert_eq!(cpu.step_with(0), Ok(false));
    assert_eq!(cpu.sound_timer(), 0);
    assert_eq!(cpu.delay_timer(), 0);
}

#[test]
fn sound_timer_set_to_one_ends_its_tone_in_the_same_step() {
    // 6001 F018
    let mut cpu = machine_running(&[0x60, 0x01, 0xF0, 0x18]);
    assert_eq!(cpu.step_with(0), Ok(false));
    assert_eq!(cpu.step_with(0), Ok(true));
    assert_eq!(cpu.sound_timer(), 0);
}

#[test]
fn tick_alone_counts_both_timers_down() {
    let mut cpu = machine_running(&[]);
    assert!(!cpu.tick());
    cpu.ld_v(0, 2);
    cpu.ld_v(1, 1);
    cpu.ld_dt_v(0);
    cpu.ld_st_v(1);
    assert_eq!(cpu.delay_timer(), 2);
    assert_eq!(cpu.sound_timer(), 1);
    assert!(cpu.tick());
    assert_eq!(cpu.delay_timer(), 1);
    assert_eq!(cpu.sound_timer(), 0);
    assert!(!cpu.tick());
    assert_eq!(cpu.delay_timer(), 0);
    assert!(!cpu.tick());
    assert_eq!(cpu.delay_timer(), 0);
    assert_eq!(cpu.sound_timer(), 0);
    cpu.ld_v_dt(2);
    assert_eq!(cpu.register(2), 0);
}

#[test]
fn fetch_beyond_memory_is_out_of_bounds() {
    let mut cpu = machine_running(&[0x1F, 0xFF]);
    run_steps(&mut cpu, 1);
    assert_eq!(cpu.pc(), 0xFFF);
    assert_eq!(cpu.fetch(), Err(Chip8Error::OutOfBounds { address: 0xFFF }));
    assert_eq!(cpu.step_with(0), Err(Chip8Error::OutOfBounds { address: 0xFFF }));
    assert_eq!(cpu.step(), Err(Chip8Error::OutOfBounds { address: 0xFFF }));
    assert_eq!(cpu.pc(), 0xFFF);
    let mut far = machine_running(&[0x60, 0xFF, 0xBF, 0xFF]);
    run_steps(&mut far, 2);
    assert_eq!(far.step_with(0), Err(Chip8Error::OutOfBounds { address: 0x10FE }));
}

#[test]
fn last_word_of_memory_can_be_fetched() {
    let mut program = vec![0u8; 3584];
    program[0] = 0x1F;
    program[1] = 0xFE;
    program[3582] = 0x6A;
    program[3583] = 0x55;
    let mut cpu = machine_running(&program);
    run_steps(&mut cpu, 1);
    assert_eq!(cpu.pc(), 0xFFE);
    assert_eq!(cpu.fetch(), Ok(0x6A55));
    run_steps(&mut cpu, 1);
    assert_eq!(cpu.register(0xA), 0x55);
    assert_eq!(cpu.pc(), 0x1000);
    assert_eq!(cpu.step_with(0), Err(Chip8Error::OutOfBounds { address: 0x1000 }));
}

#[test]
fn unknown_word_is_an_unimplemented_instruction() {
    let mut cpu = machine_running(&[0x60, 0x01, 0x81, 0x2F]);
    run_steps(&mut cpu, 1);
    assert_eq!(
        cpu.step_with(0),
        Err(Chip8Error::UnimplementedInstruction { instruction: 0x812F })
    );
    assert_eq!(cpu.pc(), 514);
    assert_eq!(
        cpu.step(),
        Err(Chip8Error::UnimplementedInstruction { instruction: 0x812F })
    );
    let mut empty = machine_running(&[]);
    assert_eq!(
        empty.step_with(0),
        Err(Chip8Error::UnimplementedInstruction { instruction: 0x0000 })
    );
}

#[test]
fn a_failed_step_leaves_the_machine_untouched() {
    // 6005 F015 F018 0000
    let mut cpu = machine_running(&[0x60, 0x05, 0xF0, 0x15, 0xF0, 0x18, 0x00, 0x00]);
    run_steps(&mut cpu, 3);
    assert_eq!(cpu.delay_timer(), 3);
    assert_eq!(cpu.sound_timer(), 4);
    for _ in 0..3 {
        assert_eq!(
            cpu.step_with(0),
            Err(Chip8Error::UnimplementedInstruction { instruction: 0 })
        );
        assert_eq!(cpu.delay_timer(), 3);
        assert_eq!(cpu.sound_timer(), 4);
        assert_eq!(cpu.pc(), 518);
        assert_eq!(cpu.register(0), 5);
    }
}

#[test]
fn execute_runs_a_decoded_instruction() {
    let mut cpu = machine_running(&[]);
    assert_eq!(cpu.execute(Opcode::LdV { x: 4, kk: 0x44 }, 0), Ok(()));
    assert_eq!(cpu.execute(decode(0x7401).unwrap(), 0), Ok(()));
    assert_eq!(cpu.register(4), 0x45);
    assert_eq!(cpu.execute(Opcode::RndV { x: 5, kk: 0x0F }, 0x3C), Ok(()));
    assert_eq!(cpu.register(5), 0x0C);
    assert_eq!(cpu.execute(Opcode::Ret, 0), Err(Chip8Error::StackUnderflow));
    assert_eq!(cpu.pc(), 518);
    assert_eq!(cpu.execute(Opcode::Jp { nnn: 0x222 }, 0), Ok(()));
    assert_eq!(cpu.pc(), 0x222);
    assert_eq!(cpu.delay_timer(), 0);
}
