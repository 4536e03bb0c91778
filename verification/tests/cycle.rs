use chip8::cpu::CPU;
use chip8::machine::{Fault, SoundSignal};
use chip8::operation_codes::{cxkk_rnd_vx_byte, rnd_vx_byte};

#[test]
fn a_rom_that_clears_loads_and_draws() {
    let mut cpu = CPU::init();
    cpu.load_fontset();
    assert_eq!(cpu.load_game(&[0x00, 0xE0, 0x60, 0x0A, 0xD0, 0x01]), Ok(()));
    assert_eq!(cpu.memory[cpu.index_register as usize], 0xF0);

    assert_eq!(cpu.execute_cycle(), Ok(SoundSignal::NoChange));
    assert_eq!(cpu.opcode, 0x00E0);
    cpu.draw = false;
    assert_eq!(cpu.execute_cycle(), Ok(SoundSignal::NoChange));
    assert_eq!(cpu.registers[0], 0x0A);
    assert!(!cpu.draw);
    assert_eq!(cpu.execute_cycle(), Ok(SoundSignal::NoChange));

    let lit: Vec<usize> = (0..2048).filter(|&p| cpu.gfx[p] == 1).collect();
    assert_eq!(lit, vec![650, 651, 652, 653]);
    assert_eq!(cpu.gfx.iter().filter(|&&cell| cell != 0).count(), 4);
    assert!(cpu.draw);
    assert_eq!(cpu.registers[0xF], 0);
    assert_eq!(cpu.program_counter, 0x206);
    assert_eq!(cpu.timer_counter, 3);
}

#[test]
fn fetch_reads_the_word_high_byte_first() {
    let mut cpu = CPU::init();
    assert_eq!(cpu.load_game(&[0xAB, 0xCD]), Ok(()));
    assert_eq!(cpu.fetch(), Ok(()));
    assert_eq!(cpu.opcode, 0xABCD);
    assert_eq!(cpu.program_counter, 0x200);
}

#[test]
fn a_small_program_runs_a_subroutine() {
    let mut cpu = CPU::init();
    let program = [
        0x22, 0x06, // 0x200: CALL 0x206
        0x71, 0x01, // 0x202: ADD V1, 1
        0x12, 0x04, // 0x204: JP 0x204
        0x61, 0x28, // 0x206: LD V1, 0x28
        0x00, 0xEE, // 0x208: RET
    ];
    assert_eq!(cpu.load_game(&program), Ok(()));
    for _ in 0..6 {
        assert!(cpu.execute_cycle().is_ok());
    }
    assert_eq!(cpu.registers[1], 0x29);
    assert_eq!(cpu.program_counter, 0x204);
    assert_eq!(cpu.stack_pointer, 0);
}

#[test]
fn execute_cycle_with_uses_the_given_random_byte() {
    let mut cpu = CPU::init();
    assert_eq!(cpu.load_game(&[0xC3, 0x3C]), Ok(()));
    assert_eq!(cpu.execute_cycle_with(0xA5), Ok(SoundSignal::NoChange));
    assert_eq!(cpu.registers[3], 0xA5 & 0x3C);
    assert_eq!(cpu.program_counter, 0x202);
    assert_eq!(cpu.timer_counter, 1);
}

#[test]
fn interpret_opcode_with_ignores_the_byte_for_other_instructions() {
    let mut one = CPU::init();
    one.opcode = 0x6A11;
    let mut other = one.clone();
    assert_eq!(one.interpret_opcode_with(0x00), Ok(()));
    assert_eq!(other.interpret_opcode_with(0xFF), Ok(()));
    assert_eq!(one, other);
    assert_eq!(one.registers[0xA], 0x11);
}

#[test]
fn rnd_masks_the_byte_with_kk() {
    let mut cpu = CPU::init();
    cpu.opcode = 0xC50F;
    rnd_vx_byte(&mut cpu, 0xFF);
    assert_eq!(cpu.registers[5], 0x0F);
    assert_eq!(cpu.program_counter, 0x202);
    rnd_vx_byte(&mut cpu, 0x35);
    assert_eq!(cpu.registers[5], 0x05);
}

#[test]
fn rnd_stays_within_the_mask() {
    for _ in 0..200 {
        let mut cpu = CPU::init();
        cpu.opcode = 0xC7A5;
        cpu.registers[7] = 0xFF;
        let mut expected = cpu.clone();
        cxkk_rnd_vx_byte(&mut cpu);
        assert_eq!(cpu.registers[7] & !0xA5, 0);
        assert_eq!(cpu.program_counter, 0x202);
        expected.registers[7] = cpu.registers[7];
        expected.program_counter = 0x202;
        assert_eq!(cpu, expected);
    }
    let mut cpu = CPU::init();
    cpu.opcode = 0xC700;
    cpu.registers[7] = 0xFF;
    cxkk_rnd_vx_byte(&mut cpu);
    assert_eq!(cpu.registers[7], 0);
}

#[test]
fn rnd_draws_more_than_one_value() {
    let mut seen = [false; 256];
    for _ in 0..2000 {
        let mut cpu = CPU::init();
        cpu.opcode = 0xC0FF;
        assert_eq!(cpu.interpret_opcode(), Ok(()));
        seen[cpu.registers[0] as usize] = true;
    }
    assert!(seen.iter().filter(|&&s| s).count() > 1);
}

#[test]
fn a_faulting_cycle_leaves_the_timers_alone() {
    let mut cpu = CPU::init();
    assert_eq!(cpu.load_game(&[0x00, 0xEE]), Ok(()));
    cpu.timer_counter = 9;
    cpu.delay_timer = 3;
    assert_eq!(cpu.execute_cycle(), Err(Fault::StackUnderflow));
    assert_eq!(cpu.timer_counter, 9);
    assert_eq!(cpu.delay_timer, 3);
    assert_eq!(cpu.opcode, 0x00EE);
    assert_eq!(cpu.program_counter, 0x200);
}
