use chip8::cpu::CPU;
use chip8::operation_codes::{
    add_vx_byte, add_vx_vy, and_vx_vy, ld_vx_byte, ld_vx_vy, or_vx_vy, shl_vx_vy, shr_vx_vy,
    sub_vx_vy, subn_vx_vy, xor_vx_vy,
};

fn with_registers(opcode: u16, x: usize, vx: u8, y: usize, vy: u8) -> CPU {
    let mut cpu = CPU::init();
    cpu.opcode = opcode;
    cpu.registers[y] = vy;
    cpu.registers[x] = vx;
    cpu
}

#[test]
fn add_vx_vy_sets_carry_for_all_pairs() {
    for a in 0..=255u8 {
        for b in 0..=255u8 {
            let mut cpu = with_registers(0x8124, 1, a, 2, b);
            add_vx_vy(&mut cpu);
            let sum = a as u16 + b as u16;
            assert_eq!(cpu.registers[1], (sum % 256) as u8);
            assert_eq!(cpu.registers[0xF], if sum > 255 { 1 } else { 0 });
            assert_eq!(cpu.registers[2], b);
            assert_eq!(cpu.program_counter, 0x202);
        }
    }
}

#[test]
fn add_vx_vy_exact_values() {
    let mut cpu = with_registers(0x8AB4, 0xA, 200, 0xB, 100);
    add_vx_vy(&mut cpu);
    assert_eq!(cpu.registers[0xA], 44);
    assert_eq!(cpu.registers[0xF], 1);

    let mut cpu = with_registers(0x8AB4, 0xA, 200, 0xB, 55);
    add_vx_vy(&mut cpu);
    assert_eq!(cpu.registers[0xA], 255);
    assert_eq!(cpu.registers[0xF], 0);
}

#[test]
fn add_vx_vy_into_flag_register_keeps_the_sum() {
    let mut cpu = with_registers(0x8F14, 0xF, 200, 1, 100);
    add_vx_vy(&mut cpu);
    assert_eq!(cpu.registers[0xF], 44);
}

#[test]
fn add_vx_vy_with_itself_doubles() {
    let mut cpu = with_registers(0x8334, 3, 0x90, 3, 0x90);
    add_vx_vy(&mut cpu);
    assert_eq!(cpu.registers[3], 0x20);
    assert_eq!(cpu.registers[0xF], 1);
}

#[test]
fn sub_vx_vy_sets_not_borrow_for_all_pairs() {
    for a in 0..=255u8 {
        for b in 0..=255u8 {
            let mut cpu = with_registers(0x8125, 1, a, 2, b);
            sub_vx_vy(&mut cpu);
            assert_eq!(cpu.registers[1], a.wrapping_sub(b));
            assert_eq!(cpu.registers[0xF], if a > b { 1 } else { 0 });
            assert_eq!(cpu.program_counter, 0x202);
        }
    }
}

#[test]
fn sub_vx_vy_exact_values() {
    let mut cpu = with_registers(0x8125, 1, 5, 2, 7);
    sub_vx_vy(&mut cpu);
    assert_eq!(cpu.registers[1], 254);
    assert_eq!(cpu.registers[0xF], 0);

    let mut cpu = with_registers(0x8125, 1, 7, 2, 5);
    sub_vx_vy(&mut cpu);
    assert_eq!(cpu.registers[1], 2);
    assert_eq!(cpu.registers[0xF], 1);

    let mut cpu = with_registers(0x8125, 1, 9, 2, 9);
    sub_vx_vy(&mut cpu);
    assert_eq!(cpu.registers[1], 0);
    assert_eq!(cpu.registers[0xF], 0);
}

#[test]
fn subn_vx_vy_sets_not_borrow_for_all_pairs() {
    for a in 0..=255u8 {
        for b in 0..=255u8 {
            let mut cpu = with_registers(0x8127, 1, a, 2, b);
            subn_vx_vy(&mut cpu);
            assert_eq!(cpu.registers[1], b.wrapping_sub(a));
            assert_eq!(cpu.registers[0xF], if b > a { 1 } else { 0 });
        }
    }
}

#[test]
fn subn_vx_vy_exact_values() {
    let mut cpu = with_registers(0x8127, 1, 5, 2, 7);
    subn_vx_vy(&mut cpu);
    assert_eq!(cpu.registers[1], 2);
    assert_eq!(cpu.registers[0xF], 1);

    let mut cpu = with_registers(0x8127, 1, 7, 2, 5);
    subn_vx_vy(&mut cpu);
    assert_eq!(cpu.registers[1], 254);
    assert_eq!(cpu.registers[0xF], 0);
}

#[test]
fn shr_captures_the_low_bit_for_all_values() {
    for v in 0..=255u8 {
        let mut cpu = with_registers(0x8106, 1, v, 0, 0);
        shr_vx_vy(&mut cpu);
        assert_eq!(cpu.registers[1], v >> 1);
        assert_eq!(cpu.registers[0xF], v & 1);
        assert_eq!(cpu.program_counter, 0x202);
    }
}

#[test]
fn shl_captures_the_high_bit_for_all_values() {
    for v in 0..=255u8 {
        let mut cpu = with_registers(0x810E, 1, v, 0, 0);
        shl_vx_vy(&mut cpu);
        assert_eq!(cpu.registers[1], ((v as u16 * 2) % 256) as u8);
        assert_eq!(cpu.registers[0xF], v >> 7);
        assert_eq!(cpu.program_counter, 0x202);
    }
}

#[test]
fn shifts_exact_values() {
    let mut cpu = with_registers(0x8106, 1, 0b0000_0101, 0, 0);
    shr_vx_vy(&mut cpu);
    assert_eq!(cpu.registers[1], 0b0000_0010);
    assert_eq!(cpu.registers[0xF], 1);

    let mut cpu = with_registers(0x810E, 1, 0b1100_0001, 0, 0);
    shl_vx_vy(&mut cpu);
    assert_eq!(cpu.registers[1], 0b1000_0010);
    assert_eq!(cpu.registers[0xF], 1);

    let mut cpu = with_registers(0x810E, 1, 0b0100_0001, 0, 0);
    shl_vx_vy(&mut cpu);
    assert_eq!(cpu.registers[1], 0b1000_0010);
    assert_eq!(cpu.registers[0xF], 0);
}

#[test]
fn add_vx_byte_wraps_without_touching_the_flag() {
    let mut cpu = with_registers(0x7105, 1, 0xFE, 0xF, 7);
    add_vx_byte(&mut cpu);
    assert_eq!(cpu.registers[1], 3);
    assert_eq!(cpu.registers[0xF], 7);
    assert_eq!(cpu.program_counter, 0x202);

    let mut cpu = with_registers(0x7105, 1, 10, 0xF, 7);
    add_vx_byte(&mut cpu);
    assert_eq!(cpu.registers[1], 15);
    assert_eq!(cpu.registers[0xF], 7);
}

#[test]
fn ld_vx_byte_loads_the_immediate() {
    let mut cpu = with_registers(0x6C3A, 0xC, 1, 0, 0);
    ld_vx_byte(&mut cpu);
    assert_eq!(cpu.registers[0xC], 0x3A);
    assert_eq!(cpu.program_counter, 0x202);
}

#[test]
fn ld_vx_vy_copies_the_register() {
    let mut cpu = with_registers(0x8120, 1, 3, 2, 99);
    ld_vx_vy(&mut cpu);
    assert_eq!(cpu.registers[1], 99);
    assert_eq!(cpu.registers[2], 99);
    assert_eq!(cpu.program_counter, 0x202);
}

#[test]
fn bitwise_operations() {
    let mut cpu = with_registers(0x8121, 1, 0b1100, 2, 0b1010);
    or_vx_vy(&mut cpu);
    assert_eq!(cpu.registers[1], 0b1110);
    assert_eq!(cpu.program_counter, 0x202);

    let mut cpu = with_registers(0x8122, 1, 0b1100, 2, 0b1010);
    and_vx_vy(&mut cpu);
    assert_eq!(cpu.registers[1], 0b1000);
    assert_eq!(cpu.program_counter, 0x202);

    let mut cpu = with_registers(0x8123, 1, 0b1100, 2, 0b1010);
    xor_vx_vy(&mut cpu);
    assert_eq!(cpu.registers[1], 0b0110);
    assert_eq!(cpu.program_counter, 0x202);
}
