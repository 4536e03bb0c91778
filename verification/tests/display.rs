use chip8::cpu::CPU;
use chip8::operation_codes::{cls, dxyn_drw_vx_vy_nibble};

fn lit_pixels(cpu: &CPU) -> Vec<usize> {
    let mut lit = Vec::new();
    for p in 0..2048 {
        if cpu.gfx[p] != 0 {
            lit.push(p);
        }
    }
    lit
}

#[test]
fn cls_clears_every_pixel_and_asks_for_a_redraw() {
    let mut cpu = CPU::init();
    for p in 0..2048 {
        cpu.gfx[p] = (p % 2) as u8;
    }
    cpu.opcode = 0x00E0;
    cls(&mut cpu);
    assert!(lit_pixels(&cpu).is_empty());
    assert!(cpu.draw);
    assert_eq!(cpu.program_counter, 0x202);
}

#[test]
fn drw_draws_a_row_most_significant_bit_first() {
    let mut cpu = CPU::init();
    cpu.memory[0x300] = 0b1010_0001;
    cpu.index_register = 0x300;
    cpu.registers[1] = 3;
    cpu.registers[2] = 2;
    cpu.opcode = 0xD121;
    dxyn_drw_vx_vy_nibble(&mut cpu);
    assert_eq!(lit_pixels(&cpu), vec![2 * 64 + 3, 2 * 64 + 5, 2 * 64 + 10]);
    assert_eq!(cpu.registers[0xF], 0);
    assert!(cpu.draw);
    assert_eq!(cpu.program_counter, 0x202);
}

#[test]
fn drw_draws_rows_below_each_other() {
    let mut cpu = CPU::init();
    cpu.memory[0x300] = 0x80;
    cpu.memory[0x301] = 0x40;
    cpu.memory[0x302] = 0x20;
    cpu.index_register = 0x300;
    cpu.opcode = 0xD013;
    dxyn_drw_vx_vy_nibble(&mut cpu);
    assert_eq!(lit_pixels(&cpu), vec![0, 64 + 1, 128 + 2]);
}

#[test]
fn drw_over_the_right_edge_goes_on_in_the_next_row() {
    let mut cpu = CPU::init();
    cpu.memory[0x300] = 0xFF;
    cpu.index_register = 0x300;
    cpu.registers[0] = 60;
    cpu.registers[1] = 0;
    cpu.opcode = 0xD011;
    dxyn_drw_vx_vy_nibble(&mut cpu);
    assert_eq!(lit_pixels(&cpu), vec![60, 61, 62, 63, 64, 65, 66, 67]);
    assert_eq!(cpu.registers[0xF], 0);
}

#[test]
fn drw_over_the_last_row_goes_on_at_the_top() {
    let mut cpu = CPU::init();
    cpu.memory[0x300] = 0xC0;
    cpu.memory[0x301] = 0xC0;
    cpu.index_register = 0x300;
    cpu.registers[0] = 62;
    cpu.registers[1] = 31;
    cpu.opcode = 0xD012;
    dxyn_drw_vx_vy_nibble(&mut cpu);
    assert_eq!(lit_pixels(&cpu), vec![62, 63, 31 * 64 + 62, 31 * 64 + 63]);
}

#[test]
fn drw_with_large_coordinates_wraps_around_the_ring() {
    let mut cpu = CPU::init();
    cpu.memory[0x300] = 0x80;
    cpu.index_register = 0x300;
    cpu.registers[0] = 255;
    cpu.registers[1] = 255;
    cpu.opcode = 0xD011;
    dxyn_drw_vx_vy_nibble(&mut cpu);
    assert_eq!(lit_pixels(&cpu), vec![(255 + 255 * 64) % 2048]);
}

#[test]
fn cls_then_draws_accumulate_by_exclusive_or() {
    let mut cpu = CPU::init();
    cpu.gfx[5] = 1;
    cpu.opcode = 0x00E0;
    cls(&mut cpu);
    cpu.memory[0x300] = 0b1111_0000;
    cpu.memory[0x301] = 0b0011_1100;
    cpu.registers[0] = 62;
    cpu.registers[1] = 1;
    cpu.opcode = 0xD011;
    cpu.index_register = 0x300;
    dxyn_drw_vx_vy_nibble(&mut cpu);
    assert_eq!(lit_pixels(&cpu), vec![64 + 62, 64 + 63, 128, 129]);
    assert_eq!(cpu.registers[0xF], 0);
    cpu.index_register = 0x301;
    dxyn_drw_vx_vy_nibble(&mut cpu);
    assert_eq!(lit_pixels(&cpu), vec![64 + 62, 64 + 63, 130, 131]);
    assert_eq!(cpu.registers[0xF], 1);
}

#[test]
fn drawing_twice_restores_the_display_and_reports_the_collision() {
    let mut cpu = CPU::init();
    cpu.memory[0x300] = 0x3C;
    cpu.memory[0x301] = 0x42;
    cpu.memory[0x302] = 0x81;
    cpu.index_register = 0x300;
    cpu.registers[4] = 20;
    cpu.registers[5] = 7;
    cpu.opcode = 0xD453;
    dxyn_drw_vx_vy_nibble(&mut cpu);
    assert_eq!(lit_pixels(&cpu).len(), 8);
    assert_eq!(cpu.registers[0xF], 0);
    dxyn_drw_vx_vy_nibble(&mut cpu);
    assert!(lit_pixels(&cpu).is_empty());
    assert_eq!(cpu.registers[0xF], 1);
    assert_eq!(cpu.program_counter, 0x204);
}

#[test]
fn drawing_an_empty_sprite_twice_reports_no_collision() {
    let mut cpu = CPU::init();
    cpu.index_register = 0x300;
    cpu.opcode = 0xD452;
    dxyn_drw_vx_vy_nibble(&mut cpu);
    dxyn_drw_vx_vy_nibble(&mut cpu);
    assert!(lit_pixels(&cpu).is_empty());
    assert_eq!(cpu.registers[0xF], 0);
}

#[test]
fn drw_with_no_rows_still_asks_for_a_redraw() {
    let mut cpu = CPU::init();
    cpu.registers[0xF] = 9;
    cpu.index_register = 0xFFFF;
    cpu.opcode = 0xD120;
    dxyn_drw_vx_vy_nibble(&mut cpu);
    assert!(lit_pixels(&cpu).is_empty());
    assert_eq!(cpu.registers[0xF], 0);
    assert!(cpu.draw);
    assert_eq!(cpu.program_counter, 0x202);
}

#[test]
fn drw_reads_its_place_before_resetting_the_flag() {
    let mut cpu = CPU::init();
    cpu.memory[0x300] = 0x80;
    cpu.index_register = 0x300;
    cpu.registers[0xF] = 5;
    cpu.registers[0] = 1;
    cpu.opcode = 0xDF01;
    dxyn_drw_vx_vy_nibble(&mut cpu);
    assert_eq!(lit_pixels(&cpu), vec![64 + 5]);
    assert_eq!(cpu.registers[0xF], 0);
}

#[test]
fn drw_up_to_the_last_memory_cell() {
    let mut cpu = CPU::init();
    cpu.memory[4094] = 0x80;
    cpu.memory[4095] = 0x80;
    cpu.index_register = 4094;
    cpu.opcode = 0xD012;
    dxyn_drw_vx_vy_nibble(&mut cpu);
    assert_eq!(lit_pixels(&cpu), vec![0, 64]);
}
