use chip8::cpu::CPU;
use chip8::instruction::Operation;
use chip8::machine::{Fault, SoundSignal};

fn interpret(cpu: &mut CPU, opcode: u16) -> Result<(), Fault> {
    cpu.opcode = opcode;
    cpu.interpret_opcode()
}

#[test]
fn unknown_instructions_are_reported_with_their_place() {
    for &opcode in &[0x0000u16, 0x00E1, 0x0123, 0x8008, 0x800F, 0xE000, 0xE19F, 0xF000, 0xF1FF, 0xF166]
    {
        let mut cpu = CPU::init();
        cpu.program_counter = 0x2A0;
        let before = {
            let mut c = cpu.clone();
            c.opcode = opcode;
            c
        };
        assert_eq!(
            interpret(&mut cpu, opcode),
            Err(Fault::UnknownInstruction { program_counter: 0x2A0, opcode })
        );
        assert_eq!(cpu, before);
    }
}

#[test]
fn execute_cycle_stops_at_an_unknown_instruction() {
    let mut cpu = CPU::init();
    assert_eq!(cpu.load_game(&[0x60, 0x01, 0xFF, 0xFF]), Ok(()));
    assert_eq!(cpu.execute_cycle(), Ok(SoundSignal::NoChange));
    let mut expected = cpu.clone();
    assert_eq!(
        cpu.execute_cycle(),
        Err(Fault::UnknownInstruction { program_counter: 0x202, opcode: 0xFFFF })
    );
    expected.opcode = 0xFFFF;
    assert_eq!(cpu, expected);
    assert_eq!(cpu.timer_counter, 1);
}

#[test]
fn ret_on_an_empty_stack_underflows() {
    let mut cpu = CPU::init();
    let mut expected = cpu.clone();
    expected.opcode = 0x00EE;
    assert_eq!(interpret(&mut cpu, 0x00EE), Err(Fault::StackUnderflow));
    assert_eq!(cpu, expected);
}

#[test]
fn the_seventeenth_call_overflows() {
    let mut cpu = CPU::init();
    for _ in 0..16 {
        assert_eq!(interpret(&mut cpu, 0x2400), Ok(()));
    }
    assert_eq!(cpu.stack_pointer, 16);
    let expected = cpu.clone();
    assert_eq!(interpret(&mut cpu, 0x2400), Err(Fault::StackOverflow));
    assert_eq!(cpu, expected);
}

#[test]
fn ret_with_a_stack_pointer_past_the_stack_overflows() {
    let mut cpu = CPU::init();
    cpu.stack_pointer = 17;
    assert_eq!(interpret(&mut cpu, 0x00EE), Err(Fault::StackOverflow));
    assert_eq!(cpu.stack_pointer, 17);
    assert_eq!(cpu.program_counter, 0x200);
}

#[test]
fn fetch_past_the_end_of_memory_is_out_of_range() {
    let mut cpu = CPU::init();
    cpu.program_counter = 4095;
    let expected = cpu.clone();
    assert_eq!(cpu.execute_cycle(), Err(Fault::AddressOutOfRange));
    assert_eq!(cpu, expected);
    assert_eq!(cpu.fetch(), Err(Fault::AddressOutOfRange));

    cpu.program_counter = 4094;
    cpu.memory[4094] = 0x12;
    cpu.memory[4095] = 0x00;
    assert_eq!(cpu.execute_cycle(), Ok(SoundSignal::NoChange));
    assert_eq!(cpu.program_counter, 0x200);
}

#[test]
fn a_sprite_past_the_end_of_memory_is_out_of_range() {
    let mut cpu = CPU::init();
    cpu.index_register = 4095;
    assert_eq!(interpret(&mut cpu, 0xD012), Err(Fault::AddressOutOfRange));
    assert!(!cpu.draw);
    assert_eq!(interpret(&mut cpu, 0xD011), Ok(()));
    assert!(cpu.draw);
}

#[test]
fn a_transfer_past_the_end_of_memory_is_out_of_range() {
    let mut cpu = CPU::init();
    cpu.index_register = 4094;
    assert_eq!(interpret(&mut cpu, 0xF033), Err(Fault::AddressOutOfRange));
    assert_eq!(interpret(&mut cpu, 0xF255), Err(Fault::AddressOutOfRange));
    assert_eq!(interpret(&mut cpu, 0xF265), Err(Fault::AddressOutOfRange));
    assert_eq!(cpu.program_counter, 0x200);
    assert_eq!(interpret(&mut cpu, 0xF155), Ok(()));
    assert_eq!(interpret(&mut cpu, 0xF165), Ok(()));
    cpu.index_register = 4093;
    assert_eq!(interpret(&mut cpu, 0xF033), Ok(()));
}

#[test]
fn a_key_number_above_fifteen_is_out_of_range() {
    let mut cpu = CPU::init();
    cpu.registers[2] = 16;
    assert_eq!(interpret(&mut cpu, 0xE29E), Err(Fault::KeyOutOfRange));
    assert_eq!(interpret(&mut cpu, 0xE2A1), Err(Fault::KeyOutOfRange));
    assert_eq!(cpu.program_counter, 0x200);
    cpu.registers[2] = 15;
    assert_eq!(interpret(&mut cpu, 0xE29E), Ok(()));
    assert_eq!(cpu.program_counter, 0x202);
}

#[test]
fn a_program_counter_that_cannot_move_on_overflows() {
    let mut cpu = CPU::init();
    cpu.program_counter = 0xFFFE;
    assert_eq!(interpret(&mut cpu, 0x6001), Err(Fault::ProgramCounterOverflow));
    assert_eq!(cpu.registers[0], 0);
    assert_eq!(interpret(&mut cpu, 0x2300), Err(Fault::ProgramCounterOverflow));
    assert_eq!(cpu.stack_pointer, 0);

    cpu.program_counter = 0xFFFC;
    cpu.registers[0] = 1;
    assert_eq!(interpret(&mut cpu, 0x3001), Err(Fault::ProgramCounterOverflow));
    assert_eq!(interpret(&mut cpu, 0x3002), Ok(()));
    assert_eq!(cpu.program_counter, 0xFFFE);
    assert_eq!(interpret(&mut cpu, 0x1200), Ok(()));
    assert_eq!(cpu.program_counter, 0x200);
}

#[test]
fn waiting_for_a_key_at_the_last_address_faults_only_when_a_key_is_held() {
    let mut cpu = CPU::init();
    cpu.program_counter = 0xFFFF;
    assert_eq!(interpret(&mut cpu, 0xF00A), Ok(()));
    assert_eq!(cpu.program_counter, 0xFFFF);
    cpu.key_state[1] = true;
    assert_eq!(interpret(&mut cpu, 0xF00A), Err(Fault::ProgramCounterOverflow));
}

#[test]
fn check_reports_the_fault_of_an_operation() {
    let mut cpu = CPU::init();
    assert_eq!(cpu.check(Operation::Ret), Some(Fault::StackUnderflow));
    assert_eq!(cpu.check(Operation::CallAddr), None);
    assert_eq!(cpu.check(Operation::Cls), None);
    cpu.stack_pointer = 16;
    assert_eq!(cpu.check(Operation::Ret), None);
    assert_eq!(cpu.check(Operation::CallAddr), Some(Fault::StackOverflow));
    cpu.index_register = 4094;
    assert_eq!(cpu.check(Operation::LdBVx), Some(Fault::AddressOutOfRange));
    cpu.program_counter = 0xFFFF;
    assert_eq!(cpu.check(Operation::JpAddr), None);
    assert_eq!(cpu.check(Operation::JpV0Addr), None);
    assert_eq!(cpu.check(Operation::LdVxK), None);
    assert_eq!(cpu.check(Operation::Cls), Some(Fault::ProgramCounterOverflow));
}
