//! The processor: its state, and the cycle that fetches, decodes and executes
//! one instruction and then applies the timer policy.

use vstd::prelude::*;
use crate::instruction::{decode, decode_word, kk_of, n_of, x_of, y_of, Operation};
use crate::machine::{
    lemma_lowest_held, lemma_none_held, lowest_held, Fault, Machine, SoundSignal, CYCLES_PER_TICK,
    FONTSET, MAX_PROGRAM_SIZE, PROGRAM_START,
};
use crate::operation_codes::{
    add_vx_byte, add_vx_vy, and_vx_vy, annn_ld_i_addr, bnnn_jp_v0_addr, call_adr, cls,
    dxyn_drw_vx_vy_nibble, ex9e_skp_vx, exa1_sknp_vx, fx07_ld_vx_dt, fx0a_ld_vx_k, fx15_ld_dt_vx,
    fx18_ld_st_vx, fx1e_add_i_vx, fx29_ld_f_vx, fx33_ld_b_vx, fx55_ld_i_vx, fx65_ld_vx_i, jp_addr,
    ld_vx_byte, ld_vx_vy, or_vx_vy, ret, rnd_vx_byte, se_vx_byte, se_vx_vy, shl_vx_vy, shr_vx_vy,
    sne_vx_byte, sne_vx_vy, sub_vx_vy, subn_vx_vy, xor_vx_vy,
};
use crate::random::random_byte;

verus! {

/// The state of the machine.
#[derive(Debug, PartialEq, Eq)]
pub struct CPU {
    /// The instruction word that was fetched last.
    pub opcode: u16,
    /// 4096 cells: the font from `0x000`, the program from `0x200`.
    pub memory: [u8; 4096],
    /// The registers `V0` to `VF`; `VF` doubles as the flag.
    pub registers: [u8; 16],
    /// Return addresses of the calls that are under way.
    pub stack: [u16; 16],
    /// The next free slot of `stack`; zero when the stack is empty.
    pub stack_pointer: u8,
    /// The address register `I`.
    pub index_register: u16,
    /// The address of the next instruction.
    pub program_counter: u16,
    /// The framebuffer, row by row; a cell is 1 where the pixel is on.
    pub gfx: [u8; 2048],
    /// Counts down to zero, one step with each service of the timers.
    pub delay_timer: u8,
    /// Counts down to zero like `delay_timer`; the tone ends when it gets
    /// there.
    pub sound_timer: u8,
    /// Which of the sixteen keys are held.
    pub key_state: [bool; 16],
    /// The framebuffer was drawn to; whoever renders it takes the flag down.
    pub draw: bool,
    /// Cycles since the timers were serviced last.
    pub timer_counter: u8,
}

impl View for CPU {
    type V = Machine;

    open spec fn view(&self) -> Machine {
        Machine {
            opcode: self.opcode,
            memory: self.memory@,
            registers: self.registers@,
            stack: self.stack@,
            stack_pointer: self.stack_pointer,
            index_register: self.index_register,
            program_counter: self.program_counter,
            gfx: self.gfx@,
            delay_timer: self.delay_timer,
            sound_timer: self.sound_timer,
            key_state: self.key_state@,
            draw: self.draw,
            timer_counter: self.timer_counter,
        }
    }
}

impl Clone for CPU {
    fn clone(&self) -> (copy: CPU)
        ensures
            copy == *self,
    {
        CPU {
            opcode: self.opcode,
            memory: self.memory,
            registers: self.registers,
            stack: self.stack,
            stack_pointer: self.stack_pointer,
            index_register: self.index_register,
            program_counter: self.program_counter,
            gfx: self.gfx,
            delay_timer: self.delay_timer,
            sound_timer: self.sound_timer,
            key_state: self.key_state,
            draw: self.draw,
            timer_counter: self.timer_counter,
        }
    }
}

impl CPU {
    /// A machine with nothing loaded: memory, registers, stack, timers and
    /// display all zero, no key held, the program counter at `0x200`.
    pub fn init() -> (cpu: CPU)
        ensures
            cpu@ == Machine::initial(),
    {
        let cpu = CPU {
            opcode: 0,
            index_register: 0,
            stack: [0; 16],
            gfx: [0; 2048],
            sound_timer: 0,
            delay_timer: 0,
            stack_pointer: 0,
            registers: [0; 16],
            program_counter: PROGRAM_START,
            memory: [0; 4096],
            timer_counter: 0,
            key_state: [false; 16],
            draw: false,
        };
        assert(cpu@ =~= Machine::initial());
        cpu
    }

    /// Copies `program` into memory from `0x200`. A program of more than 3584
    /// bytes does not fit and is refused, with nothing copied.
    pub fn load_game(&mut self, program: &[u8]) -> (result: Result<(), Fault>)
        ensures
            match result {
                Ok(()) => {
                    &&& program@.len() <= MAX_PROGRAM_SIZE
                    &&& final(self)@ == old(self)@.load_game(program@)
                },
                Err(fault) => {
                    &&& program@.len() > MAX_PROGRAM_SIZE
                    &&& fault == Fault::ProgramTooLarge
                    &&& final(self)@ == old(self)@
                },
            },
    {
        let len = program.len();
        if len > MAX_PROGRAM_SIZE {
            return Err(Fault::ProgramTooLarge);
        }
        let mut i: usize = 0;
        while i < len
            invariant
                i <= len <= MAX_PROGRAM_SIZE,
                len == program@.len(),
                self@ == (Machine { memory: self@.memory, ..old(self)@ }),
                forall|a: int|
                    0 <= a < 4096 ==> self@.memory[a] == if 0x200 <= a < 0x200 + i {
                        program@[a - 0x200]
                    } else {
                        old(self)@.memory[a]
                    },
            decreases len - i,
        {
            self.memory[PROGRAM_START as usize + i] = program[i];
            i += 1;
        }
        assert(self@ =~= old(self)@.load_game(program@));
        Ok(())
    }

    /// Writes the built-in font to the first 80 cells of memory.
    pub fn load_fontset(&mut self)
        ensures
            final(self)@ == old(self)@.load_fontset(),
    {
        let mut i: usize = 0;
        while i < 80
            invariant
                i <= 80,
                self@ == (Machine { memory: self@.memory, ..old(self)@ }),
                forall|a: int|
                    0 <= a < 4096 ==> self@.memory[a] == if a < i {
                        FONTSET@[a]
                    } else {
                        old(self)@.memory[a]
                    },
            decreases 80 - i,
        {
            self.memory[i] = FONTSET[i];
            i += 1;
        }
        assert(self@ =~= old(self)@.load_fontset());
    }

    /// The timer policy of one cycle: counts the cycle, and with every tenth
    /// cycle lets both timers count down one step. Tells what the audio device
    /// is to do: the tone stops when the sound timer is serviced at one or at
    /// zero.
    pub fn update_timers(&mut self) -> (signal: SoundSignal)
        ensures
            final(self)@ == old(self)@.tick(),
            signal == old(self)@.sound_signal(),
    {
        if self.timer_counter >= CYCLES_PER_TICK - 1 {
            let signal = if self.sound_timer == 1 {
                SoundSignal::Expired
            } else if self.sound_timer == 0 {
                SoundSignal::Silent
            } else {
                SoundSignal::NoChange
            };
            if self.delay_timer > 0 {
                self.delay_timer -= 1;
            }
            if self.sound_timer > 0 {
                self.sound_timer -= 1;
            }
            self.timer_counter = 0;
            signal
        } else {
            self.timer_counter += 1;
            SoundSignal::NoChange
        }
    }

    /// Whether any key is held.
    pub fn any_key_held(&self) -> (held: bool)
        ensures
            held == (lowest_held(self@.key_state) is Some),
    {
        let mut i: usize = 0;
        while i < 16
            invariant
                i <= 16,
                forall|j: int| 0 <= j < i ==> !self.key_state@[j],
            decreases 16 - i,
        {
            if self.key_state[i] {
                proof {
                    lemma_lowest_held(self@.key_state, i as int);
                }
                return true;
            }
            i += 1;
        }
        proof {
            lemma_none_held(self@.key_state);
        }
        false
    }

    /// The fault that moving the program counter forward by `by` would raise.
    fn check_advance(&self, by: u16) -> (fault: Option<Fault>)
        requires
            by <= 4,
        ensures
            fault == self@.advance_fault(by as int),
    {
        if self.program_counter > 0xFFFF - by {
            Some(Fault::ProgramCounterOverflow)
        } else {
            None
        }
    }

    /// The fault that moving on, or skipping if `skip` holds, would raise.
    fn check_skip(&self, skip: bool) -> (fault: Option<Fault>)
        ensures
            fault == self@.skip_fault(skip),
    {
        if skip {
            self.check_advance(4)
        } else {
            self.check_advance(2)
        }
    }

    /// The fault that `operation`, with the operands in `opcode`, would raise
    /// in this state: a stack that cannot take or give an address, a store
    /// below `0x200`, an access past the end of memory, a key number above
    /// fifteen, or a program counter that cannot move on.
    pub fn check(&self, operation: Operation) -> (fault: Option<Fault>)
        ensures
            fault == self@.operation_fault(operation),
    {
        let x = x_of(self.opcode);
        let vx = self.registers[x];
        let vy = self.registers[y_of(self.opcode)];
        match operation {
            Operation::Ret => {
                if self.stack_pointer == 0 {
                    Some(Fault::StackUnderflow)
                } else if self.stack_pointer > 16 {
                    Some(Fault::StackOverflow)
                } else {
                    None
                }
            },
            Operation::JpAddr | Operation::JpV0Addr => None,
            Operation::CallAddr => {
                if self.stack_pointer >= 16 {
                    Some(Fault::StackOverflow)
                } else {
                    self.check_advance(2)
                }
            },
            Operation::SeVxByte => self.check_skip(vx == kk_of(self.opcode)),
            Operation::SneVxByte => self.check_skip(vx != kk_of(self.opcode)),
            Operation::SeVxVy => self.check_skip(vx == vy),
            Operation::SneVxVy => self.check_skip(vx != vy),
            Operation::DrwVxVyNibble => {
                let rows = n_of(self.opcode);
                if rows > 0 && self.index_register > 4096 - rows {
                    Some(Fault::AddressOutOfRange)
                } else {
                    self.check_advance(2)
                }
            },
            Operation::SkpVx => {
                if vx >= 16 {
                    Some(Fault::KeyOutOfRange)
                } else {
                    self.check_skip(self.key_state[vx as usize])
                }
            },
            Operation::SknpVx => {
                if vx >= 16 {
                    Some(Fault::KeyOutOfRange)
                } else {
                    self.check_skip(!self.key_state[vx as usize])
                }
            },
            Operation::LdVxK => {
                if self.any_key_held() {
                    self.check_advance(2)
                } else {
                    None
                }
            },
            Operation::LdBVx => {
                if self.index_register < PROGRAM_START {
                    Some(Fault::ReservedMemory)
                } else if self.index_register >= 4094 {
                    Some(Fault::AddressOutOfRange)
                } else {
                    self.check_advance(2)
                }
            },
            Operation::LdIVx => {
                if self.index_register < PROGRAM_START {
                    Some(Fault::ReservedMemory)
                } else if self.index_register as usize + x >= 4096 {
                    Some(Fault::AddressOutOfRange)
                } else {
                    self.check_advance(2)
                }
            },
            Operation::LdVxI => {
                if self.index_register as usize + x >= 4096 {
                    Some(Fault::AddressOutOfRange)
                } else {
                    self.check_advance(2)
                }
            },
            _ => self.check_advance(2),
        }
    }

    /// Decodes the instruction in `opcode` and carries it out, with `random`
    /// as the byte that `RND` draws. An instruction that cannot be carried out
    /// is reported and changes nothing.
    pub fn interpret_opcode_with(&mut self, random: u8) -> (result: Result<(), Fault>)
        ensures
            (final(self)@, result) == old(self)@.interpret(random),
    {
        let operation = match decode(self.opcode) {
            Some(operation) => operation,
            None => {
                return Err(
                    Fault::UnknownInstruction {
                        program_counter: self.program_counter,
                        opcode: self.opcode,
                    },
                );
            },
        };
        if let Some(fault) = self.check(operation) {
            return Err(fault);
        }
        match operation {
            Operation::Cls => cls(self),
            Operation::Ret => ret(self),
            Operation::JpAddr => jp_addr(self),
            Operation::CallAddr => call_adr(self),
            Operation::SeVxByte => se_vx_byte(self),
            Operation::SneVxByte => sne_vx_byte(self),
            Operation::SeVxVy => se_vx_vy(self),
            Operation::LdVxByte => ld_vx_byte(self),
            Operation::AddVxByte => add_vx_byte(self),
            Operation::LdVxVy => ld_vx_vy(self),
            Operation::OrVxVy => or_vx_vy(self),
            Operation::AndVxVy => and_vx_vy(self),
            Operation::XorVxVy => xor_vx_vy(self),
            Operation::AddVxVy => add_vx_vy(self),
            Operation::SubVxVy => sub_vx_vy(self),
            Operation::ShrVx => shr_vx_vy(self),
            Operation::SubnVxVy => subn_vx_vy(self),
            Operation::ShlVx => shl_vx_vy(self),
            Operation::SneVxVy => sne_vx_vy(self),
            Operation::LdIAddr => annn_ld_i_addr(self),
            Operation::JpV0Addr => bnnn_jp_v0_addr(self),
            Operation::RndVxByte => rnd_vx_byte(self, random),
            Operation::DrwVxVyNibble => dxyn_drw_vx_vy_nibble(self),
            Operation::SkpVx => ex9e_skp_vx(self),
            Operation::SknpVx => exa1_sknp_vx(self),
            Operation::LdVxDt => fx07_ld_vx_dt(self),
            Operation::LdVxK => fx0a_ld_vx_k(self),
            Operation::LdDtVx => fx15_ld_dt_vx(self),
            Operation::LdStVx => fx18_ld_st_vx(self),
            Operation::AddIVx => fx1e_add_i_vx(self),
            Operation::LdFVx => fx29_ld_f_vx(self),
            Operation::LdBVx => fx33_ld_b_vx(self),
            Operation::LdIVx => fx55_ld_i_vx(self),
            Operation::LdVxI => fx65_ld_vx_i(self),
        }
        Ok(())
    }

    /// Decodes the instruction in `opcode` and carries it out; `RND` draws
    /// its byte from the random source. An instruction that cannot be carried
    /// out is reported and changes nothing.
    pub fn interpret_opcode(&mut self) -> (result: Result<(), Fault>)
        ensures
            exists|random: u8| (final(self)@, result) == #[trigger] old(self)@.interpret(random),
            decode_word(old(self).opcode) != Some(Operation::RndVxByte) ==> (final(self)@, result)
                == old(self)@.interpret(0),
    {
        let random = match decode(self.opcode) {
            Some(Operation::RndVxByte) => random_byte(),
            _ => 0,
        };
        self.interpret_opcode_with(random)
    }

    /// Reads the instruction at the program counter, high byte first, into
    /// `opcode`. An instruction that lies past the end of memory is reported
    /// and changes nothing.
    pub fn fetch(&mut self) -> (result: Result<(), Fault>)
        ensures
            match result {
                Ok(()) => {
                    &&& old(self).program_counter + 1 < 4096
                    &&& final(self)@ == old(self)@.fetched()
                },
                Err(fault) => {
                    &&& old(self).program_counter + 1 >= 4096
                    &&& fault == Fault::AddressOutOfRange
                    &&& final(self)@ == old(self)@
                },
            },
    {
        if self.program_counter >= 4095 {
            return Err(Fault::AddressOutOfRange);
        }
        let high = self.memory[self.program_counter as usize] as u16;
        let low = self.memory[(self.program_counter + 1) as usize] as u16;
        assert(high << 8 | low == high * 256 + low) by (bit_vector)
            requires
                high < 256,
                low < 256,
        ;
        self.opcode = high << 8 | low;
        Ok(())
    }

    /// One cycle with `random` as the byte that `RND` draws: fetches the
    /// instruction at the program counter, carries it out, and applies the
    /// timer policy. A fault ends the cycle where it is found: the timers are
    /// left alone, and so is everything but `opcode`.
    pub fn execute_cycle_with(&mut self, random: u8) -> (result: Result<SoundSignal, Fault>)
        ensures
            (final(self)@, result) == old(self)@.run_cycle(random),
    {
        match self.fetch() {
            Err(fault) => {
                return Err(fault);
            },
            Ok(()) => {},
        }
        match self.interpret_opcode_with(random) {
            Err(fault) => {
                return Err(fault);
            },
            Ok(()) => {},
        }
        Ok(self.update_timers())
    }

    /// One cycle: fetches the instruction at the program counter, carries it
    /// out, and applies the timer policy. A fault ends the cycle where it is
    /// found: the timers are left alone, and so is everything but `opcode`.
    pub fn execute_cycle(&mut self) -> (result: Result<SoundSignal, Fault>)
        ensures
            exists|random: u8| (final(self)@, result) == #[trigger] old(self)@.run_cycle(random),
    {
        match self.fetch() {
            Err(fault) => {
                assert((self@, Err::<SoundSignal, Fault>(fault)) == old(self)@.run_cycle(0));
                return Err(fault);
            },
            Ok(()) => {},
        }
        let ghost fetched = self@;
        match self.interpret_opcode() {
            Err(fault) => {
                assert((self@, Err::<SoundSignal, Fault>(fault)) == old(self)@.run_cycle(0));
                return Err(fault);
            },
            Ok(()) => {},
        }
        let ghost random = choose|random: u8| (self@, Ok::<(), Fault>(())) == fetched.interpret(random);
        let signal = self.update_timers();
        assert((self@, Ok::<SoundSignal, Fault>(signal)) == old(self)@.run_cycle(random));
        Ok(signal)
    }
}

} // verus!
