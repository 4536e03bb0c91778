//! The mathematical model of the machine, and what every instruction does to
//! it.
//!
//! `Machine` holds the same state as the processor, with sequences in place of
//! arrays. Each instruction is a function from `Machine` to `Machine`; the
//! operands are read from the instruction word held in `opcode`. The functions
//! say what the instruction computes wherever `fault` reports nothing.
//!
//! The memory below `PROGRAM_START` belongs to the interpreter and holds the
//! font. Loading writes it; a running program reads it and cannot write it:
//! a store that starts there is a fault.

use vstd::prelude::*;
use crate::display::{blit, cleared, collides, Draw};
use crate::instruction::{
    decode_word, operand_kk, operand_n, operand_nnn, operand_x, operand_y, Operation,
};

verus! {

/// Address at which a program is loaded and starts to run.
pub const PROGRAM_START: u16 = 0x200;

/// Largest program that fits between `PROGRAM_START` and the end of memory.
pub const MAX_PROGRAM_SIZE: usize = 3584;

/// Number of cycles between two services of the timers.
pub const CYCLES_PER_TICK: u8 = 10;

/// The built-in font: one glyph of five bytes for each hexadecimal digit.
pub const FONTSET: [u8; 80] = [
    0xF0, 0x90, 0x90, 0x90, 0xF0,
    0x20, 0x60, 0x20, 0x20, 0x70,
    0xF0, 0x10, 0xF0, 0x80, 0xF0,
    0xF0, 0x10, 0xF0, 0x10, 0xF0,
    0x90, 0x90, 0xF0, 0x10, 0x10,
    0xF0, 0x80, 0xF0, 0x10, 0xF0,
    0xF0, 0x80, 0xF0, 0x90, 0xF0,
    0xF0, 0x10, 0x20, 0x40, 0x40,
    0xF0, 0x90, 0xF0, 0x90, 0xF0,
    0xF0, 0x90, 0xF0, 0x10, 0xF0,
    0xF0, 0x90, 0xF0, 0x90, 0x90,
    0xE0, 0x90, 0xE0, 0x90, 0xE0,
    0xF0, 0x80, 0x80, 0x80, 0xF0,
    0xE0, 0x90, 0x90, 0x90, 0xE0,
    0xF0, 0x80, 0xF0, 0x80, 0xF0,
    0xF0, 0x80, 0xF0, 0x80, 0x80,
];

/// Why the machine cannot go on.
#[derive(Clone, Copy, Debug, PartialEq, Eq, Structural)]
pub enum Fault {
    /// The word at `program_counter` selects no operation.
    UnknownInstruction { program_counter: u16, opcode: u16 },
    /// The program does not fit between `PROGRAM_START` and the end of memory.
    ProgramTooLarge,
    /// A return with no call to return from.
    StackUnderflow,
    /// A call with the stack full, or a stack pointer past the stack.
    StackOverflow,
    /// A fetch, a sprite or a transfer that reaches past the end of memory.
    AddressOutOfRange,
    /// A store below `PROGRAM_START`, where only the font is kept: a running
    /// program may read that area and never write it.
    ReservedMemory,
    /// A key test on a key number above fifteen.
    KeyOutOfRange,
    /// The next instruction would lie past the largest 16-bit address.
    ProgramCounterOverflow,
}

/// What a cycle tells the audio device. `Expired` and `Silent` both ask for
/// the tone to stop; repeating the request changes nothing.
#[derive(Clone, Copy, Debug, PartialEq, Eq, Structural)]
pub enum SoundSignal {
    /// The timers were not serviced, or the sound timer is still running.
    NoChange,
    /// The sound timer was serviced at one and has reached zero.
    Expired,
    /// The sound timer was serviced at zero.
    Silent,
}

/// The state of the machine as mathematical values.
#[verifier::ext_equal]
pub struct Machine {
    pub opcode: u16,
    pub memory: Seq<u8>,
    pub registers: Seq<u8>,
    pub stack: Seq<u16>,
    pub stack_pointer: u8,
    pub index_register: u16,
    pub program_counter: u16,
    pub gfx: Seq<u8>,
    pub delay_timer: u8,
    pub sound_timer: u8,
    pub key_state: Seq<bool>,
    pub draw: bool,
    pub timer_counter: u8,
}

/// `k` is the lowest key that is held.
pub open spec fn is_lowest_held(keys: Seq<bool>, k: int) -> bool {
    &&& 0 <= k < keys.len()
    &&& keys[k]
    &&& forall|j: int| 0 <= j < k ==> !keys[j]
}

/// The lowest key that is held, if any key is.
pub open spec fn lowest_held(keys: Seq<bool>) -> Option<int> {
    if exists|k: int| is_lowest_held(keys, k) {
        Some(choose|k: int| is_lowest_held(keys, k))
    } else {
        None
    }
}

/// A timer after one service: one less, or zero if it was zero.
pub open spec fn counted_down(timer: u8) -> u8 {
    if timer > 0 {
        (timer - 1) as u8
    } else {
        0
    }
}

impl Machine {
    /// The sequences have the sizes of the machine's memories.
    pub open spec fn wf(self) -> bool {
        &&& self.memory.len() == 4096
        &&& self.registers.len() == 16
        &&& self.stack.len() == 16
        &&& self.gfx.len() == 2048
        &&& self.key_state.len() == 16
    }

    /// The machine before any program is loaded: everything zero, the program
    /// counter at `PROGRAM_START`.
    pub open spec fn initial() -> Machine {
        Machine {
            opcode: 0,
            memory: Seq::new(4096, |i: int| 0u8),
            registers: Seq::new(16, |i: int| 0u8),
            stack: Seq::new(16, |i: int| 0u16),
            stack_pointer: 0,
            index_register: 0,
            program_counter: PROGRAM_START,
            gfx: cleared(),
            delay_timer: 0,
            sound_timer: 0,
            key_state: Seq::new(16, |i: int| false),
            draw: false,
            timer_counter: 0,
        }
    }

    /// The register index `X` of the current instruction.
    pub open spec fn x(self) -> int {
        operand_x(self.opcode)
    }

    /// The register index `Y` of the current instruction.
    pub open spec fn y(self) -> int {
        operand_y(self.opcode)
    }

    /// The immediate `N` of the current instruction.
    pub open spec fn n(self) -> int {
        operand_n(self.opcode)
    }

    /// The immediate `KK` of the current instruction.
    pub open spec fn kk(self) -> u8 {
        operand_kk(self.opcode)
    }

    /// The address `NNN` of the current instruction.
    pub open spec fn nnn(self) -> u16 {
        operand_nnn(self.opcode)
    }

    /// The register `Vx` of the current instruction.
    pub open spec fn vx(self) -> u8 {
        self.registers[self.x()]
    }

    /// The register `Vy` of the current instruction.
    pub open spec fn vy(self) -> u8 {
        self.registers[self.y()]
    }

    /// The program counter moved forward by `by`.
    pub open spec fn advance(self, by: int) -> Machine {
        Machine { program_counter: (self.program_counter + by) as u16, ..self }
    }

    /// The program counter moved to the next instruction.
    pub open spec fn next(self) -> Machine {
        self.advance(2)
    }

    /// The program counter moved past the next instruction if `skip` holds,
    /// to the next instruction otherwise.
    pub open spec fn skip_if(self, skip: bool) -> Machine {
        self.advance(
            if skip {
                4
            } else {
                2
            },
        )
    }

    /// `Vx` replaced by `value`.
    pub open spec fn set_vx(self, value: u8) -> Machine {
        Machine { registers: self.registers.update(self.x(), value), ..self }
    }

    /// `VF` set to one if `raised` holds, to zero otherwise.
    pub open spec fn set_flag(self, raised: bool) -> Machine {
        Machine {
            registers: self.registers.update(
                0xF,
                if raised {
                    1u8
                } else {
                    0u8
                },
            ),
            ..self
        }
    }

    /// `CLS`: every pixel off, a redraw pending.
    pub open spec fn cls(self) -> Machine {
        Machine { gfx: cleared(), draw: true, ..self }.next()
    }

    /// `RET`: the stack pointer steps back and the program counter takes the
    /// address found there.
    pub open spec fn ret(self) -> Machine {
        Machine {
            stack_pointer: (self.stack_pointer - 1) as u8,
            program_counter: self.stack[self.stack_pointer - 1],
            ..self
        }
    }

    /// `JP NNN`.
    pub open spec fn jp_addr(self) -> Machine {
        Machine { program_counter: self.nnn(), ..self }
    }

    /// `CALL NNN`: the address of the next instruction goes on the stack.
    pub open spec fn call_adr(self) -> Machine {
        Machine {
            stack: self.stack.update(
                self.stack_pointer as int,
                (self.program_counter + 2) as u16,
            ),
            stack_pointer: (self.stack_pointer + 1) as u8,
            program_counter: self.nnn(),
            ..self
        }
    }

    /// `SE Vx, KK`.
    pub open spec fn se_vx_byte(self) -> Machine {
        self.skip_if(self.vx() == self.kk())
    }

    /// `SNE Vx, KK`.
    pub open spec fn sne_vx_byte(self) -> Machine {
        self.skip_if(self.vx() != self.kk())
    }

    /// `SE Vx, Vy`.
    pub open spec fn se_vx_vy(self) -> Machine {
        self.skip_if(self.vx() == self.vy())
    }

    /// `LD Vx, KK`.
    pub open spec fn ld_vx_byte(self) -> Machine {
        self.set_vx(self.kk()).next()
    }

    /// `ADD Vx, KK`: the sum modulo 256; the flag is left alone.
    pub open spec fn add_vx_byte(self) -> Machine {
        self.set_vx(((self.vx() + self.kk()) % 256) as u8).next()
    }

    /// `LD Vx, Vy`.
    pub open spec fn ld_vx_vy(self) -> Machine {
        self.set_vx(self.vy()).next()
    }

    /// `OR Vx, Vy`.
    pub open spec fn or_vx_vy(self) -> Machine {
        self.set_vx(self.vx() | self.vy()).next()
    }

    /// `AND Vx, Vy`.
    pub open spec fn and_vx_vy(self) -> Machine {
        self.set_vx(self.vx() & self.vy()).next()
    }

    /// `XOR Vx, Vy`.
    pub open spec fn xor_vx_vy(self) -> Machine {
        self.set_vx(self.vx() ^ self.vy()).next()
    }

    /// `ADD Vx, Vy`: the flag is the carry, then `Vx` is the sum modulo 256.
    /// With `X = F` the sum is what stays in `VF`.
    pub open spec fn add_vx_vy(self) -> Machine {
        let sum = self.vx() + self.vy();
        self.set_flag(sum > 255).set_vx((sum % 256) as u8).next()
    }

    /// `SUB Vx, Vy`: the flag is raised if `Vx > Vy`, then `Vx` is the
    /// difference modulo 256.
    pub open spec fn sub_vx_vy(self) -> Machine {
        self.set_flag(self.vx() > self.vy()).set_vx(((self.vx() - self.vy()) % 256) as u8).next()
    }

    /// `SHR Vx`: the flag is the lowest bit of `Vx`, then `Vx` is halved.
    pub open spec fn shr_vx_vy(self) -> Machine {
        self.set_flag(self.vx() % 2 == 1).set_vx(self.vx() / 2).next()
    }

    /// `SUBN Vx, Vy`: the flag is raised if `Vy > Vx`, then `Vx` is
    /// `Vy - Vx` modulo 256.
    pub open spec fn subn_vx_vy(self) -> Machine {
        self.set_flag(self.vy() > self.vx()).set_vx(((self.vy() - self.vx()) % 256) as u8).next()
    }

    /// `SHL Vx`: the flag is the highest bit of `Vx`, then `Vx` is doubled
    /// modulo 256.
    pub open spec fn shl_vx_vy(self) -> Machine {
        self.set_flag(self.vx() >= 128).set_vx(((self.vx() * 2) % 256) as u8).next()
    }

    /// `SNE Vx, Vy`.
    pub open spec fn sne_vx_vy(self) -> Machine {
        self.skip_if(self.vx() != self.vy())
    }

    /// `LD I, NNN`.
    pub open spec fn annn_ld_i_addr(self) -> Machine {
        Machine { index_register: self.nnn(), ..self }.next()
    }

    /// `JP V0, NNN`: the program counter is `NNN + V0`, moved on by one
    /// instruction like after any other instruction.
    pub open spec fn bnnn_jp_v0_addr(self) -> Machine {
        Machine { program_counter: (self.nnn() + self.registers[0] + 2) as u16, ..self }
    }

    /// `RND Vx, KK` when the random byte drawn is `random`.
    pub open spec fn rnd_vx_byte(self, random: u8) -> Machine {
        self.set_vx(random & self.kk()).next()
    }

    /// The rows of the sprite of `DRW`: `N` bytes of memory from `I`.
    pub open spec fn sprite(self) -> Seq<u8> {
        Seq::new(self.n() as nat, |r: int| self.memory[self.index_register + r])
    }

    /// What `DRW` draws, and where.
    pub open spec fn drawing(self) -> Draw {
        Draw { sprite: self.sprite(), vx: self.vx(), vy: self.vy() }
    }

    /// `DRW Vx, Vy, N`: the sprite is drawn at (`Vx`, `Vy`) as the registers
    /// stand before the instruction; `VF` tells whether a pixel went off; a
    /// redraw is pending.
    pub open spec fn dxyn_drw_vx_vy_nibble(self) -> Machine {
        Machine {
            gfx: blit(self.gfx, self.sprite(), self.vx(), self.vy()),
            draw: true,
            ..self.set_flag(collides(self.gfx, self.sprite(), self.vx(), self.vy()))
        }.next()
    }

    /// `SKP Vx`.
    pub open spec fn ex9e_skp_vx(self) -> Machine {
        self.skip_if(self.key_state[self.vx() as int])
    }

    /// `SKNP Vx`.
    pub open spec fn exa1_sknp_vx(self) -> Machine {
        self.skip_if(!self.key_state[self.vx() as int])
    }

    /// `LD Vx, DT`.
    pub open spec fn fx07_ld_vx_dt(self) -> Machine {
        self.set_vx(self.delay_timer).next()
    }

    /// `LD Vx, K`: with a key held, `Vx` is the lowest such key and the
    /// program goes on; with none held nothing changes, so that the
    /// instruction is fetched again.
    pub open spec fn fx0a_ld_vx_k(self) -> Machine {
        match lowest_held(self.key_state) {
            Some(k) => self.set_vx(k as u8).next(),
            None => self,
        }
    }

    /// `LD DT, Vx`.
    pub open spec fn fx15_ld_dt_vx(self) -> Machine {
        Machine { delay_timer: self.vx(), ..self }.next()
    }

    /// `LD ST, Vx`.
    pub open spec fn fx18_ld_st_vx(self) -> Machine {
        Machine { sound_timer: self.vx(), ..self }.next()
    }

    /// `ADD I, Vx`: the sum modulo 65536.
    pub open spec fn fx1e_add_i_vx(self) -> Machine {
        Machine {
            index_register: ((self.index_register + self.vx()) % 0x10000) as u16,
            ..self
        }.next()
    }

    /// `LD F, Vx`: five bytes for each glyph.
    pub open spec fn fx29_ld_f_vx(self) -> Machine {
        Machine { index_register: (self.vx() * 5) as u16, ..self }.next()
    }

    /// `LD B, Vx`: hundreds, tens and units of `Vx` at `I`, `I + 1` and
    /// `I + 2`.
    pub open spec fn fx33_ld_b_vx(self) -> Machine {
        let i = self.index_register as int;
        Machine {
            memory: self.memory.update(i, self.vx() / 100).update(
                i + 1,
                (self.vx() / 10) % 10,
            ).update(i + 2, self.vx() % 10),
            ..self
        }.next()
    }

    /// `LD [I], Vx`: `V0..=Vx` go to memory from `I`.
    pub open spec fn fx55_ld_i_vx(self) -> Machine {
        let i = self.index_register as int;
        Machine {
            memory: Seq::new(
                self.memory.len(),
                |a: int|
                    if i <= a <= i + self.x() {
                        self.registers[a - i]
                    } else {
                        self.memory[a]
                    },
            ),
            ..self
        }.next()
    }

    /// `LD Vx, [I]`: `V0..=Vx` come from memory from `I`.
    pub open spec fn fx65_ld_vx_i(self) -> Machine {
        Machine {
            registers: Seq::new(
                self.registers.len(),
                |r: int|
                    if r <= self.x() {
                        self.memory[self.index_register + r]
                    } else {
                        self.registers[r]
                    },
            ),
            ..self
        }.next()
    }

    /// The fault that moving the program counter forward by `by` raises.
    pub open spec fn advance_fault(self, by: int) -> Option<Fault> {
        if self.program_counter + by > 0xFFFF {
            Some(Fault::ProgramCounterOverflow)
        } else {
            None
        }
    }

    /// The fault that moving on, or skipping if `skip` holds, raises.
    pub open spec fn skip_fault(self, skip: bool) -> Option<Fault> {
        self.advance_fault(
            if skip {
                4
            } else {
                2
            },
        )
    }

    /// The fault that `operation`, with the operands of the current
    /// instruction, raises in this state; `None` where it can be carried out.
    pub open spec fn operation_fault(self, operation: Operation) -> Option<Fault> {
        match operation {
            Operation::Ret => if self.stack_pointer == 0 {
                Some(Fault::StackUnderflow)
            } else if self.stack_pointer > 16 {
                Some(Fault::StackOverflow)
            } else {
                None
            },
            Operation::JpAddr | Operation::JpV0Addr => None,
            Operation::CallAddr => if self.stack_pointer >= 16 {
                Some(Fault::StackOverflow)
            } else {
                self.advance_fault(2)
            },
            Operation::SeVxByte => self.skip_fault(self.vx() == self.kk()),
            Operation::SneVxByte => self.skip_fault(self.vx() != self.kk()),
            Operation::SeVxVy => self.skip_fault(self.vx() == self.vy()),
            Operation::SneVxVy => self.skip_fault(self.vx() != self.vy()),
            Operation::DrwVxVyNibble => if self.n() > 0 && self.index_register + self.n() > 4096 {
                Some(Fault::AddressOutOfRange)
            } else {
                self.advance_fault(2)
            },
            Operation::SkpVx => if self.vx() >= 16 {
                Some(Fault::KeyOutOfRange)
            } else {
                self.skip_fault(self.key_state[self.vx() as int])
            },
            Operation::SknpVx => if self.vx() >= 16 {
                Some(Fault::KeyOutOfRange)
            } else {
                self.skip_fault(!self.key_state[self.vx() as int])
            },
            Operation::LdVxK => if lowest_held(self.key_state) is Some {
                self.advance_fault(2)
            } else {
                None
            },
            Operation::LdBVx => if self.index_register < PROGRAM_START {
                Some(Fault::ReservedMemory)
            } else if self.index_register + 2 >= 4096 {
                Some(Fault::AddressOutOfRange)
            } else {
                self.advance_fault(2)
            },
            Operation::LdIVx => if self.index_register < PROGRAM_START {
                Some(Fault::ReservedMemory)
            } else if self.index_register + self.x() >= 4096 {
                Some(Fault::AddressOutOfRange)
            } else {
                self.advance_fault(2)
            },
            Operation::LdVxI => if self.index_register + self.x() >= 4096 {
                Some(Fault::AddressOutOfRange)
            } else {
                self.advance_fault(2)
            },
            _ => self.advance_fault(2),
        }
    }

    /// The fault that the current instruction raises in this state.
    pub open spec fn fault(self) -> Option<Fault> {
        match decode_word(self.opcode) {
            None => Some(
                Fault::UnknownInstruction {
                    program_counter: self.program_counter,
                    opcode: self.opcode,
                },
            ),
            Some(operation) => self.operation_fault(operation),
        }
    }

    /// The state after `operation` with the operands of the current
    /// instruction; `random` is the byte drawn for `RND`.
    pub open spec fn perform(self, operation: Operation, random: u8) -> Machine {
        match operation {
            Operation::Cls => self.cls(),
            Operation::Ret => self.ret(),
            Operation::JpAddr => self.jp_addr(),
            Operation::CallAddr => self.call_adr(),
            Operation::SeVxByte => self.se_vx_byte(),
            Operation::SneVxByte => self.sne_vx_byte(),
            Operation::SeVxVy => self.se_vx_vy(),
            Operation::LdVxByte => self.ld_vx_byte(),
            Operation::AddVxByte => self.add_vx_byte(),
            Operation::LdVxVy => self.ld_vx_vy(),
            Operation::OrVxVy => self.or_vx_vy(),
            Operation::AndVxVy => self.and_vx_vy(),
            Operation::XorVxVy => self.xor_vx_vy(),
            Operation::AddVxVy => self.add_vx_vy(),
            Operation::SubVxVy => self.sub_vx_vy(),
            Operation::ShrVx => self.shr_vx_vy(),
            Operation::SubnVxVy => self.subn_vx_vy(),
            Operation::ShlVx => self.shl_vx_vy(),
            Operation::SneVxVy => self.sne_vx_vy(),
            Operation::LdIAddr => self.annn_ld_i_addr(),
            Operation::JpV0Addr => self.bnnn_jp_v0_addr(),
            Operation::RndVxByte => self.rnd_vx_byte(random),
            Operation::DrwVxVyNibble => self.dxyn_drw_vx_vy_nibble(),
            Operation::SkpVx => self.ex9e_skp_vx(),
            Operation::SknpVx => self.exa1_sknp_vx(),
            Operation::LdVxDt => self.fx07_ld_vx_dt(),
            Operation::LdVxK => self.fx0a_ld_vx_k(),
            Operation::LdDtVx => self.fx15_ld_dt_vx(),
            Operation::LdStVx => self.fx18_ld_st_vx(),
            Operation::AddIVx => self.fx1e_add_i_vx(),
            Operation::LdFVx => self.fx29_ld_f_vx(),
            Operation::LdBVx => self.fx33_ld_b_vx(),
            Operation::LdIVx => self.fx55_ld_i_vx(),
            Operation::LdVxI => self.fx65_ld_vx_i(),
        }
    }

    /// The state after the current instruction; `random` is the byte drawn
    /// for `RND`. A word that selects no operation leaves the state alone.
    pub open spec fn execute(self, random: u8) -> Machine {
        match decode_word(self.opcode) {
            Some(operation) => self.perform(operation, random),
            None => self,
        }
    }

    /// What interpreting the current instruction gives: the fault and the
    /// state as it was, or the state after the instruction.
    pub open spec fn interpret(self, random: u8) -> (Machine, Result<(), Fault>) {
        match self.fault() {
            Some(fault) => (self, Err(fault)),
            None => (self.execute(random), Ok(())),
        }
    }

    /// The timers are serviced in this cycle.
    pub open spec fn timers_due(self) -> bool {
        self.timer_counter + 1 >= CYCLES_PER_TICK
    }

    /// The state after the timer policy of one cycle: the cycle is counted,
    /// and with the tenth cycle both timers count down and the count starts
    /// again.
    pub open spec fn tick(self) -> Machine {
        if self.timers_due() {
            Machine {
                delay_timer: counted_down(self.delay_timer),
                sound_timer: counted_down(self.sound_timer),
                timer_counter: 0,
                ..self
            }
        } else {
            Machine { timer_counter: (self.timer_counter + 1) as u8, ..self }
        }
    }

    /// What the timer policy of one cycle tells the audio device.
    pub open spec fn sound_signal(self) -> SoundSignal {
        if !self.timers_due() {
            SoundSignal::NoChange
        } else if self.sound_timer == 1 {
            SoundSignal::Expired
        } else if self.sound_timer == 0 {
            SoundSignal::Silent
        } else {
            SoundSignal::NoChange
        }
    }

    /// The instruction word at the program counter: two bytes, the high byte
    /// first.
    pub open spec fn word_at_pc(self) -> u16 {
        (self.memory[self.program_counter as int] * 256 + self.memory[self.program_counter + 1]) as u16
    }

    /// The state with the instruction at the program counter fetched into
    /// `opcode`.
    pub open spec fn fetched(self) -> Machine {
        Machine { opcode: self.word_at_pc(), ..self }
    }

    /// The fault that one cycle raises: the instruction lies past the end of
    /// memory, or it raises a fault itself.
    pub open spec fn cycle_fault(self) -> Option<Fault> {
        if self.program_counter + 1 >= 4096 {
            Some(Fault::AddressOutOfRange)
        } else {
            self.fetched().fault()
        }
    }

    /// The state after one cycle: fetch, execute, timer policy.
    pub open spec fn cycle(self, random: u8) -> Machine {
        self.fetched().execute(random).tick()
    }

    /// What the timer policy of one cycle tells the audio device.
    pub open spec fn cycle_signal(self, random: u8) -> SoundSignal {
        self.fetched().execute(random).sound_signal()
    }

    /// The state in which a faulting cycle leaves the machine: an
    /// instruction that was fetched stays in `opcode`, nothing else changes.
    pub open spec fn halted(self) -> Machine {
        if self.program_counter + 1 >= 4096 {
            self
        } else {
            self.fetched()
        }
    }

    /// What one cycle gives: the fault and the state in which it leaves the
    /// machine, or the state after the cycle and the signal for the audio
    /// device.
    pub open spec fn run_cycle(self, random: u8) -> (Machine, Result<SoundSignal, Fault>) {
        match self.cycle_fault() {
            Some(fault) => (self.halted(), Err(fault)),
            None => (self.cycle(random), Ok(self.cycle_signal(random))),
        }
    }

    /// The state after one cycle for each byte of `randoms`, the byte being
    /// what `RND` draws in that cycle; no cycle is to raise a fault.
    pub open spec fn cycles(self, randoms: Seq<u8>) -> Machine
        decreases randoms.len(),
    {
        if randoms.len() == 0 {
            self
        } else {
            self.cycles(randoms.drop_last()).cycle(randoms.last())
        }
    }

    /// The state after the timer policy of `n` cycles in which nothing else
    /// happens.
    pub open spec fn ticks(self, n: nat) -> Machine
        decreases n,
    {
        if n == 0 {
            self
        } else {
            self.ticks((n - 1) as nat).tick()
        }
    }

    /// The next cycle fetches a `LD Vx, K`.
    pub open spec fn waits_for_key(self) -> bool {
        &&& self.program_counter + 1 < 4096
        &&& decode_word(self.word_at_pc()) == Some(Operation::LdVxK)
    }

    /// No cycle of the run that draws `randoms` raises a fault.
    pub open spec fn runs(self, randoms: Seq<u8>) -> bool
        decreases randoms.len(),
    {
        randoms.len() == 0 || (self.runs(randoms.drop_last()) && self.cycles(
            randoms.drop_last(),
        ).cycle_fault() is None)
    }

    /// The memory below `PROGRAM_START` is the same in both states.
    pub open spec fn same_reserved_memory(self, other: Machine) -> bool {
        forall|a: int| 0 <= a < PROGRAM_START ==> self.memory[a] == other.memory[a]
    }

    /// What the machine keeps to from cycle to cycle: the stack pointer
    /// within the stack, every pixel on or off, the cycle count below ten.
    pub open spec fn inv(self) -> bool {
        &&& self.stack_pointer <= 16
        &&& self.timer_counter < 10
        &&& forall|p: int| 0 <= p < self.gfx.len() ==> self.gfx[p] <= 1
    }

    /// The state with `program` loaded at `PROGRAM_START`.
    pub open spec fn load_game(self, program: Seq<u8>) -> Machine {
        Machine {
            memory: Seq::new(
                self.memory.len(),
                |a: int|
                    if PROGRAM_START <= a < PROGRAM_START + program.len() {
                        program[a - PROGRAM_START]
                    } else {
                        self.memory[a]
                    },
            ),
            ..self
        }
    }

    /// The state with the font at the bottom of memory.
    pub open spec fn load_fontset(self) -> Machine {
        Machine {
            memory: Seq::new(
                self.memory.len(),
                |a: int|
                    if 0 <= a < 80 {
                        FONTSET@[a]
                    } else {
                        self.memory[a]
                    },
            ),
            ..self
        }
    }
}

/// The lowest held key is the key that is held with none held below it.
pub proof fn lemma_lowest_held(keys: Seq<bool>, k: int)
    requires
        is_lowest_held(keys, k),
    ensures
        lowest_held(keys) == Some(k),
{
    let c = choose|c: int| is_lowest_held(keys, c);
    assert(is_lowest_held(keys, c));
    if c < k {
        assert(!keys[c]);
    } else if k < c {
        assert(!keys[k]);
    }
}

/// With no key held there is no lowest held key.
pub proof fn lemma_none_held(keys: Seq<bool>)
    requires
        forall|j: int| 0 <= j < keys.len() ==> !keys[j],
    ensures
        lowest_held(keys) is None,
{
}

} // verus!
