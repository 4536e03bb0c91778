//! The instructions, one function each. Every function reads its operands
//! from `cpu.opcode` and leaves the program counter where the next cycle is
//! to fetch.

use vstd::prelude::*;
use crate::cpu::CPU;
use crate::display::{
    collides_before, hits_before, lemma_walk_bit, lemma_walk_bit_collides,
    lemma_walk_end, lemma_walk_row, lemma_walk_start, lights, pixel_index, sprite_bit,
};
use crate::instruction::{kk_of, n_of, nnn_of, x_of, y_of};
use crate::machine::{lemma_lowest_held, lemma_none_held, lowest_held, Machine};
use crate::random::random_byte;

verus! {

/// `CLS`: clears the display and asks for a redraw.
pub fn cls(cpu: &mut CPU)
    requires
        old(cpu).program_counter + 2 <= 0xFFFF,
    ensures
        final(cpu)@ == old(cpu)@.cls(),
{
    cpu.gfx = [0; 2048];
    cpu.draw = true;
    cpu.program_counter += 2;
    assert(cpu@ =~= old(cpu)@.cls());
}

/// `RET`: pops the return address into the program counter.
pub fn ret(cpu: &mut CPU)
    requires
        0 < old(cpu).stack_pointer <= 16,
    ensures
        final(cpu)@ == old(cpu)@.ret(),
{
    cpu.stack_pointer -= 1;
    cpu.program_counter = cpu.stack[cpu.stack_pointer as usize];
}

/// `JP NNN`: jumps to `NNN`.
pub fn jp_addr(cpu: &mut CPU)
    ensures
        final(cpu)@ == old(cpu)@.jp_addr(),
{
    cpu.program_counter = nnn_of(cpu.opcode);
}

/// `CALL NNN`: pushes the address of the next instruction and jumps to
/// `NNN`.
pub fn call_adr(cpu: &mut CPU)
    requires
        old(cpu).stack_pointer < 16,
        old(cpu).program_counter + 2 <= 0xFFFF,
    ensures
        final(cpu)@ == old(cpu)@.call_adr(),
{
    cpu.stack[cpu.stack_pointer as usize] = cpu.program_counter + 2;
    cpu.stack_pointer += 1;
    cpu.program_counter = nnn_of(cpu.opcode);
}

/// Moves the program counter past the next instruction if `skip` holds, to
/// the next instruction otherwise.
fn skip_if(cpu: &mut CPU, skip: bool)
    requires
        old(cpu)@.skip_fault(skip) is None,
    ensures
        final(cpu)@ == old(cpu)@.skip_if(skip),
{
    if skip {
        cpu.program_counter += 4;
    } else {
        cpu.program_counter += 2;
    }
}

/// `SE Vx, KK`: skips the next instruction if `Vx == KK`.
pub fn se_vx_byte(cpu: &mut CPU)
    requires
        old(cpu).program_counter + (if old(cpu)@.vx() == old(cpu)@.kk() {
            4int
        } else {
            2int
        }) <= 0xFFFF,
    ensures
        final(cpu)@ == old(cpu)@.se_vx_byte(),
{
    let vx = cpu.registers[x_of(cpu.opcode)];
    skip_if(cpu, vx == kk_of(cpu.opcode));
}

/// `SNE Vx, KK`: skips the next instruction if `Vx != KK`.
pub fn sne_vx_byte(cpu: &mut CPU)
    requires
        old(cpu).program_counter + (if old(cpu)@.vx() != old(cpu)@.kk() {
            4int
        } else {
            2int
        }) <= 0xFFFF,
    ensures
        final(cpu)@ == old(cpu)@.sne_vx_byte(),
{
    let vx = cpu.registers[x_of(cpu.opcode)];
    skip_if(cpu, vx != kk_of(cpu.opcode));
}

/// `SE Vx, Vy`: skips the next instruction if `Vx == Vy`.
pub fn se_vx_vy(cpu: &mut CPU)
    requires
        old(cpu).program_counter + (if old(cpu)@.vx() == old(cpu)@.vy() {
            4int
        } else {
            2int
        }) <= 0xFFFF,
    ensures
        final(cpu)@ == old(cpu)@.se_vx_vy(),
{
    let vx = cpu.registers[x_of(cpu.opcode)];
    let vy = cpu.registers[y_of(cpu.opcode)];
    skip_if(cpu, vx == vy);
}

/// `LD Vx, KK`: `Vx = KK`.
pub fn ld_vx_byte(cpu: &mut CPU)
    requires
        old(cpu).program_counter + 2 <= 0xFFFF,
    ensures
        final(cpu)@ == old(cpu)@.ld_vx_byte(),
{
    cpu.registers[x_of(cpu.opcode)] = kk_of(cpu.opcode);
    cpu.program_counter += 2;
}

/// `ADD Vx, KK`: `Vx = (Vx + KK) mod 256`; `VF` is not touched.
pub fn add_vx_byte(cpu: &mut CPU)
    requires
        old(cpu).program_counter + 2 <= 0xFFFF,
    ensures
        final(cpu)@ == old(cpu)@.add_vx_byte(),
{
    let x = x_of(cpu.opcode);
    let sum = cpu.registers[x] as u16 + kk_of(cpu.opcode) as u16;
    cpu.registers[x] = (sum % 256) as u8;
    cpu.program_counter += 2;
}

/// `LD Vx, Vy`: `Vx = Vy`.
pub fn ld_vx_vy(cpu: &mut CPU)
    requires
        old(cpu).program_counter + 2 <= 0xFFFF,
    ensures
        final(cpu)@ == old(cpu)@.ld_vx_vy(),
{
    let vy = cpu.registers[y_of(cpu.opcode)];
    cpu.registers[x_of(cpu.opcode)] = vy;
    cpu.program_counter += 2;
}

/// `OR Vx, Vy`: `Vx = Vx | Vy`.
pub fn or_vx_vy(cpu: &mut CPU)
    requires
        old(cpu).program_counter + 2 <= 0xFFFF,
    ensures
        final(cpu)@ == old(cpu)@.or_vx_vy(),
{
    let x = x_of(cpu.opcode);
    let vx = cpu.registers[x];
    let vy = cpu.registers[y_of(cpu.opcode)];
    cpu.registers[x] = vx | vy;
    cpu.program_counter += 2;
}

/// `AND Vx, Vy`: `Vx = Vx & Vy`.
pub fn and_vx_vy(cpu: &mut CPU)
    requires
        old(cpu).program_counter + 2 <= 0xFFFF,
    ensures
        final(cpu)@ == old(cpu)@.and_vx_vy(),
{
    let x = x_of(cpu.opcode);
    let vx = cpu.registers[x];
    let vy = cpu.registers[y_of(cpu.opcode)];
    cpu.registers[x] = vx & vy;
    cpu.program_counter += 2;
}

/// `XOR Vx, Vy`: `Vx = Vx ^ Vy`.
pub fn xor_vx_vy(cpu: &mut CPU)
    requires
        old(cpu).program_counter + 2 <= 0xFFFF,
    ensures
        final(cpu)@ == old(cpu)@.xor_vx_vy(),
{
    let x = x_of(cpu.opcode);
    let vx = cpu.registers[x];
    let vy = cpu.registers[y_of(cpu.opcode)];
    cpu.registers[x] = vx ^ vy;
    cpu.program_counter += 2;
}

/// `ADD Vx, Vy`: `VF` = 1 if `Vx + Vy > 255`, else 0; then
/// `Vx = (Vx + Vy) mod 256`.
pub fn add_vx_vy(cpu: &mut CPU)
    requires
        old(cpu).program_counter + 2 <= 0xFFFF,
    ensures
        final(cpu)@ == old(cpu)@.add_vx_vy(),
{
    let x = x_of(cpu.opcode);
    let vx = cpu.registers[x] as u16;
    let vy = cpu.registers[y_of(cpu.opcode)] as u16;
    let sum = vx + vy;

    if sum > 0xFF {
        cpu.registers[0xF] = 1;
    } else {
        cpu.registers[0xF] = 0;
    }
    cpu.registers[x] = (sum % 256) as u8;
    cpu.program_counter += 2;
}

/// `SUB Vx, Vy`: `VF` = 1 if `Vx > Vy`, else 0; then
/// `Vx = (Vx - Vy) mod 256`.
pub fn sub_vx_vy(cpu: &mut CPU)
    requires
        old(cpu).program_counter + 2 <= 0xFFFF,
    ensures
        final(cpu)@ == old(cpu)@.sub_vx_vy(),
{
    let x = x_of(cpu.opcode);
    let vx = cpu.registers[x];
    let vy = cpu.registers[y_of(cpu.opcode)];

    if vx > vy {
        cpu.registers[0xF] = 1;
    } else {
        cpu.registers[0xF] = 0;
    }
    cpu.registers[x] = vx.wrapping_sub(vy);
    cpu.program_counter += 2;
}

/// `SHR Vx`: `VF` = the lowest bit of `Vx`; then `Vx = Vx >> 1`.
pub fn shr_vx_vy(cpu: &mut CPU)
    requires
        old(cpu).program_counter + 2 <= 0xFFFF,
    ensures
        final(cpu)@ == old(cpu)@.shr_vx_vy(),
{
    let x = x_of(cpu.opcode);
    let vx = cpu.registers[x];
    assert(vx >> 1 == vx / 2) by (bit_vector);
    assert((vx & 1 == 1) == (vx % 2 == 1)) by (bit_vector);

    if vx & 0b0000_0001 == 0b0000_0001 {
        cpu.registers[0xF] = 1;
    } else {
        cpu.registers[0xF] = 0;
    }
    cpu.registers[x] = vx >> 1;
    cpu.program_counter += 2;
}

/// `SUBN Vx, Vy`: `VF` = 1 if `Vy > Vx`, else 0; then
/// `Vx = (Vy - Vx) mod 256`.
pub fn subn_vx_vy(cpu: &mut CPU)
    requires
        old(cpu).program_counter + 2 <= 0xFFFF,
    ensures
        final(cpu)@ == old(cpu)@.subn_vx_vy(),
{
    let x = x_of(cpu.opcode);
    let vx = cpu.registers[x];
    let vy = cpu.registers[y_of(cpu.opcode)];

    if vy > vx {
        cpu.registers[0xF] = 1;
    } else {
        cpu.registers[0xF] = 0;
    }
    cpu.registers[x] = vy.wrapping_sub(vx);
    cpu.program_counter += 2;
}

/// `SHL Vx`: `VF` = the highest bit of `Vx`; then `Vx = (Vx << 1) mod 256`.
pub fn shl_vx_vy(cpu: &mut CPU)
    requires
        old(cpu).program_counter + 2 <= 0xFFFF,
    ensures
        final(cpu)@ == old(cpu)@.shl_vx_vy(),
{
    let x = x_of(cpu.opcode);
    let vx = cpu.registers[x];
    assert(vx << 1 == (vx * 2) % 256) by (bit_vector);
    assert((vx & 0x80 == 0x80) == (vx >= 128)) by (bit_vector);

    if vx & 0b1000_0000 == 0b1000_0000 {
        cpu.registers[0xF] = 1;
    } else {
        cpu.registers[0xF] = 0;
    }
    cpu.registers[x] = vx << 1;
    cpu.program_counter += 2;
}

/// `SNE Vx, Vy`: skips the next instruction if `Vx != Vy`.
pub fn sne_vx_vy(cpu: &mut CPU)
    requires
        old(cpu).program_counter + (if old(cpu)@.vx() != old(cpu)@.vy() {
            4int
        } else {
            2int
        }) <= 0xFFFF,
    ensures
        final(cpu)@ == old(cpu)@.sne_vx_vy(),
{
    let vx = cpu.registers[x_of(cpu.opcode)];
    let vy = cpu.registers[y_of(cpu.opcode)];
    skip_if(cpu, vx != vy);
}

/// `LD I, NNN`: `I = NNN`.
pub fn annn_ld_i_addr(cpu: &mut CPU)
    requires
        old(cpu).program_counter + 2 <= 0xFFFF,
    ensures
        final(cpu)@ == old(cpu)@.annn_ld_i_addr(),
{
    cpu.index_register = nnn_of(cpu.opcode);
    cpu.program_counter += 2;
}

/// `JP V0, NNN`: the program counter becomes `NNN + V0 + 2`: the jump is
/// followed by the step to the next instruction that every instruction ends
/// with.
pub fn bnnn_jp_v0_addr(cpu: &mut CPU)
    ensures
        final(cpu)@ == old(cpu)@.bnnn_jp_v0_addr(),
{
    cpu.program_counter = nnn_of(cpu.opcode) + cpu.registers[0x0] as u16;
    cpu.program_counter += 2;
}

/// `RND Vx, KK` with the random byte given: `Vx = random & KK`.
pub fn rnd_vx_byte(cpu: &mut CPU, random: u8)
    requires
        old(cpu).program_counter + 2 <= 0xFFFF,
    ensures
        final(cpu)@ == old(cpu)@.rnd_vx_byte(random),
{
    cpu.registers[x_of(cpu.opcode)] = random & kk_of(cpu.opcode);
    cpu.program_counter += 2;
}

/// `RND Vx, KK`: draws a random byte and stores it, masked with `KK`, in
/// `Vx`.
pub fn cxkk_rnd_vx_byte(cpu: &mut CPU)
    requires
        old(cpu).program_counter + 2 <= 0xFFFF,
    ensures
        exists|random: u8| final(cpu)@ == #[trigger] old(cpu)@.rnd_vx_byte(random),
{
    let random = random_byte();
    rnd_vx_byte(cpu, random);
}

/// `DRW Vx, Vy, N`: draws the `N`-row sprite at `I` at (`Vx`, `Vy`), flipping
/// the pixels under its set bits; `VF` becomes 1 if a pixel went off, else 0.
pub fn dxyn_drw_vx_vy_nibble(cpu: &mut CPU)
    requires
        old(cpu)@.n() > 0 ==> old(cpu).index_register + old(cpu)@.n() <= 4096,
        old(cpu).program_counter + 2 <= 0xFFFF,
    ensures
        final(cpu)@ == old(cpu)@.dxyn_drw_vx_vy_nibble(),
{
    let vx = cpu.registers[x_of(cpu.opcode)];
    let vy = cpu.registers[y_of(cpu.opcode)];
    let rows = n_of(cpu.opcode);
    let ghost before = cpu@;
    let ghost sprite = before.sprite();

    cpu.registers[0xF] = 0;
    proof {
        lemma_walk_start(before.gfx, sprite, vx, vy);
    }
    let mut y: u16 = 0;
    while y < rows
        invariant
            y <= rows < 16,
            rows > 0 ==> before.index_register + rows <= 4096,
            before.wf(),
            sprite == Seq::new(rows as nat, |r: int| before.memory[before.index_register + r]),
            cpu@ == (Machine { gfx: cpu@.gfx, registers: cpu@.registers, ..before }),
            cpu@.registers == before.registers.update(
                0xF,
                if collides_before(before.gfx, sprite, vx, vy, y as int, 0) {
                    1u8
                } else {
                    0u8
                },
            ),
            forall|p: int|
                0 <= p < 2048 ==> cpu@.gfx[p] == if hits_before(sprite, vx, vy, y as int, 0, p) {
                    before.gfx[p] ^ 1
                } else {
                    before.gfx[p]
                },
        decreases rows - y,
    {
        let pixel = cpu.memory[(cpu.index_register + y) as usize];
        let mut x: u8 = 0;
        while x < 8
            invariant
                x <= 8,
                y < rows < 16,
                before.index_register + rows <= 4096,
                before.wf(),
                sprite == Seq::new(rows as nat, |r: int| before.memory[before.index_register + r]),
                pixel == sprite[y as int],
                cpu@ == (Machine { gfx: cpu@.gfx, registers: cpu@.registers, ..before }),
                cpu@.registers == before.registers.update(
                    0xF,
                    if collides_before(before.gfx, sprite, vx, vy, y as int, x as int) {
                        1u8
                    } else {
                        0u8
                    },
                ),
                forall|p: int|
                    0 <= p < 2048 ==> cpu@.gfx[p] == if hits_before(
                        sprite,
                        vx,
                        vy,
                        y as int,
                        x as int,
                        p,
                    ) {
                        before.gfx[p] ^ 1
                    } else {
                        before.gfx[p]
                    },
            decreases 8 - x,
        {
            let ghost shown = cpu@.gfx;
            proof {
                lemma_walk_bit_collides(before.gfx, sprite, vx, vy, y as int, x as int);
                assert forall|p: int|
                    hits_before(sprite, vx, vy, y as int, x + 1, p) == (hits_before(
                        sprite,
                        vx,
                        vy,
                        y as int,
                        x as int,
                        p,
                    ) || lights(sprite, vx, vy, y as int, x as int, p)) && (lights(
                        sprite,
                        vx,
                        vy,
                        y as int,
                        x as int,
                        p,
                    ) ==> !hits_before(sprite, vx, vy, y as int, x as int, p)) by {
                    lemma_walk_bit(sprite, vx, vy, y as int, x as int, p);
                }
            }
            if pixel & (0x80 >> x) != 0 {
                let position = ((vx as u16 + x as u16) + (vy as u16 + y) * 64) % 2048;
                assert(position == pixel_index(vx, vy, y as int, x as int));
                assert(lights(sprite, vx, vy, y as int, x as int, position as int));
                if cpu.gfx[position as usize] == 1 {
                    cpu.registers[0xF] = 1;
                }
                cpu.gfx[position as usize] = cpu.gfx[position as usize] ^ 1;
            }
            assert(sprite_bit(pixel, x) == (pixel & (0x80u8 >> x) != 0));
            x += 1;
        }
        proof {
            lemma_walk_row(before.gfx, sprite, vx, vy, y as int);
        }
        y += 1;
    }
    cpu.draw = true;
    cpu.program_counter += 2;
    proof {
        lemma_walk_end(before.gfx, sprite, vx, vy);
        assert(cpu@ =~= old(cpu)@.dxyn_drw_vx_vy_nibble());
    }
}

/// `SKP Vx`: skips the next instruction if the key numbered `Vx` is held.
pub fn ex9e_skp_vx(cpu: &mut CPU)
    requires
        old(cpu)@.vx() < 16,
        old(cpu).program_counter + (if old(cpu)@.key_state[old(cpu)@.vx() as int] {
            4int
        } else {
            2int
        }) <= 0xFFFF,
    ensures
        final(cpu)@ == old(cpu)@.ex9e_skp_vx(),
{
    let key = cpu.registers[x_of(cpu.opcode)];
    let held = cpu.key_state[key as usize];
    skip_if(cpu, held);
}

/// `SKNP Vx`: skips the next instruction if the key numbered `Vx` is not
/// held.
pub fn exa1_sknp_vx(cpu: &mut CPU)
    requires
        old(cpu)@.vx() < 16,
        old(cpu).program_counter + (if !old(cpu)@.key_state[old(cpu)@.vx() as int] {
            4int
        } else {
            2int
        }) <= 0xFFFF,
    ensures
        final(cpu)@ == old(cpu)@.exa1_sknp_vx(),
{
    let key = cpu.registers[x_of(cpu.opcode)];
    let held = cpu.key_state[key as usize];
    skip_if(cpu, !held);
}

/// `LD Vx, DT`: `Vx` = the delay timer.
pub fn fx07_ld_vx_dt(cpu: &mut CPU)
    requires
        old(cpu).program_counter + 2 <= 0xFFFF,
    ensures
        final(cpu)@ == old(cpu)@.fx07_ld_vx_dt(),
{
    cpu.registers[x_of(cpu.opcode)] = cpu.delay_timer;
    cpu.program_counter += 2;
}

/// `LD Vx, K`: with a key held, `Vx` becomes the lowest held key and the
/// program goes on; with no key held nothing changes, and the next cycle
/// fetches this instruction again.
pub fn fx0a_ld_vx_k(cpu: &mut CPU)
    requires
        lowest_held(old(cpu)@.key_state) is Some ==> old(cpu).program_counter + 2 <= 0xFFFF,
    ensures
        final(cpu)@ == old(cpu)@.fx0a_ld_vx_k(),
{
    let mut i: usize = 0;
    while i < 16
        invariant
            i <= 16,
            *cpu == *old(cpu),
            lowest_held(cpu@.key_state) is Some ==> cpu.program_counter + 2 <= 0xFFFF,
            forall|j: int| 0 <= j < i ==> !cpu.key_state@[j],
        decreases 16 - i,
    {
        if cpu.key_state[i] {
            proof {
                lemma_lowest_held(cpu@.key_state, i as int);
            }
            cpu.registers[x_of(cpu.opcode)] = i as u8;
            cpu.program_counter += 2;
            return ;
        }
        i += 1;
    }
    proof {
        lemma_none_held(cpu@.key_state);
    }
}

/// `LD DT, Vx`: the delay timer = `Vx`.
pub fn fx15_ld_dt_vx(cpu: &mut CPU)
    requires
        old(cpu).program_counter + 2 <= 0xFFFF,
    ensures
        final(cpu)@ == old(cpu)@.fx15_ld_dt_vx(),
{
    cpu.delay_timer = cpu.registers[x_of(cpu.opcode)];
    cpu.program_counter += 2;
}

/// `LD ST, Vx`: the sound timer = `Vx`.
pub fn fx18_ld_st_vx(cpu: &mut CPU)
    requires
        old(cpu).program_counter + 2 <= 0xFFFF,
    ensures
        final(cpu)@ == old(cpu)@.fx18_ld_st_vx(),
{
    cpu.sound_timer = cpu.registers[x_of(cpu.opcode)];
    cpu.program_counter += 2;
}

/// `ADD I, Vx`: `I = (I + Vx) mod 65536`; no flag.
pub fn fx1e_add_i_vx(cpu: &mut CPU)
    requires
        old(cpu).program_counter + 2 <= 0xFFFF,
    ensures
        final(cpu)@ == old(cpu)@.fx1e_add_i_vx(),
{
    let vx = cpu.registers[x_of(cpu.opcode)] as u16;
    cpu.index_register = cpu.index_register.wrapping_add(vx);
    cpu.program_counter += 2;
}

/// `LD F, Vx`: `I = Vx * 5`, where the glyph of digit `Vx` starts.
pub fn fx29_ld_f_vx(cpu: &mut CPU)
    requires
        old(cpu).program_counter + 2 <= 0xFFFF,
    ensures
        final(cpu)@ == old(cpu)@.fx29_ld_f_vx(),
{
    let vx = cpu.registers[x_of(cpu.opcode)];
    cpu.index_register = vx as u16 * 5;
    cpu.program_counter += 2;
}

/// `LD B, Vx`: stores the hundreds, tens and units of `Vx` at `I`, `I + 1`
/// and `I + 2`. `I` is at or above `0x200`: the memory below is not for a
/// program to write.
pub fn fx33_ld_b_vx(cpu: &mut CPU)
    requires
        0x200 <= old(cpu).index_register,
        old(cpu).index_register + 2 < 4096,
        old(cpu).program_counter + 2 <= 0xFFFF,
    ensures
        final(cpu)@ == old(cpu)@.fx33_ld_b_vx(),
{
    let vx = cpu.registers[x_of(cpu.opcode)];

    cpu.memory[cpu.index_register as usize] = vx / 100;
    cpu.memory[(cpu.index_register + 1) as usize] = (vx / 10) % 10;
    cpu.memory[(cpu.index_register + 2) as usize] = vx % 10;
    cpu.program_counter += 2;
}

/// `LD [I], Vx`: copies `V0..=Vx` to memory from `I`. `I` is at or above
/// `0x200`: the memory below is not for a program to write.
pub fn fx55_ld_i_vx(cpu: &mut CPU)
    requires
        0x200 <= old(cpu).index_register,
        old(cpu).index_register + old(cpu)@.x() < 4096,
        old(cpu).program_counter + 2 <= 0xFFFF,
    ensures
        final(cpu)@ == old(cpu)@.fx55_ld_i_vx(),
{
    let x = x_of(cpu.opcode);
    let base = cpu.index_register as usize;
    let mut i: usize = 0;
    while i <= x
        invariant
            i <= x + 1,
            x < 16,
            base == old(cpu).index_register,
            base + x < 4096,
            cpu@ == (Machine { memory: cpu@.memory, ..old(cpu)@ }),
            forall|a: int|
                0 <= a < 4096 ==> cpu@.memory[a] == if base <= a < base + i {
                    old(cpu)@.registers[a - base]
                } else {
                    old(cpu)@.memory[a]
                },
        decreases x + 1 - i,
    {
        cpu.memory[base + i] = cpu.registers[i];
        i += 1;
    }
    cpu.program_counter += 2;
    assert(cpu@ =~= old(cpu)@.fx55_ld_i_vx());
}

/// `LD Vx, [I]`: copies memory from `I` to `V0..=Vx`.
pub fn fx65_ld_vx_i(cpu: &mut CPU)
    requires
        old(cpu).index_register + old(cpu)@.x() < 4096,
        old(cpu).program_counter + 2 <= 0xFFFF,
    ensures
        final(cpu)@ == old(cpu)@.fx65_ld_vx_i(),
{
    let x = x_of(cpu.opcode);
    let base = cpu.index_register as usize;
    let mut i: usize = 0;
    while i <= x
        invariant
            i <= x + 1,
            x < 16,
            base == old(cpu).index_register,
            base + x < 4096,
            cpu@ == (Machine { registers: cpu@.registers, ..old(cpu)@ }),
            forall|r: int|
                0 <= r < 16 ==> cpu@.registers[r] == if r < i {
                    old(cpu)@.memory[base + r]
                } else {
                    old(cpu)@.registers[r]
                },
        decreases x + 1 - i,
    {
        cpu.registers[i] = cpu.memory[base + i];
        i += 1;
    }
    cpu.program_counter += 2;
    assert(cpu@ =~= old(cpu)@.fx65_ld_vx_i());
}

} // verus!
