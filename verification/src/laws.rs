//! What holds of the instructions whatever the state they run in.

use vstd::prelude::*;
use crate::display::{cleared, collides, coverage, hits, lemma_flip, paint, Draw};
use crate::instruction::{decode_word, operand_x, Operation};
use crate::machine::{is_lowest_held, lemma_lowest_held, lemma_none_held, Machine};

verus! {

/// `ADD Vx, Vy` leaves the sum modulo 256 in `Vx`, and raises `VF` exactly
/// when the sum is above 255. With `X = F` the flag is overwritten by the
/// sum, so the flag is stated for the other registers only.
pub proof fn lemma_add_carry(m: Machine)
    requires
        m.wf(),
    ensures
        m.add_vx_vy().registers[m.x()] == (m.vx() + m.vy()) % 256,
        m.x() != 0xF ==> (m.add_vx_vy().registers[0xF] == 1 <==> m.vx() + m.vy() > 255),
        m.x() != 0xF ==> (m.add_vx_vy().registers[0xF] == 0 <==> m.vx() + m.vy() <= 255),
{
}

/// `SUB Vx, Vy` leaves the difference modulo 256 in `Vx`, and raises `VF`
/// exactly when `Vx > Vy`. With `X = F` the flag is overwritten by the
/// difference, so the flag is stated for the other registers only.
pub proof fn lemma_sub_borrow(m: Machine)
    requires
        m.wf(),
    ensures
        m.sub_vx_vy().registers[m.x()] == (m.vx() - m.vy()) % 256,
        m.x() != 0xF ==> (m.sub_vx_vy().registers[0xF] == 1 <==> m.vx() > m.vy()),
        m.x() != 0xF ==> (m.sub_vx_vy().registers[0xF] == 0 <==> m.vx() <= m.vy()),
{
}

/// `SUBN Vx, Vy` leaves `Vy - Vx` modulo 256 in `Vx`, and raises `VF`
/// exactly when `Vy > Vx`; the flag is stated for `X` other than `F`.
pub proof fn lemma_subn_borrow(m: Machine)
    requires
        m.wf(),
    ensures
        m.subn_vx_vy().registers[m.x()] == (m.vy() - m.vx()) % 256,
        m.x() != 0xF ==> (m.subn_vx_vy().registers[0xF] == 1 <==> m.vy() > m.vx()),
        m.x() != 0xF ==> (m.subn_vx_vy().registers[0xF] == 0 <==> m.vy() <= m.vx()),
{
}

/// `SHR Vx` shifts `Vx` right by one bit and keeps the bit that falls off in
/// `VF`: nothing of the old value is lost. The flag is stated for `X` other
/// than `F`.
pub proof fn lemma_shr_keeps_bit(m: Machine)
    requires
        m.wf(),
    ensures
        m.shr_vx_vy().registers[m.x()] == m.vx() >> 1,
        m.x() != 0xF ==> m.shr_vx_vy().registers[0xF] == m.vx() & 1,
        m.x() != 0xF ==> m.vx() == 2 * m.shr_vx_vy().registers[m.x()] + m.shr_vx_vy().registers[0xF],
{
    let v = m.vx();
    assert(v >> 1 == v / 2) by (bit_vector);
    assert(v & 1 == v % 2) by (bit_vector);
}

/// `SHL Vx` shifts `Vx` left by one bit within eight bits and keeps the bit
/// that falls off in `VF`: nothing of the old value is lost. The flag is
/// stated for `X` other than `F`.
pub proof fn lemma_shl_keeps_bit(m: Machine)
    requires
        m.wf(),
    ensures
        m.shl_vx_vy().registers[m.x()] == m.vx() << 1,
        m.x() != 0xF ==> m.shl_vx_vy().registers[0xF] == m.vx() >> 7,
        m.x() != 0xF ==> 2 * m.vx() == 256 * m.shl_vx_vy().registers[0xF] + m.shl_vx_vy().registers[m.x()],
{
    let v = m.vx();
    assert(v << 1 == (v * 2) % 256) by (bit_vector);
    assert(v >> 7 == v / 128) by (bit_vector);
}

/// After `CALL NNN` and then `RET` the program counter is at the instruction
/// that follows the call, and the stack pointer is where it was.
pub proof fn lemma_call_then_ret(m: Machine)
    requires
        m.wf(),
        m.stack_pointer < 16,
        m.program_counter + 2 <= 0xFFFF,
    ensures
        m.call_adr().operation_fault(Operation::Ret) is None,
        m.call_adr().ret().program_counter == m.program_counter + 2,
        m.call_adr().ret().stack_pointer == m.stack_pointer,
{
}

/// `LD B, Vx` writes three decimal digits that make up `Vx`, the hundreds
/// first.
pub proof fn lemma_bcd_digits(m: Machine)
    requires
        m.wf(),
        m.index_register + 2 < 4096,
    ensures
        ({
            let after = m.fx33_ld_b_vx().memory;
            let i = m.index_register as int;
            &&& after[i] < 10 && after[i + 1] < 10 && after[i + 2] < 10
            &&& 100 * after[i] + 10 * after[i + 1] + after[i + 2] == m.vx()
        }),
{
}

/// Drawing a sprite flips the pixels under its set bits and no others, and
/// `VF` tells whether one of them was on.
pub proof fn lemma_draw_flips(m: Machine, p: int)
    requires
        m.wf(),
        0 <= p < 2048,
    ensures
        m.dxyn_drw_vx_vy_nibble().gfx == paint(m.gfx, seq![m.drawing()]),
        m.dxyn_drw_vx_vy_nibble().gfx[p] == if hits(m.sprite(), m.vx(), m.vy(), p) {
            m.gfx[p] ^ 1
        } else {
            m.gfx[p]
        },
        m.dxyn_drw_vx_vy_nibble().registers[0xF] == 1 <==> collides(
            m.gfx,
            m.sprite(),
            m.vx(),
            m.vy(),
        ),
{
    let draws = seq![m.drawing()];
    assert(draws.drop_last() =~= Seq::<Draw>::empty());
    assert(paint(m.gfx, draws.drop_last()) == m.gfx);
    assert(draws.last() == m.drawing());
}

/// On a display that was cleared, any sprites drawn one after the other
/// leave a pixel on exactly where an odd number of them has a set bit: the
/// display holds the exclusive or of what was drawn.
pub proof fn lemma_cleared_then_drawn(draws: Seq<Draw>, p: int)
    requires
        0 <= p < 2048,
    ensures
        paint(cleared(), draws).len() == 2048,
        paint(cleared(), draws)[p] == coverage(draws, p) % 2,
    decreases draws.len(),
{
    if draws.len() > 0 {
        lemma_cleared_then_drawn(draws.drop_last(), p);
        lemma_flip(paint(cleared(), draws.drop_last())[p]);
    }
}

/// The states in which one `DRW` after the other runs: each finds the display
/// as the one before left it. What else happens between two of them is open.
pub open spec fn drawn_in_turn(states: Seq<Machine>) -> bool {
    forall|i: int|
        0 < i < states.len() ==> (#[trigger] states[i]).gfx == states[i
            - 1].dxyn_drw_vx_vy_nibble().gfx
}

/// After `CLS` and then any number of `DRW`, each in its own state, a pixel
/// is on exactly where an odd number of the sprites has a set bit.
pub proof fn lemma_cls_then_draws(m: Machine, states: Seq<Machine>, p: int)
    requires
        0 <= p < 2048,
        states.len() > 0,
        states[0].gfx == m.cls().gfx,
        drawn_in_turn(states),
    ensures
        states.last().dxyn_drw_vx_vy_nibble().gfx[p] == coverage(
            states.map_values(|s: Machine| s.drawing()),
            p,
        ) % 2,
{
    lemma_states_paint(states);
    lemma_cleared_then_drawn(states.map_values(|s: Machine| s.drawing()), p);
}

/// One `DRW` after the other paints the sprites of all of them on the
/// display that the first one found.
proof fn lemma_states_paint(states: Seq<Machine>)
    requires
        states.len() > 0,
        drawn_in_turn(states),
    ensures
        states.last().dxyn_drw_vx_vy_nibble().gfx == paint(
            states[0].gfx,
            states.map_values(|s: Machine| s.drawing()),
        ),
    decreases states.len(),
{
    let draws = states.map_values(|s: Machine| s.drawing());
    let earlier = states.drop_last();
    assert(draws.drop_last() =~= earlier.map_values(|s: Machine| s.drawing()));
    assert(draws.last() == states.last().drawing());
    if states.len() == 1 {
        assert(paint(states[0].gfx, draws.drop_last()) == states[0].gfx);
    } else {
        assert(drawn_in_turn(earlier)) by {
            assert forall|i: int| 0 < i < earlier.len() implies (#[trigger] earlier[i]).gfx
                == earlier[i - 1].dxyn_drw_vx_vy_nibble().gfx by {
                assert(states[i].gfx == states[i - 1].dxyn_drw_vx_vy_nibble().gfx);
            }
        }
        lemma_states_paint(earlier);
        assert(states.last() == states[states.len() - 1]);
        assert(earlier.last() == states[states.len() - 2]);
    }
}

/// Drawing the same sprite twice at the same place gives the display back as
/// it was. The second draw raises `VF` exactly when the sprite has a set bit
/// over a pixel that was off at first: on a display that was all off, when
/// the sprite has a set bit at all. The registers that hold the place must
/// not be `VF`, which the first draw changes.
pub proof fn lemma_draw_twice(m: Machine)
    requires
        m.wf(),
        m.x() != 0xF,
        m.y() != 0xF,
    ensures
        m.dxyn_drw_vx_vy_nibble().dxyn_drw_vx_vy_nibble().gfx == m.gfx,
        m.dxyn_drw_vx_vy_nibble().dxyn_drw_vx_vy_nibble().registers[0xF] == 1 <==> exists|p: int|
            0 <= p < 2048 && #[trigger] hits(m.sprite(), m.vx(), m.vy(), p) && m.gfx[p] == 0,
        m.gfx == cleared() ==> (m.dxyn_drw_vx_vy_nibble().dxyn_drw_vx_vy_nibble().registers[0xF]
            == 1 <==> exists|p: int| 0 <= p < 2048 && #[trigger] hits(m.sprite(), m.vx(), m.vy(), p)),
{
    let once = m.dxyn_drw_vx_vy_nibble();
    let twice = once.dxyn_drw_vx_vy_nibble();
    let sprite = m.sprite();
    assert(once.sprite() =~= sprite);
    assert(once.vx() == m.vx() && once.vy() == m.vy());
    assert forall|p: int| 0 <= p < 2048 implies #[trigger] twice.gfx[p] == m.gfx[p] && (once.gfx[p]
        == 1 <==> if hits(sprite, m.vx(), m.vy(), p) {
        m.gfx[p] == 0
    } else {
        m.gfx[p] == 1
    }) by {
        lemma_flip(m.gfx[p]);
    }
    assert(twice.gfx =~= m.gfx);
    if collides(once.gfx, sprite, m.vx(), m.vy()) {
        let p = choose|p: int|
            0 <= p < once.gfx.len() && #[trigger] hits(sprite, m.vx(), m.vy(), p) && once.gfx[p]
                == 1;
        assert(twice.gfx[p] == m.gfx[p]);
        assert(hits(sprite, m.vx(), m.vy(), p) && m.gfx[p] == 0);
    }
    if exists|p: int| 0 <= p < 2048 && #[trigger] hits(sprite, m.vx(), m.vy(), p) && m.gfx[p] == 0 {
        let p = choose|p: int|
            0 <= p < 2048 && #[trigger] hits(sprite, m.vx(), m.vy(), p) && m.gfx[p] == 0;
        assert(twice.gfx[p] == m.gfx[p]);
        assert(hits(sprite, m.vx(), m.vy(), p) && once.gfx[p] == 1);
    }
}

/// The timer policy alone: after `n` cycles in which no instruction touches
/// the timers, each timer has lost one for every tenth cycle counted, and
/// rests at zero once it gets there.
pub proof fn lemma_ticks(m: Machine, n: nat)
    requires
        m.timer_counter < 10,
    ensures
        ({
            let serviced = (m.timer_counter + n) / 10;
            let after = m.ticks(n);
            &&& after.timer_counter == (m.timer_counter + n) % 10
            &&& after.delay_timer == if m.delay_timer >= serviced {
                m.delay_timer - serviced
            } else {
                0
            }
            &&& after.sound_timer == if m.sound_timer >= serviced {
                m.sound_timer - serviced
            } else {
                0
            }
            &&& after == (Machine {
                timer_counter: after.timer_counter,
                delay_timer: after.delay_timer,
                sound_timer: after.sound_timer,
                ..m
            })
        }),
    decreases n,
{
    if n > 0 {
        lemma_ticks(m, (n - 1) as nat);
    }
}

/// A machine that waits for a key and finds none held goes through a cycle
/// with nothing changed but the timers and the instruction register: the
/// program counter stays, so the next cycle waits again.
pub proof fn lemma_wait_without_key(m: Machine, random: u8)
    requires
        m.wf(),
        m.waits_for_key(),
        forall|k: int| 0 <= k < 16 ==> !m.key_state[k],
    ensures
        m.cycle_fault() is None,
        m.cycle(random) == m.fetched().tick(),
        m.cycle(random).program_counter == m.program_counter,
        m.cycle(random).registers == m.registers,
        m.cycle(random).key_state == m.key_state,
        m.cycle(random).waits_for_key(),
{
    lemma_none_held(m.key_state);
}

/// A machine that waits for a key and finds none held, cycle after cycle,
/// stays at the same instruction with the same registers.
pub proof fn lemma_wait_goes_on(m: Machine, randoms: Seq<u8>)
    requires
        m.wf(),
        m.waits_for_key(),
        forall|k: int| 0 <= k < 16 ==> !m.key_state[k],
    ensures
        m.cycles(randoms).program_counter == m.program_counter,
        m.cycles(randoms).registers == m.registers,
        m.cycles(randoms).memory == m.memory,
        m.cycles(randoms).key_state == m.key_state,
        m.cycles(randoms).waits_for_key(),
        m.cycles(randoms).wf(),
    decreases randoms.len(),
{
    if randoms.len() > 0 {
        lemma_wait_goes_on(m, randoms.drop_last());
        lemma_wait_without_key(m.cycles(randoms.drop_last()), randoms.last());
    }
}

/// A machine that waits for a key and finds one held puts the lowest held
/// key in `Vx` and moves on to the next instruction.
pub proof fn lemma_wait_with_key(m: Machine, random: u8, k: int)
    requires
        m.wf(),
        m.waits_for_key(),
        is_lowest_held(m.key_state, k),
    ensures
        m.cycle_fault() is None,
        m.cycle(random).program_counter == m.program_counter + 2,
        m.cycle(random).registers == m.registers.update(operand_x(m.word_at_pc()), k as u8),
{
    lemma_lowest_held(m.key_state, k);
}

/// An instruction other than `RND` does the same whatever byte is drawn.
pub proof fn lemma_random_only_for_rnd(m: Machine, r1: u8, r2: u8)
    requires
        decode_word(m.opcode) != Some(Operation::RndVxByte),
    ensures
        m.interpret(r1) == m.interpret(r2),
{
}

/// A cycle that raises no fault leaves the memory below `0x200` as it was,
/// whatever the instruction and whatever `I` holds: a running program cannot
/// write where the font is kept.
pub proof fn lemma_cycle_keeps_reserved_memory(m: Machine, random: u8)
    requires
        m.wf(),
        m.cycle_fault() is None,
    ensures
        m.cycle(random).wf(),
        forall|a: int| 0 <= a < 0x200 ==> m.cycle(random).memory[a] == m.memory[a],
{
}

/// A run in which no cycle raises a fault leaves the memory below `0x200`
/// as it was at the start.
pub proof fn lemma_run_keeps_reserved_memory(m: Machine, randoms: Seq<u8>)
    requires
        m.wf(),
        m.runs(randoms),
    ensures
        m.cycles(randoms).wf(),
        m.cycles(randoms).same_reserved_memory(m),
    decreases randoms.len(),
{
    if randoms.len() > 0 {
        lemma_run_keeps_reserved_memory(m, randoms.drop_last());
        lemma_cycle_keeps_reserved_memory(m.cycles(randoms.drop_last()), randoms.last());
    }
}

/// An instruction that raises no fault leaves the memory below `0x200` as it
/// was.
pub proof fn lemma_execute_keeps_reserved_memory(m: Machine, random: u8)
    requires
        m.wf(),
        m.fault() is None,
    ensures
        m.execute(random).same_reserved_memory(m),
{
}

/// A cycle that raises no fault keeps the machine in shape: the memories
/// keep their sizes, the stack pointer stays within the stack, every pixel
/// stays on or off, and the cycle count stays below ten.
pub proof fn lemma_cycle_keeps_inv(m: Machine, random: u8)
    requires
        m.wf(),
        m.inv(),
        m.cycle_fault() is None,
    ensures
        m.cycle(random).wf(),
        m.cycle(random).inv(),
{
    let f = m.fetched();
    assert forall|p: int| 0 <= p < 2048 implies #[trigger] f.dxyn_drw_vx_vy_nibble().gfx[p]
        <= 1 by {
        lemma_flip(f.gfx[p]);
    }
}

} // verus!
