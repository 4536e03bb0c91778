//! Instruction words: their operand fields and the operation each one selects.
//!
//! An instruction is a 16-bit word made of four nibbles. The leading nibble
//! names a family; the families `0`, `8`, `E` and `F` are told apart further by
//! their low nibble or low byte. The remaining nibbles carry the operands:
//! `X` and `Y` (register indices), `N` (a 4-bit immediate), `KK` (an 8-bit
//! immediate) and `NNN` (a 12-bit address).

use vstd::prelude::*;

verus! {

/// The operation an instruction word selects, operands left aside.
#[derive(Clone, Copy, Debug, PartialEq, Eq, Structural)]
pub enum Operation {
    /// `00E0`: clear the display.
    Cls,
    /// `00EE`: return from a subroutine.
    Ret,
    /// `1NNN`: jump to `NNN`.
    JpAddr,
    /// `2NNN`: call the subroutine at `NNN`.
    CallAddr,
    /// `3XKK`: skip the next instruction if `Vx == KK`.
    SeVxByte,
    /// `4XKK`: skip the next instruction if `Vx != KK`.
    SneVxByte,
    /// `5XY_`: skip the next instruction if `Vx == Vy`.
    SeVxVy,
    /// `6XKK`: `Vx = KK`.
    LdVxByte,
    /// `7XKK`: `Vx = Vx + KK`, without a flag.
    AddVxByte,
    /// `8XY0`: `Vx = Vy`.
    LdVxVy,
    /// `8XY1`: `Vx = Vx | Vy`.
    OrVxVy,
    /// `8XY2`: `Vx = Vx & Vy`.
    AndVxVy,
    /// `8XY3`: `Vx = Vx ^ Vy`.
    XorVxVy,
    /// `8XY4`: `Vx = Vx + Vy`, `VF` = carry.
    AddVxVy,
    /// `8XY5`: `Vx = Vx - Vy`, `VF` = no borrow.
    SubVxVy,
    /// `8XY6`: `Vx = Vx >> 1`, `VF` = the bit shifted out.
    ShrVx,
    /// `8XY7`: `Vx = Vy - Vx`, `VF` = no borrow.
    SubnVxVy,
    /// `8XYE`: `Vx = Vx << 1`, `VF` = the bit shifted out.
    ShlVx,
    /// `9XY_`: skip the next instruction if `Vx != Vy`.
    SneVxVy,
    /// `ANNN`: `I = NNN`.
    LdIAddr,
    /// `BNNN`: jump to `NNN + V0`.
    JpV0Addr,
    /// `CXKK`: `Vx` = a random byte masked with `KK`.
    RndVxByte,
    /// `DXYN`: draw an `N`-row sprite at (`Vx`, `Vy`).
    DrwVxVyNibble,
    /// `EX9E`: skip the next instruction if key `Vx` is held.
    SkpVx,
    /// `EXA1`: skip the next instruction if key `Vx` is not held.
    SknpVx,
    /// `FX07`: `Vx` = delay timer.
    LdVxDt,
    /// `FX0A`: wait for a key and store its index in `Vx`.
    LdVxK,
    /// `FX15`: delay timer = `Vx`.
    LdDtVx,
    /// `FX18`: sound timer = `Vx`.
    LdStVx,
    /// `FX1E`: `I = I + Vx`.
    AddIVx,
    /// `FX29`: `I` = address of the glyph for digit `Vx`.
    LdFVx,
    /// `FX33`: store the three decimal digits of `Vx` at `I`.
    LdBVx,
    /// `FX55`: store `V0..=Vx` at `I`.
    LdIVx,
    /// `FX65`: load `V0..=Vx` from `I`.
    LdVxI,
}

/// The leading nibble of `word`.
pub open spec fn family(word: u16) -> int {
    word as int / 0x1000
}

/// The `X` field: the second nibble of `word`.
pub open spec fn operand_x(word: u16) -> int {
    (word as int / 0x100) % 0x10
}

/// The `Y` field: the third nibble of `word`.
pub open spec fn operand_y(word: u16) -> int {
    (word as int / 0x10) % 0x10
}

/// The `N` field: the last nibble of `word`.
pub open spec fn operand_n(word: u16) -> int {
    word as int % 0x10
}

/// The `KK` field: the low byte of `word`.
pub open spec fn operand_kk(word: u16) -> u8 {
    (word % 0x100) as u8
}

/// The `NNN` field: the low twelve bits of `word`.
pub open spec fn operand_nnn(word: u16) -> u16 {
    word % 0x1000
}

/// The operation that `word` selects, or `None` where no operation has that
/// pattern. Families `5` and `9` ignore their last nibble.
pub open spec fn decode_word(word: u16) -> Option<Operation> {
    let low_byte = operand_kk(word);
    let family = family(word);
    if family == 0x0 {
        if operand_nnn(word) == 0x0E0 {
            Some(Operation::Cls)
        } else if operand_nnn(word) == 0x0EE {
            Some(Operation::Ret)
        } else {
            None
        }
    } else if family == 0x1 {
        Some(Operation::JpAddr)
    } else if family == 0x2 {
        Some(Operation::CallAddr)
    } else if family == 0x3 {
        Some(Operation::SeVxByte)
    } else if family == 0x4 {
        Some(Operation::SneVxByte)
    } else if family == 0x5 {
        Some(Operation::SeVxVy)
    } else if family == 0x6 {
        Some(Operation::LdVxByte)
    } else if family == 0x7 {
        Some(Operation::AddVxByte)
    } else if family == 0x8 {
        let low = operand_n(word);
        if low == 0x0 {
            Some(Operation::LdVxVy)
        } else if low == 0x1 {
            Some(Operation::OrVxVy)
        } else if low == 0x2 {
            Some(Operation::AndVxVy)
        } else if low == 0x3 {
            Some(Operation::XorVxVy)
        } else if low == 0x4 {
            Some(Operation::AddVxVy)
        } else if low == 0x5 {
            Some(Operation::SubVxVy)
        } else if low == 0x6 {
            Some(Operation::ShrVx)
        } else if low == 0x7 {
            Some(Operation::SubnVxVy)
        } else if low == 0xE {
            Some(Operation::ShlVx)
        } else {
            None
        }
    } else if family == 0x9 {
        Some(Operation::SneVxVy)
    } else if family == 0xA {
        Some(Operation::LdIAddr)
    } else if family == 0xB {
        Some(Operation::JpV0Addr)
    } else if family == 0xC {
        Some(Operation::RndVxByte)
    } else if family == 0xD {
        Some(Operation::DrwVxVyNibble)
    } else if family == 0xE {
        if low_byte == 0x9E {
            Some(Operation::SkpVx)
        } else if low_byte == 0xA1 {
            Some(Operation::SknpVx)
        } else {
            None
        }
    } else {
        if low_byte == 0x07 {
            Some(Operation::LdVxDt)
        } else if low_byte == 0x0A {
            Some(Operation::LdVxK)
        } else if low_byte == 0x15 {
            Some(Operation::LdDtVx)
        } else if low_byte == 0x18 {
            Some(Operation::LdStVx)
        } else if low_byte == 0x1E {
            Some(Operation::AddIVx)
        } else if low_byte == 0x29 {
            Some(Operation::LdFVx)
        } else if low_byte == 0x33 {
            Some(Operation::LdBVx)
        } else if low_byte == 0x55 {
            Some(Operation::LdIVx)
        } else if low_byte == 0x65 {
            Some(Operation::LdVxI)
        } else {
            None
        }
    }
}

/// How the masks and shifts used on instruction words relate to the nibble
/// arithmetic of the field definitions.
pub proof fn lemma_word_fields(word: u16)
    ensures
        (word & 0xF000) == family(word) * 0x1000,
        0 <= family(word) < 16,
        ((word & 0x0F00) >> 8) == operand_x(word),
        ((word & 0x00F0) >> 4) == operand_y(word),
        (word & 0x000F) == operand_n(word),
        (word & 0x00FF) == operand_kk(word),
        (word & 0x0FFF) == operand_nnn(word),
{
    assert((word & 0xF000) == (word / 0x1000) * 0x1000) by (bit_vector);
    assert(((word & 0x0F00) >> 8) == (word / 0x100) % 0x10) by (bit_vector);
    assert(((word & 0x00F0) >> 4) == (word / 0x10) % 0x10) by (bit_vector);
    assert((word & 0x000F) == word % 0x10) by (bit_vector);
    assert((word & 0x00FF) == word % 0x100) by (bit_vector);
    assert((word & 0x0FFF) == word % 0x1000) by (bit_vector);
}

/// The register index in the `X` field of `word`.
pub fn x_of(word: u16) -> (x: usize)
    ensures
        x == operand_x(word),
        x < 16,
{
    proof {
        lemma_word_fields(word);
    }
    ((word & 0x0F00) >> 8) as usize
}

/// The register index in the `Y` field of `word`.
pub fn y_of(word: u16) -> (y: usize)
    ensures
        y == operand_y(word),
        y < 16,
{
    proof {
        lemma_word_fields(word);
    }
    ((word & 0x00F0) >> 4) as usize
}

/// The 4-bit immediate in the `N` field of `word`.
pub fn n_of(word: u16) -> (n: u16)
    ensures
        n == operand_n(word),
        n < 16,
{
    proof {
        lemma_word_fields(word);
    }
    word & 0x000F
}

/// The 8-bit immediate in the `KK` field of `word`.
pub fn kk_of(word: u16) -> (kk: u8)
    ensures
        kk == operand_kk(word),
{
    proof {
        lemma_word_fields(word);
    }
    (word & 0x00FF) as u8
}

/// The 12-bit address in the `NNN` field of `word`.
pub fn nnn_of(word: u16) -> (nnn: u16)
    ensures
        nnn == operand_nnn(word),
        nnn < 0x1000,
{
    proof {
        lemma_word_fields(word);
    }
    word & 0x0FFF
}

/// Decodes an instruction word: the leading nibble selects the family, and a
/// second look at the low nibble or byte settles the families `0`, `8`, `E`
/// and `F`.
pub fn decode(word: u16) -> (operation: Option<Operation>)
    ensures
        operation == decode_word(word),
{
    proof {
        lemma_word_fields(word);
    }
    match word & 0xF000 {
        0x0000 => match word & 0x0FFF {
            0x00E0 => Some(Operation::Cls),
            0x00EE => Some(Operation::Ret),
            _ => None,
        },
        0x1000 => Some(Operation::JpAddr),
        0x2000 => Some(Operation::CallAddr),
        0x3000 => Some(Operation::SeVxByte),
        0x4000 => Some(Operation::SneVxByte),
        0x5000 => Some(Operation::SeVxVy),
        0x6000 => Some(Operation::LdVxByte),
        0x7000 => Some(Operation::AddVxByte),
        0x8000 => match word & 0x000F {
            0x0000 => Some(Operation::LdVxVy),
            0x0001 => Some(Operation::OrVxVy),
            0x0002 => Some(Operation::AndVxVy),
            0x0003 => Some(Operation::XorVxVy),
            0x0004 => Some(Operation::AddVxVy),
            0x0005 => Some(Operation::SubVxVy),
            0x0006 => Some(Operation::ShrVx),
            0x0007 => Some(Operation::SubnVxVy),
            0x000E => Some(Operation::ShlVx),
            _ => None,
        },
        0x9000 => Some(Operation::SneVxVy),
        0xA000 => Some(Operation::LdIAddr),
        0xB000 => Some(Operation::JpV0Addr),
        0xC000 => Some(Operation::RndVxByte),
        0xD000 => Some(Operation::DrwVxVyNibble),
        0xE000 => match word & 0x00FF {
            0x009E => Some(Operation::SkpVx),
            0x00A1 => Some(Operation::SknpVx),
            _ => None,
        },
        _ => match word & 0x00FF {
            0x0007 => Some(Operation::LdVxDt),
            0x000A => Some(Operation::LdVxK),
            0x0015 => Some(Operation::LdDtVx),
            0x0018 => Some(Operation::LdStVx),
            0x001E => Some(Operation::AddIVx),
            0x0029 => Some(Operation::LdFVx),
            0x0033 => Some(Operation::LdBVx),
            0x0055 => Some(Operation::LdIVx),
            0x0065 => Some(Operation::LdVxI),
            _ => None,
        },
    }
}

} // verus!
