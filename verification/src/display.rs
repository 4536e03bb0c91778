//! The display: 64 x 32 one-bit pixels kept as one flat ring of 2048 cells.
//!
//! A sprite is a run of bytes, one byte per row, most significant bit
//! leftmost. Drawing flips every pixel under a set sprite bit. The pixel under
//! bit `b` of row `r` of a sprite drawn at (`vx`, `vy`) is cell
//! `(vx + b + (vy + r) * 64) mod 2048`: a sprite that runs over the right edge
//! goes on in the next row, and one that runs over the last row goes on at the
//! top.

use vstd::prelude::*;

verus! {

/// Number of pixels in a row of the display.
pub const SCREEN_WIDTH: usize = 64;

/// Number of rows of the display.
pub const SCREEN_HEIGHT: usize = 32;

/// Number of cells of the framebuffer.
pub const SCREEN_PIXELS: usize = 2048;

/// Bit `b` of a sprite row, counted from the most significant bit.
pub open spec fn sprite_bit(row: u8, b: u8) -> bool {
    row & (0x80u8 >> b) != 0
}

/// The framebuffer cell under bit `b` of row `r` of a sprite drawn at
/// (`vx`, `vy`).
pub open spec fn pixel_index(vx: u8, vy: u8, r: int, b: int) -> int {
    (vx + b + (vy + r) * 64) % 2048
}

/// Bit `b` of row `r` of `sprite` is set and lands on cell `p`.
pub open spec fn lights(sprite: Seq<u8>, vx: u8, vy: u8, r: int, b: int, p: int) -> bool {
    &&& 0 <= r < sprite.len()
    &&& 0 <= b < 8
    &&& sprite_bit(sprite[r], b as u8)
    &&& pixel_index(vx, vy, r, b) == p
}

/// Some set bit of `sprite`, drawn at (`vx`, `vy`), lands on cell `p`.
pub open spec fn hits(sprite: Seq<u8>, vx: u8, vy: u8, p: int) -> bool {
    exists|r: int, b: int| #[trigger] lights(sprite, vx, vy, r, b, p)
}

/// The framebuffer after `sprite` is drawn at (`vx`, `vy`): every cell under
/// a set sprite bit has its lowest bit flipped, every other cell is kept.
pub open spec fn blit(gfx: Seq<u8>, sprite: Seq<u8>, vx: u8, vy: u8) -> Seq<u8> {
    Seq::new(
        gfx.len(),
        |p: int|
            if hits(sprite, vx, vy, p) {
                gfx[p] ^ 1
            } else {
                gfx[p]
            },
    )
}

/// Drawing `sprite` at (`vx`, `vy`) turns off a pixel that was on.
pub open spec fn collides(gfx: Seq<u8>, sprite: Seq<u8>, vx: u8, vy: u8) -> bool {
    exists|p: int| 0 <= p < gfx.len() && #[trigger] hits(sprite, vx, vy, p) && gfx[p] == 1
}

/// The framebuffer with every pixel off.
pub open spec fn cleared() -> Seq<u8> {
    Seq::new(2048, |p: int| 0u8)
}

/// A sprite and the place where it is drawn.
pub struct Draw {
    pub sprite: Seq<u8>,
    pub vx: u8,
    pub vy: u8,
}

/// The framebuffer after the sprites of `draws` are drawn one after the
/// other.
pub open spec fn paint(gfx: Seq<u8>, draws: Seq<Draw>) -> Seq<u8>
    decreases draws.len(),
{
    if draws.len() == 0 {
        gfx
    } else {
        let last = draws.last();
        blit(paint(gfx, draws.drop_last()), last.sprite, last.vx, last.vy)
    }
}

/// The number of sprites of `draws` with a set bit on cell `p`.
pub open spec fn coverage(draws: Seq<Draw>, p: int) -> nat
    decreases draws.len(),
{
    if draws.len() == 0 {
        0
    } else {
        let last = draws.last();
        coverage(draws.drop_last(), p) + if hits(last.sprite, last.vx, last.vy, p) {
            1nat
        } else {
            0nat
        }
    }
}

/// `(r, b)` comes before `(row, bit)` when the bits of a sprite are walked row
/// by row, each row from its most significant bit.
pub open spec fn drawn_before(r: int, b: int, row: int, bit: int) -> bool {
    r < row || (r == row && b < bit)
}

/// Some set bit of `sprite` that is walked before `(row, bit)` lands on `p`.
pub open spec fn hits_before(sprite: Seq<u8>, vx: u8, vy: u8, row: int, bit: int, p: int) -> bool {
    exists|r: int, b: int|
        #[trigger] lights(sprite, vx, vy, r, b, p) && drawn_before(r, b, row, bit)
}

/// Some set bit of `sprite` that is walked before `(row, bit)` lands on a
/// pixel of `gfx` that is on.
pub open spec fn collides_before(
    gfx: Seq<u8>,
    sprite: Seq<u8>,
    vx: u8,
    vy: u8,
    row: int,
    bit: int,
) -> bool {
    exists|p: int|
        0 <= p < gfx.len() && #[trigger] hits_before(sprite, vx, vy, row, bit, p) && gfx[p] == 1
}

/// Two integers less than 2048 apart with the same remainder modulo 2048 are
/// equal.
proof fn lemma_same_cell(a: int, b: int)
    requires
        a % 2048 == b % 2048,
        -2048 < a - b < 2048,
    ensures
        a == b,
{
    let qa = a / 2048;
    let qb = b / 2048;
    assert(a == 2048 * qa + a % 2048);
    assert(b == 2048 * qb + b % 2048);
    assert(a - b == 2048 * (qa - qb));
    if qa > qb {
        assert(a - b >= 2048);
    } else if qa < qb {
        assert(a - b <= -2048);
    }
}

/// No two bits of a sprite of at most 16 rows land on the same cell.
pub proof fn lemma_pixels_distinct(vx: u8, vy: u8, r1: int, b1: int, r2: int, b2: int)
    requires
        0 <= r1 < 16,
        0 <= r2 < 16,
        0 <= b1 < 8,
        0 <= b2 < 8,
        pixel_index(vx, vy, r1, b1) == pixel_index(vx, vy, r2, b2),
    ensures
        r1 == r2,
        b1 == b2,
{
    let a1 = vx + b1 + (vy + r1) * 64;
    let a2 = vx + b2 + (vy + r2) * 64;
    assert(a1 - a2 == (b1 - b2) + 64 * (r1 - r2));
    lemma_same_cell(a1, a2);
}

/// Nothing has been walked when the walk of a sprite starts.
pub proof fn lemma_walk_start(gfx: Seq<u8>, sprite: Seq<u8>, vx: u8, vy: u8)
    ensures
        forall|p: int| !hits_before(sprite, vx, vy, 0, 0, p),
        !collides_before(gfx, sprite, vx, vy, 0, 0),
{
}

/// Walking one more bit of a sprite adds the cell under that bit, if the bit
/// is set, to the cells that were hit; that cell was not hit before.
pub proof fn lemma_walk_bit(sprite: Seq<u8>, vx: u8, vy: u8, r: int, b: int, p: int)
    requires
        0 <= r < sprite.len() <= 16,
        0 <= b < 8,
    ensures
        hits_before(sprite, vx, vy, r, b + 1, p) == (hits_before(sprite, vx, vy, r, b, p) || lights(
            sprite,
            vx,
            vy,
            r,
            b,
            p,
        )),
        lights(sprite, vx, vy, r, b, p) ==> !hits_before(sprite, vx, vy, r, b, p),
{
    if hits_before(sprite, vx, vy, r, b, p) {
        let (r0, b0) = choose|r0: int, b0: int|
            #[trigger] lights(sprite, vx, vy, r0, b0, p) && drawn_before(r0, b0, r, b);
        assert(lights(sprite, vx, vy, r0, b0, p) && drawn_before(r0, b0, r, b + 1));
        if lights(sprite, vx, vy, r, b, p) {
            lemma_pixels_distinct(vx, vy, r0, b0, r, b);
        }
    }
    if lights(sprite, vx, vy, r, b, p) {
        assert(lights(sprite, vx, vy, r, b, p) && drawn_before(r, b, r, b + 1));
    }
    if hits_before(sprite, vx, vy, r, b + 1, p) {
        let (r1, b1) = choose|r1: int, b1: int|
            #[trigger] lights(sprite, vx, vy, r1, b1, p) && drawn_before(r1, b1, r, b + 1);
        if !(r1 == r && b1 == b) {
            assert(lights(sprite, vx, vy, r1, b1, p) && drawn_before(r1, b1, r, b));
        }
    }
}

/// Walking one more bit of a sprite finds a collision if one was found
/// before, or if the bit is set and the cell under it is on.
pub proof fn lemma_walk_bit_collides(gfx: Seq<u8>, sprite: Seq<u8>, vx: u8, vy: u8, r: int, b: int)
    requires
        gfx.len() == 2048,
        0 <= r < sprite.len() <= 16,
        0 <= b < 8,
    ensures
        collides_before(gfx, sprite, vx, vy, r, b + 1) == (collides_before(
            gfx,
            sprite,
            vx,
            vy,
            r,
            b,
        ) || (sprite_bit(sprite[r], b as u8) && gfx[pixel_index(vx, vy, r, b)] == 1)),
{
    let q = pixel_index(vx, vy, r, b);
    if collides_before(gfx, sprite, vx, vy, r, b) {
        let p = choose|p: int|
            0 <= p < gfx.len() && #[trigger] hits_before(sprite, vx, vy, r, b, p) && gfx[p] == 1;
        lemma_walk_bit(sprite, vx, vy, r, b, p);
        assert(hits_before(sprite, vx, vy, r, b + 1, p));
    }
    if sprite_bit(sprite[r], b as u8) && gfx[q] == 1 {
        lemma_walk_bit(sprite, vx, vy, r, b, q);
        assert(lights(sprite, vx, vy, r, b, q));
        assert(hits_before(sprite, vx, vy, r, b + 1, q));
    }
    if collides_before(gfx, sprite, vx, vy, r, b + 1) {
        let p = choose|p: int|
            0 <= p < gfx.len() && #[trigger] hits_before(sprite, vx, vy, r, b + 1, p) && gfx[p]
                == 1;
        lemma_walk_bit(sprite, vx, vy, r, b, p);
        if !lights(sprite, vx, vy, r, b, p) {
            assert(hits_before(sprite, vx, vy, r, b, p));
        }
    }
}

/// The end of one row of a sprite is the start of the next.
pub proof fn lemma_walk_row(gfx: Seq<u8>, sprite: Seq<u8>, vx: u8, vy: u8, r: int)
    ensures
        forall|p: int|
            hits_before(sprite, vx, vy, r, 8, p) == hits_before(sprite, vx, vy, r + 1, 0, p),
        collides_before(gfx, sprite, vx, vy, r, 8) == collides_before(gfx, sprite, vx, vy, r + 1, 0),
{
    assert forall|p: int|
        hits_before(sprite, vx, vy, r, 8, p) == hits_before(sprite, vx, vy, r + 1, 0, p) by {
        if hits_before(sprite, vx, vy, r, 8, p) {
            let (r0, b0) = choose|r0: int, b0: int|
                #[trigger] lights(sprite, vx, vy, r0, b0, p) && drawn_before(r0, b0, r, 8);
            assert(lights(sprite, vx, vy, r0, b0, p) && drawn_before(r0, b0, r + 1, 0));
        }
        if hits_before(sprite, vx, vy, r + 1, 0, p) {
            let (r0, b0) = choose|r0: int, b0: int|
                #[trigger] lights(sprite, vx, vy, r0, b0, p) && drawn_before(r0, b0, r + 1, 0);
            assert(lights(sprite, vx, vy, r0, b0, p) && drawn_before(r0, b0, r, 8));
        }
    }
    if collides_before(gfx, sprite, vx, vy, r, 8) {
        let p = choose|p: int|
            0 <= p < gfx.len() && #[trigger] hits_before(sprite, vx, vy, r, 8, p) && gfx[p] == 1;
        assert(hits_before(sprite, vx, vy, r + 1, 0, p));
    }
    if collides_before(gfx, sprite, vx, vy, r + 1, 0) {
        let p = choose|p: int|
            0 <= p < gfx.len() && #[trigger] hits_before(sprite, vx, vy, r + 1, 0, p) && gfx[p]
                == 1;
        assert(hits_before(sprite, vx, vy, r, 8, p));
    }
}

/// When the walk of a sprite ends, every bit of the sprite has been walked.
pub proof fn lemma_walk_end(gfx: Seq<u8>, sprite: Seq<u8>, vx: u8, vy: u8)
    ensures
        forall|p: int|
            hits_before(sprite, vx, vy, sprite.len() as int, 0, p) == hits(sprite, vx, vy, p),
        collides_before(gfx, sprite, vx, vy, sprite.len() as int, 0) == collides(
            gfx,
            sprite,
            vx,
            vy,
        ),
{
    let rows = sprite.len() as int;
    assert forall|p: int|
        hits_before(sprite, vx, vy, rows, 0, p) == hits(sprite, vx, vy, p) by {
        if hits(sprite, vx, vy, p) {
            let (r, b) = choose|r: int, b: int| #[trigger] lights(sprite, vx, vy, r, b, p);
            assert(lights(sprite, vx, vy, r, b, p) && drawn_before(r, b, rows, 0));
        }
    }
    if collides_before(gfx, sprite, vx, vy, rows, 0) {
        let p = choose|p: int|
            0 <= p < gfx.len() && #[trigger] hits_before(sprite, vx, vy, rows, 0, p) && gfx[p]
                == 1;
        assert(hits(sprite, vx, vy, p));
    }
    if collides(gfx, sprite, vx, vy) {
        let p = choose|p: int|
            0 <= p < gfx.len() && #[trigger] hits(sprite, vx, vy, p) && gfx[p] == 1;
        assert(hits_before(sprite, vx, vy, rows, 0, p));
    }
}

/// Flipping the lowest bit of a cell twice gives the cell back, and a flipped
/// cell is on exactly when the cell was off.
pub proof fn lemma_flip(cell: u8)
    ensures
        (cell ^ 1) ^ 1 == cell,
        cell ^ 1 != cell,
        cell <= 1 ==> cell ^ 1 <= 1,
        (cell ^ 1 == 1) == (cell == 0),
        (cell ^ 1 == 0) == (cell == 1),
{
    assert((cell ^ 1) ^ 1 == cell) by (bit_vector);
    assert(cell ^ 1 != cell) by (bit_vector);
    assert(cell <= 1 ==> cell ^ 1 <= 1) by (bit_vector);
    assert((cell ^ 1 == 1) == (cell == 0)) by (bit_vector);
    assert((cell ^ 1 == 0) == (cell == 1)) by (bit_vector);
}

} // verus!
