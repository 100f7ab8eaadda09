//! The display: a 64x32 grid of one-bit pixels packed eight to a byte, row by
//! row, the leftmost pixel of each byte in its highest bit.
//!
//! Sprites are drawn by exclusive-or. A sprite row is one byte, eight pixels
//! wide; drawn at a column that is not a multiple of eight it straddles two
//! neighbouring display bytes of its row, and past the last byte of the row
//! it continues in the first one.

use vstd::prelude::*;
use bit_vec::BitVec;
use crate::fault::Fault;
use crate::machine::Chip8;

verus! {

/// Index of the display byte that holds the left part of a sprite row drawn
/// at column `x` of display row `row`.
pub open spec fn first_byte(x: int, row: int) -> int {
    8 * row + x / 8
}

/// Index of the display byte that holds the right part: the next byte of the
/// same row, wrapping round to the row's first byte.
pub open spec fn second_byte(x: int, row: int) -> int {
    8 * row + (x / 8 + 1) % 8
}

/// Whether both bytes touched by a sprite row lie inside the display.
pub open spec fn row_fits(x: int, row: int) -> bool {
    first_byte(x, row) < 256 && second_byte(x, row) < 256
}

/// The part of sprite byte `b` that lands in the first touched byte, for a
/// column that is `shift` pixels past a byte boundary.
pub open spec fn left_part(b: u8, shift: u8) -> u8 {
    b >> shift
}

/// The part of sprite byte `b` that spills into the second touched byte.
pub open spec fn right_part(b: u8, shift: u8) -> u8 {
    ((b as u16) << ((8 - shift) as u8)) as u8
}

/// The display after one sprite row `b` is combined into it at column `x` of
/// display row `row`.
pub open spec fn blit_row(gfx: Seq<u8>, x: int, row: int, b: u8) -> Seq<u8> {
    let a1 = first_byte(x, row);
    let a2 = second_byte(x, row);
    let shift = (x % 8) as u8;
    gfx.update(a1, gfx[a1] ^ left_part(b, shift)).update(a2, gfx[a2] ^ right_part(b, shift))
}

/// Whether combining sprite row `b` into the display turns off a pixel that
/// was lit, in either of the two bytes that the row touches.
pub open spec fn row_collides(gfx: Seq<u8>, x: int, row: int, b: u8) -> bool {
    let a1 = first_byte(x, row);
    let a2 = second_byte(x, row);
    let after = blit_row(gfx, x, row, b);
    (gfx[a1] & !after[a1]) != 0 || (gfx[a2] & !after[a2]) != 0
}

/// The display after the rows of `sprite` are combined into it one below the
/// other, the first at column `x` of display row `y`.
pub open spec fn blit(gfx: Seq<u8>, sprite: Seq<u8>, x: int, y: int) -> Seq<u8>
    decreases sprite.len(),
{
    if sprite.len() == 0 {
        gfx
    } else {
        blit_row(blit(gfx, sprite.drop_last(), x, y), x, y + sprite.len() - 1, sprite.last())
    }
}

/// What drawing `sprite` reports: nothing for an empty sprite, else whether
/// its last row turned off a lit pixel.
pub open spec fn collision(gfx: Seq<u8>, sprite: Seq<u8>, x: int, y: int) -> Option<bool> {
    if sprite.len() == 0 {
        None
    } else {
        Some(
            row_collides(
                blit(gfx, sprite.drop_last(), x, y),
                x,
                y + sprite.len() - 1,
                sprite.last(),
            ),
        )
    }
}

/// The `n` bytes of memory from address `base` on: the rows of a sprite.
pub open spec fn sprite_at(memory: Seq<u8>, base: int, n: int) -> Seq<u8> {
    Seq::new(n as nat, |k: int| memory[base + k])
}

/// Whether a sprite of `n` rows stored at `memory[base..base + n]` can be
/// drawn at column `x`, row `y`: its bytes lie in memory and every display
/// byte it touches exists. An empty sprite always can.
pub open spec fn sprite_fits(base: int, n: int, x: int, y: int) -> bool {
    n == 0 || (base + n <= 4096 && row_fits(x, y + n - 1))
}

/// If the last row of a sprite fits, so does every row above it.
pub proof fn lemma_rows_above_fit(x: int, y: int, n: int, r: int)
    requires
        0 <= x,
        0 <= y,
        0 <= r < n,
        row_fits(x, y + n - 1),
    ensures
        row_fits(x, y + r),
        0 <= first_byte(x, y + r),
        0 <= second_byte(x, y + r),
        first_byte(x, y + r) != second_byte(x, y + r),
{
}

/// Combines one sprite row `b` into the display at column `x` of display row
/// `row`, and tells whether a lit pixel was turned off.
fn draw_row(gfx: &mut [u8; 256], x: u8, row: usize, b: u8) -> (hit: bool)
    requires
        row_fits(x as int, row as int),
    ensures
        final(gfx)@ == blit_row(old(gfx)@, x as int, row as int, b),
        hit == row_collides(old(gfx)@, x as int, row as int, b),
{
    let shift: u8 = x % 8;
    let a1: usize = 8 * row + x as usize / 8;
    let a2: usize = (a1 + 1) % 8 + 8 * row;
    assert(a1 == first_byte(x as int, row as int));
    assert(a2 == second_byte(x as int, row as int));
    let old1: u8 = gfx[a1];
    let old2: u8 = gfx[a2];
    let part1: u8 = b >> shift;
    let part2: u8 = #[verifier::truncate]
    (((b as u16) << (8 - shift)) as u8);
    let new1: u8 = old1 ^ part1;
    let new2: u8 = old2 ^ part2;
    gfx[a1] = new1;
    gfx[a2] = new2;
    (old1 & !new1 > 0) || (old2 & !new2 > 0)
}

/// Draws the `n`-row sprite stored at `memory[base..base + n]` at column `x`,
/// row `y`. A sprite that does not fit is refused and nothing is drawn.
pub fn draw_sprite(
    gfx: &mut [u8; 256],
    memory: &[u8; 4096],
    base: usize,
    n: usize,
    x: u8,
    y: u8,
) -> (r: Result<Option<bool>, Fault>)
    ensures
        r is Ok <==> sprite_fits(base as int, n as int, x as int, y as int),
        r matches Ok(hit) ==> {
            let sprite = sprite_at(memory@, base as int, n as int);
            &&& final(gfx)@ == blit(old(gfx)@, sprite, x as int, y as int)
            &&& hit == collision(old(gfx)@, sprite, x as int, y as int)
        },
        r is Err ==> r == Err::<Option<bool>, Fault>(Fault::OutOfBounds) && final(gfx)@ == old(
            gfx,
        )@,
{
    if n == 0 {
        return Ok(None);
    }
    if n > 4096 {
        return Err(Fault::OutOfBounds);
    }
    let col: usize = x as usize / 8;
    let last: usize = y as usize + n - 1;
    if base > 4096 - n || 8 * last + col >= 256 || 8 * last + (col + 1) % 8 >= 256 {
        return Err(Fault::OutOfBounds);
    }
    let ghost sprite = sprite_at(memory@, base as int, n as int);
    let mut hit: bool = false;
    let mut k: usize = 0;
    while k < n
        invariant
            0 < n <= 4096,
            k <= n,
            base + n <= 4096,
            row_fits(x as int, y + n - 1),
            sprite == sprite_at(memory@, base as int, n as int),
            gfx@ == blit(old(gfx)@, sprite.take(k as int), x as int, y as int),
            k > 0 ==> Some(hit) == collision(
                old(gfx)@,
                sprite.take(k as int),
                x as int,
                y as int,
            ),
        decreases n - k,
    {
        proof {
            lemma_rows_above_fit(x as int, y as int, n as int, k as int);
            assert(sprite.take(k + 1).drop_last() =~= sprite.take(k as int));
            assert(sprite.take(k + 1).last() == memory@[base + k]);
        }
        hit = draw_row(gfx, x, y as usize + k, memory[base + k]);
        k = k + 1;
    }
    assert(sprite.take(n as int) =~= sprite);
    Ok(Some(hit))
}

/// The display with every pixel dark.
pub open spec fn blank() -> Seq<u8> {
    Seq::new(256, |k: int| 0u8)
}

/// Bit `k` of byte `b`, counting from the most significant bit.
pub open spec fn bit_from_top(b: u8, k: int) -> bool {
    (b >> ((7 - k) as u8)) & 1u8 == 1u8
}

/// Whether pixel `p` is lit, pixels counted row by row from the top left.
pub open spec fn pixel_lit(gfx: Seq<u8>, p: int) -> bool {
    bit_from_top(gfx[p / 8], p % 8)
}

/// The colour `0x00gggggg`: grey level `g` in each of the three channels.
pub open spec fn gray(g: u8) -> u32 {
    (g as int * 65536 + g as int * 256 + g as int) as u32
}

/// The colour in which a pixel is shown: white if lit, black if not.
pub open spec fn shade(lit: bool) -> u32 {
    if lit {
        gray(0xFF)
    } else {
        gray(0x00)
    }
}

/// The grey of level `g` as a `0x00RRGGBB` colour.
pub fn from_u8_gray(g: u8) -> (c: u32)
    ensures
        c == gray(g),
{
    let g: u32 = g as u32;
    assert(((g << 16) | (g << 8) | g) == g * 65536 + g * 256 + g) by (bit_vector)
        requires
            g < 256,
    ;
    (g << 16) | (g << 8) | g
}

/// Unpacks bytes into bits with `bit_vec::BitVec::from_bytes` and reads the
/// bits back in order. Claimed of it, as its documentation states: every byte
/// yields eight bits, most significant bit first. Byte counts whose eightfold
/// overflows make it panic and are excluded.
#[verifier::external_body]
fn unpack_bits(bytes: &[u8]) -> (bits: Vec<bool>)
    requires
        bytes@.len() * 8 <= usize::MAX,
    ensures
        bits@.len() == 8 * bytes@.len(),
        forall|k: int|
            0 <= k < 8 * bytes@.len() ==> #[trigger] bits@[k] == bit_from_top(bytes@[k / 8], k % 8),
{
    BitVec::from_bytes(bytes).iter().collect()
}

impl Chip8 {
    /// The display as one colour per pixel, row by row from the top left:
    /// 2048 values, white for a lit pixel and black for a dark one.
    pub fn color_buffer(&self) -> (buf: Vec<u32>)
        ensures
            buf@.len() == 2048,
            forall|p: int| 0 <= p < 2048 ==> #[trigger] buf@[p] == shade(pixel_lit(self@.gfx, p)),
    {
        let mut buf: Vec<u32> = Vec::with_capacity(2048);
        let mut row: usize = 0;
        while row < 32
            invariant
                row <= 32,
                buf@.len() == 64 * row,
                forall|p: int|
                    0 <= p < 64 * row ==> #[trigger] buf@[p] == shade(pixel_lit(self@.gfx, p)),
            decreases 32 - row,
        {
            let bytes: [u8; 8] = [
                self.gfx[8 * row],
                self.gfx[8 * row + 1],
                self.gfx[8 * row + 2],
                self.gfx[8 * row + 3],
                self.gfx[8 * row + 4],
                self.gfx[8 * row + 5],
                self.gfx[8 * row + 6],
                self.gfx[8 * row + 7],
            ];
            let bits: Vec<bool> = unpack_bits(&bytes);
            let mut k: usize = 0;
            while k < 64
                invariant
                    row < 32,
                    k <= 64,
                    bits@.len() == 64,
                    forall|j: int|
                        0 <= j < 64 ==> #[trigger] bits@[j] == pixel_lit(self@.gfx, 64 * row + j),
                    buf@.len() == 64 * row + k,
                    forall|p: int|
                        0 <= p < 64 * row + k ==> #[trigger] buf@[p] == shade(
                            pixel_lit(self@.gfx, p),
                        ),
                decreases 64 - k,
            {
                if bits[k] {
                    buf.push(from_u8_gray(0xFF));
                } else {
                    buf.push(from_u8_gray(0x00));
                }
                k = k + 1;
            }
            row = row + 1;
        }
        buf
    }
}

} // verus!
