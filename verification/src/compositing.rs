//! What sprite drawing amounts to, byte by byte and pixel by pixel.

use vstd::prelude::*;
use crate::display::{
    bit_from_top, blank, blit, blit_row, collision, first_byte, left_part, lemma_rows_above_fit,
    pixel_lit, right_part, row_collides, row_fits, second_byte,
};

verus! {

/// Byte `a` of the display after `sprite` is drawn at column `x`, row `y`:
/// the left part of a sprite row is combined into the byte where that row
/// starts, the right part into the byte after it, and every other byte stays.
pub open spec fn blit_byte(gfx: Seq<u8>, sprite: Seq<u8>, x: int, y: int, a: int) -> u8 {
    let shift = (x % 8) as u8;
    let k1 = (a - x / 8) / 8 - y;
    let k2 = (a - (x / 8 + 1) % 8) / 8 - y;
    if (a - x / 8) % 8 == 0 && 0 <= k1 < sprite.len() {
        gfx[a] ^ left_part(sprite[k1], shift)
    } else if (a - (x / 8 + 1) % 8) % 8 == 0 && 0 <= k2 < sprite.len() {
        gfx[a] ^ right_part(sprite[k2], shift)
    } else {
        gfx[a]
    }
}

/// Drawing a sprite that fits gives the display that `blit_byte` describes:
/// no two sprite rows touch the same byte.
pub proof fn lemma_blit_bytes(gfx: Seq<u8>, sprite: Seq<u8>, x: int, y: int)
    requires
        gfx.len() == 256,
        0 <= x,
        0 <= y,
        sprite.len() == 0 || row_fits(x, y + sprite.len() - 1),
    ensures
        blit(gfx, sprite, x, y).len() == 256,
        forall|a: int|
            0 <= a < 256 ==> #[trigger] blit(gfx, sprite, x, y)[a] == blit_byte(
                gfx,
                sprite,
                x,
                y,
                a,
            ),
    decreases sprite.len(),
{
    if sprite.len() > 0 {
        let n = sprite.len() as int;
        let before = sprite.drop_last();
        if n > 1 {
            lemma_rows_above_fit(x, y, n, n - 2);
        }
        lemma_rows_above_fit(x, y, n, n - 1);
        lemma_blit_bytes(gfx, before, x, y);
        let prev = blit(gfx, before, x, y);
        let row = y + n - 1;
        let a1 = first_byte(x, row);
        let a2 = second_byte(x, row);
        assert(blit(gfx, sprite, x, y) == blit_row(prev, x, row, sprite.last()));
        assert forall|a: int| 0 <= a < 256 implies #[trigger] blit(gfx, sprite, x, y)[a]
            == blit_byte(gfx, sprite, x, y, a) by {
            assert(prev[a] == blit_byte(gfx, before, x, y, a));
            if a == a1 {
                assert((a - x / 8) / 8 - y == n - 1);
            } else if a == a2 {
                assert((a - (x / 8 + 1) % 8) / 8 - y == n - 1);
            } else {
            }
        }
    }
}

/// Combining the same bits in twice gives back what was there.
pub proof fn lemma_xor_twice(p: u8, q: u8)
    ensures
        (p ^ q) ^ q == p,
{
    assert((p ^ q) ^ q == p) by (bit_vector);
}

/// Drawing the same sprite twice at the same place restores the display.
pub proof fn law_draw_twice_restores(gfx: Seq<u8>, sprite: Seq<u8>, x: int, y: int)
    requires
        gfx.len() == 256,
        0 <= x,
        0 <= y,
        sprite.len() == 0 || row_fits(x, y + sprite.len() - 1),
    ensures
        blit(blit(gfx, sprite, x, y), sprite, x, y) == gfx,
{
    let once = blit(gfx, sprite, x, y);
    let twice = blit(once, sprite, x, y);
    lemma_blit_bytes(gfx, sprite, x, y);
    lemma_blit_bytes(once, sprite, x, y);
    let shift = (x % 8) as u8;
    assert forall|a: int| 0 <= a < 256 implies twice[a] == gfx[a] by {
        assert(twice[a] == blit_byte(once, sprite, x, y, a));
        assert(once[a] == blit_byte(gfx, sprite, x, y, a));
        let k1 = (a - x / 8) / 8 - y;
        let k2 = (a - (x / 8 + 1) % 8) / 8 - y;
        if (a - x / 8) % 8 == 0 && 0 <= k1 < sprite.len() {
            lemma_xor_twice(gfx[a], left_part(sprite[k1], shift));
        } else if (a - (x / 8 + 1) % 8) % 8 == 0 && 0 <= k2 < sprite.len() {
            lemma_xor_twice(gfx[a], right_part(sprite[k2], shift));
        }
    }
    assert(twice =~= gfx);
}

/// A sprite row turns off a lit pixel exactly where one of its set bits
/// meets a lit pixel.
pub proof fn law_collision_is_overlap(gfx: Seq<u8>, x: int, row: int, b: u8)
    requires
        gfx.len() == 256,
        0 <= x,
        0 <= row,
        row_fits(x, row),
    ensures
        row_collides(gfx, x, row, b) <==> (gfx[first_byte(x, row)] & left_part(b, (x % 8) as u8))
            != 0 || (gfx[second_byte(x, row)] & right_part(b, (x % 8) as u8)) != 0,
{
    let shown_left = gfx[first_byte(x, row)];
    let shown_right = gfx[second_byte(x, row)];
    let left = left_part(b, (x % 8) as u8);
    let right = right_part(b, (x % 8) as u8);
    assert(shown_left & !(shown_left ^ left) == shown_left & left) by (bit_vector);
    assert(shown_right & !(shown_right ^ right) == shown_right & right) by (bit_vector);
}

/// Whether the sprite drawn at column `x`, row `y` has a set bit on the
/// display pixel in column `c` of row `r`. Sprite row `k` lies on display row
/// `y + k`; its bit `j`, counted from the left, lies in column `x + j`, and
/// columns past the right edge continue at the left edge of the same row.
pub open spec fn sprite_covers(sprite: Seq<u8>, x: int, y: int, c: int, r: int) -> bool {
    let k = r - y;
    let j = (c - x) % 64;
    0 <= k < sprite.len() && j < 8 && bit_from_top(sprite[k], j)
}

/// A bit of two combined bytes is set where it is set in exactly one of them.
proof fn lemma_bit_of_xor(p: u8, q: u8, j: int)
    requires
        0 <= j < 8,
    ensures
        bit_from_top(p ^ q, j) == (bit_from_top(p, j) != bit_from_top(q, j)),
{
    let t = (7 - j) as u8;
    assert((((p ^ q) >> t) & 1u8 == 1u8) == (((p >> t) & 1u8 == 1u8) != ((q >> t) & 1u8 == 1u8)))
        by (bit_vector)
        requires
            t < 8,
    ;
}

/// Bit `j` of the left part of a sprite byte is the byte's bit `j - shift`.
proof fn lemma_bit_of_left_part(b: u8, shift: u8, j: int)
    requires
        0 <= j < 8,
        shift < 8,
    ensures
        bit_from_top(left_part(b, shift), j) == (j >= shift && bit_from_top(b, j - shift)),
{
    let t = (7 - j) as u8;
    if j >= shift {
        let u = (7 - (j - shift)) as u8;
        assert((((b >> shift) >> t) & 1u8 == 1u8) == ((b >> u) & 1u8 == 1u8)) by (bit_vector)
            requires
                t < 8,
                shift < 8,
                u < 8,
                u == t + shift,
        ;
    } else {
        assert(!(((b >> shift) >> t) & 1u8 == 1u8)) by (bit_vector)
            requires
                t < 8,
                shift < 8,
                t + shift >= 8,
        ;
    }
}

/// Bit `j` of the right part of a sprite byte is the byte's bit
/// `j + 8 - shift`.
proof fn lemma_bit_of_right_part(b: u8, shift: u8, j: int)
    requires
        0 <= j < 8,
        shift < 8,
    ensures
        bit_from_top(right_part(b, shift), j) == (j < shift && bit_from_top(b, j + 8 - shift)),
{
    let t = (7 - j) as u8;
    let s8 = (8 - shift) as u8;
    if j < shift {
        let u = (7 - (j + 8 - shift)) as u8;
        assert((((((b as u16) << s8) as u8) >> t) & 1u8 == 1u8) == ((b >> u) & 1u8 == 1u8))
            by (bit_vector)
            requires
                t < 8,
                shift < 8,
                s8 == 8 - shift,
                u < 8,
                u + 8 == t + shift,
        ;
    } else {
        assert(!(((((b as u16) << s8) as u8) >> t) & 1u8 == 1u8)) by (bit_vector)
            requires
                t < 8,
                shift < 8,
                s8 == 8 - shift,
                t + shift < 8,
        ;
    }
}

/// Where the pixel in column `c` lies relative to a sprite drawn at column
/// `x`: in the byte where the sprite row starts, in the byte after it, or in
/// neither.
proof fn lemma_pixel_position(x: int, c: int, r: int)
    requires
        0 <= x < 64,
        0 <= c < 64,
        0 <= r,
    ensures
        (64 * r + c) / 8 == 8 * r + c / 8,
        (64 * r + c) % 8 == c % 8,
        c / 8 == x / 8 ==> {
            &&& (8 * r + c / 8 - x / 8) % 8 == 0
            &&& (8 * r + c / 8 - x / 8) / 8 == r
            &&& c % 8 >= x % 8 ==> (c - x) % 64 == c % 8 - x % 8
            &&& c % 8 < x % 8 ==> (c - x) % 64 >= 8
        },
        c / 8 != x / 8 ==> (8 * r + c / 8 - x / 8) % 8 != 0,
        c / 8 == (x / 8 + 1) % 8 ==> {
            &&& (8 * r + c / 8 - (x / 8 + 1) % 8) % 8 == 0
            &&& (8 * r + c / 8 - (x / 8 + 1) % 8) / 8 == r
            &&& c % 8 < x % 8 ==> (c - x) % 64 == c % 8 + 8 - x % 8
            &&& c % 8 >= x % 8 ==> (c - x) % 64 >= 8
        },
        c / 8 != (x / 8 + 1) % 8 ==> (8 * r + c / 8 - (x / 8 + 1) % 8) % 8 != 0,
        c / 8 != x / 8 && c / 8 != (x / 8 + 1) % 8 ==> (c - x) % 64 >= 8,
{
    let cq = c / 8;
    let j = c % 8;
    let xq = x / 8;
    let shift = x % 8;
    assert(c == 8 * cq + j && x == 8 * xq + shift);
    assert(0 <= cq < 8 && 0 <= xq < 8);
    let d = c - x;
    assert(d == 8 * (cq - xq) + (j - shift));
    if d >= 0 {
        assert(d % 64 == d);
    } else {
        assert(d % 64 == d + 64);
    }
    if xq == 7 {
        assert((xq + 1) % 8 == 0);
    } else {
        assert((xq + 1) % 8 == xq + 1);
    }
}

/// Drawing is exclusive-or, pixel by pixel: after a sprite that fits is drawn
/// at a column of the display, a pixel is lit exactly if it was lit before or
/// the sprite has a set bit on it, but not both.
pub proof fn law_draw_toggles_pixels(
    gfx: Seq<u8>,
    sprite: Seq<u8>,
    x: int,
    y: int,
    c: int,
    r: int,
)
    requires
        gfx.len() == 256,
        0 <= x < 64,
        0 <= y,
        y + sprite.len() <= 32,
        0 <= c < 64,
        0 <= r < 32,
    ensures
        pixel_lit(blit(gfx, sprite, x, y), 64 * r + c) == (pixel_lit(gfx, 64 * r + c)
            != sprite_covers(sprite, x, y, c, r)),
{
    lemma_blit_bytes(gfx, sprite, x, y);
    lemma_pixel_position(x, c, r);
    let after = blit(gfx, sprite, x, y);
    let a = 8 * r + c / 8;
    let j = c % 8;
    let shift = (x % 8) as u8;
    let k = r - y;
    assert(after[a] == blit_byte(gfx, sprite, x, y, a));
    assert(pixel_lit(after, 64 * r + c) == bit_from_top(after[a], j));
    assert(pixel_lit(gfx, 64 * r + c) == bit_from_top(gfx[a], j));
    if 0 <= k < sprite.len() {
        if c / 8 == x / 8 {
            assert(after[a] == gfx[a] ^ left_part(sprite[k], shift));
            lemma_bit_of_xor(gfx[a], left_part(sprite[k], shift), j);
            lemma_bit_of_left_part(sprite[k], shift, j);
        } else if c / 8 == (x / 8 + 1) % 8 {
            assert(after[a] == gfx[a] ^ right_part(sprite[k], shift));
            lemma_bit_of_xor(gfx[a], right_part(sprite[k], shift), j);
            lemma_bit_of_right_part(sprite[k], shift, j);
        } else {
            assert(after[a] == gfx[a]);
        }
    } else {
        assert(after[a] == gfx[a]);
    }
}

/// On a blank display a sprite lights exactly the pixels on which it has a
/// set bit.
pub proof fn law_blank_display_shows_the_sprite(sprite: Seq<u8>, x: int, y: int, c: int, r: int)
    requires
        0 <= x < 64,
        0 <= y,
        y + sprite.len() <= 32,
        0 <= c < 64,
        0 <= r < 32,
    ensures
        pixel_lit(blit(blank(), sprite, x, y), 64 * r + c) == sprite_covers(sprite, x, y, c, r),
{
    law_draw_toggles_pixels(blank(), sprite, x, y, c, r);
    lemma_pixel_position(x, c, r);
    let t = (7 - c % 8) as u8;
    assert(!((0u8 >> t) & 1u8 == 1u8)) by (bit_vector);
}

/// Drawn on a blank display, a sprite reports no collision. Drawn there a
/// second time, it leaves the display blank again and reports a collision,
/// unless its last row has no set bit.
pub proof fn law_draw_on_blank_then_again(sprite: Seq<u8>, x: int, y: int)
    requires
        0 <= x,
        0 <= y,
        sprite.len() > 0,
        row_fits(x, y + sprite.len() - 1),
    ensures
        collision(blank(), sprite, x, y) == Some(false),
        blit(blit(blank(), sprite, x, y), sprite, x, y) == blank(),
        collision(blit(blank(), sprite, x, y), sprite, x, y) == Some(sprite.last() != 0),
{
    let n = sprite.len() as int;
    let before = sprite.drop_last();
    let row = y + n - 1;
    let a1 = first_byte(x, row);
    let a2 = second_byte(x, row);
    let shift = (x % 8) as u8;
    let s8 = (8 - shift) as u8;
    let b = sprite.last();
    let left = left_part(b, shift);
    let right = right_part(b, shift);
    let once = blit(blank(), sprite, x, y);
    if n > 1 {
        lemma_rows_above_fit(x, y, n, n - 2);
    }
    lemma_rows_above_fit(x, y, n, n - 1);
    law_draw_twice_restores(blank(), sprite, x, y);

    lemma_blit_bytes(blank(), before, x, y);
    let first = blit(blank(), before, x, y);
    assert(first[a1] == blit_byte(blank(), before, x, y, a1));
    assert(first[a2] == blit_byte(blank(), before, x, y, a2));
    assert(first[a1] == 0 && first[a2] == 0);
    assert(0u8 & !(0u8 ^ left) == 0) by (bit_vector);
    assert(0u8 & !(0u8 ^ right) == 0) by (bit_vector);

    lemma_blit_bytes(blank(), sprite, x, y);
    lemma_blit_bytes(once, before, x, y);
    let second = blit(once, before, x, y);
    assert(second[a1] == blit_byte(once, before, x, y, a1));
    assert(second[a2] == blit_byte(once, before, x, y, a2));
    assert(once[a1] == blit_byte(blank(), sprite, x, y, a1));
    assert(once[a2] == blit_byte(blank(), sprite, x, y, a2));
    assert(second[a1] == 0u8 ^ left && second[a2] == 0u8 ^ right);
    assert(((0u8 ^ left) & !((0u8 ^ left) ^ left)) == left) by (bit_vector);
    assert(((0u8 ^ right) & !((0u8 ^ right) ^ right)) == right) by (bit_vector);
    assert((b >> shift != 0 || (((b as u16) << s8) as u8) != 0) == (b != 0)) by (bit_vector)
        requires
            shift < 8,
            s8 == 8 - shift,
    ;
}

} // verus!
