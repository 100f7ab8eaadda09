//! The built-in hexadecimal font: sixteen glyphs of five rows each, four
//! pixels wide, stored in the high nibble of each row byte.

use vstd::prelude::*;

verus! {

/// The five row bytes of the glyph for hexadecimal digit `d`.
pub open spec fn glyph(d: int) -> Seq<u8> {
    if d == 0x0 {
        seq![0xF0u8, 0x90u8, 0x90u8, 0x90u8, 0xF0u8]
    } else if d == 0x1 {
        seq![0x20u8, 0x60u8, 0x20u8, 0x20u8, 0x70u8]
    } else if d == 0x2 {
        seq![0xF0u8, 0x10u8, 0xF0u8, 0x80u8, 0xF0u8]
    } else if d == 0x3 {
        seq![0xF0u8, 0x10u8, 0xF0u8, 0x10u8, 0xF0u8]
    } else if d == 0x4 {
        seq![0x90u8, 0x90u8, 0xF0u8, 0x10u8, 0x10u8]
    } else if d == 0x5 {
        seq![0xF0u8, 0x80u8, 0xF0u8, 0x10u8, 0xF0u8]
    } else if d == 0x6 {
        seq![0xF0u8, 0x80u8, 0xF0u8, 0x90u8, 0xF0u8]
    } else if d == 0x7 {
        seq![0xF0u8, 0x10u8, 0x20u8, 0x40u8, 0x40u8]
    } else if d == 0x8 {
        seq![0xF0u8, 0x90u8, 0xF0u8, 0x90u8, 0xF0u8]
    } else if d == 0x9 {
        seq![0xF0u8, 0x90u8, 0xF0u8, 0x10u8, 0xF0u8]
    } else if d == 0xA {
        seq![0xF0u8, 0x90u8, 0xF0u8, 0x90u8, 0x90u8]
    } else if d == 0xB {
        seq![0xE0u8, 0x90u8, 0xE0u8, 0x90u8, 0xE0u8]
    } else if d == 0xC {
        seq![0xF0u8, 0x80u8, 0x80u8, 0x80u8, 0xF0u8]
    } else if d == 0xD {
        seq![0xE0u8, 0x90u8, 0x90u8, 0x90u8, 0xE0u8]
    } else if d == 0xE {
        seq![0xF0u8, 0x80u8, 0xF0u8, 0x80u8, 0xF0u8]
    } else {
        seq![0xF0u8, 0x80u8, 0xF0u8, 0x80u8, 0x80u8]
    }
}

/// The address at which the glyph for digit `d` starts.
pub open spec fn glyph_address(d: int) -> int {
    d * 5
}

/// The font byte that belongs at address `a`, for `a` below eighty.
pub open spec fn font_byte(a: int) -> u8 {
    glyph(a / 5)[a % 5]
}

/// The row bytes of the glyph for the hexadecimal digit `d`.
pub fn glyph_rows(d: usize) -> (rows: [u8; 5])
    requires
        d < 16,
    ensures
        rows@ == glyph(d as int),
{
    let rows: [u8; 5] = if d == 0x0 {
        [0xF0, 0x90, 0x90, 0x90, 0xF0]
    } else if d == 0x1 {
        [0x20, 0x60, 0x20, 0x20, 0x70]
    } else if d == 0x2 {
        [0xF0, 0x10, 0xF0, 0x80, 0xF0]
    } else if d == 0x3 {
        [0xF0, 0x10, 0xF0, 0x10, 0xF0]
    } else if d == 0x4 {
        [0x90, 0x90, 0xF0, 0x10, 0x10]
    } else if d == 0x5 {
        [0xF0, 0x80, 0xF0, 0x10, 0xF0]
    } else if d == 0x6 {
        [0xF0, 0x80, 0xF0, 0x90, 0xF0]
    } else if d == 0x7 {
        [0xF0, 0x10, 0x20, 0x40, 0x40]
    } else if d == 0x8 {
        [0xF0, 0x90, 0xF0, 0x90, 0xF0]
    } else if d == 0x9 {
        [0xF0, 0x90, 0xF0, 0x10, 0xF0]
    } else if d == 0xA {
        [0xF0, 0x90, 0xF0, 0x90, 0x90]
    } else if d == 0xB {
        [0xE0, 0x90, 0xE0, 0x90, 0xE0]
    } else if d == 0xC {
        [0xF0, 0x80, 0x80, 0x80, 0xF0]
    } else if d == 0xD {
        [0xE0, 0x90, 0x90, 0x90, 0xE0]
    } else if d == 0xE {
        [0xF0, 0x80, 0xF0, 0x80, 0xF0]
    } else {
        [0xF0, 0x80, 0xF0, 0x80, 0x80]
    };
    assert(rows@ =~= glyph(d as int));
    rows
}

} // verus!
