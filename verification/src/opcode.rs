//! Instruction words and their decoding.
//!
//! An instruction is a 16-bit word made of four nibbles. The leading nibble
//! selects the group; the remaining nibbles hold register numbers, an 8-bit
//! immediate, a 12-bit address or a sprite height, depending on the group.

use vstd::prelude::*;

verus! {

/// The leading nibble: the instruction group.
pub open spec fn group(op: u16) -> int {
    op as int / 4096
}

/// The second nibble: the number of register `Vx`.
pub open spec fn reg_x(op: u16) -> int {
    (op as int / 256) % 16
}

/// The third nibble: the number of register `Vy`.
pub open spec fn reg_y(op: u16) -> int {
    (op as int / 16) % 16
}

/// The last nibble: a sprite height, or the operation within the `8` group.
pub open spec fn low_nibble(op: u16) -> int {
    op as int % 16
}

/// The low byte: an immediate, or the operation within the `F` group.
pub open spec fn low_byte(op: u16) -> int {
    op as int % 256
}

/// The low twelve bits: an address.
pub open spec fn address(op: u16) -> int {
    op as int % 4096
}

/// One decoded instruction. Register numbers are below 16, sprite heights
/// below 16 and addresses below 4096 for every value that `decode` returns.
#[derive(Clone, Copy, Debug, PartialEq, Eq, Structural)]
pub enum Instruction {
    /// `00E0`: blank the display.
    ClearScreen,
    /// `00EE`: return from a subroutine.
    Return,
    /// Any other word of group `0`: nothing happens, not even to the program counter.
    Ignored,
    /// `1nnn`: jump to `addr`.
    Jump { addr: u16 },
    /// `2nnn`: call the subroutine at `addr`.
    Call { addr: u16 },
    /// `3xkk`: skip the next instruction if `Vx == kk`.
    SkipIfEqual { x: usize, kk: u8 },
    /// `4xkk`: skip the next instruction if `Vx != kk`.
    SkipIfNotEqual { x: usize, kk: u8 },
    /// `5xy_`: skip the next instruction if `Vx == Vy`.
    SkipIfRegistersEqual { x: usize, y: usize },
    /// `6xkk`: `Vx = kk`.
    Load { x: usize, kk: u8 },
    /// `7xkk`: `Vx = Vx + kk`, wrapping, no flag.
    AddImmediate { x: usize, kk: u8 },
    /// `8xy0`: `Vx = Vy`.
    Move { x: usize, y: usize },
    /// `8xy1`: `Vx = Vx | Vy`.
    Or { x: usize, y: usize },
    /// `8xy2`: `Vx = Vx & Vy`.
    And { x: usize, y: usize },
    /// `8xy3`: `Vx = Vx ^ Vy`.
    Xor { x: usize, y: usize },
    /// `8xy4`: `Vx = Vx + Vy`, with the carry in `VF`.
    AddRegister { x: usize, y: usize },
    /// `8xy5`: `VF = Vx > Vy`, then `Vx = Vx - Vy`, wrapping.
    Subtract { x: usize, y: usize },
    /// `8xy6`: `VF` = lowest bit of `Vx`, then `Vx` is halved.
    ShiftRight { x: usize },
    /// `8xy7`: `VF = Vy > Vx`, then `Vx = Vy - Vx`, wrapping.
    SubtractFrom { x: usize, y: usize },
    /// `8xyE`: `VF` = lowest bit of `Vx`, then `Vx` is doubled, wrapping.
    ShiftLeft { x: usize },
    /// Any other word of group `8`: only the program counter advances.
    NoOperation,
    /// `9xy_`: skip the next instruction if `Vx != Vy`.
    SkipIfRegistersNotEqual { x: usize, y: usize },
    /// `Annn`: `I = addr`.
    LoadIndex { addr: u16 },
    /// `Dxyn`: draw the `n`-row sprite at `memory[I..]` at column `Vx`, row `Vy`.
    Draw { x: usize, y: usize, n: usize },
    /// `Fx07`: `Vx` = delay timer.
    ReadDelay { x: usize },
    /// `Fx0A`: placeholder for waiting on a key; only the program counter advances.
    WaitKey { x: usize },
    /// `Fx15`: delay timer = `Vx`.
    SetDelay { x: usize },
    /// `Fx18`: sound timer = `Vx`.
    SetSound { x: usize },
    /// `Fx1E`: `I = I + Vx`.
    AddIndex { x: usize },
    /// `Fx29`: `I` = address of the glyph for the digit in `Vx`.
    FontAddress { x: usize },
    /// `Fx33`: store the three decimal digits of `Vx` at `memory[I..I + 3]`.
    Decimal { x: usize },
    /// `Fx55`: copy `V0..=Vx` to `memory[I..]`.
    Store { x: usize },
    /// `Fx65`: copy `memory[I..]` to `V0..=Vx`, then `I = I + x + 1`.
    Restore { x: usize },
    /// Any other word of group `F`.
    Unimplemented,
    /// A word of group `B`, `C` or `E`.
    Unknown,
}

/// The operation of group `8` that the last nibble selects.
pub open spec fn arithmetic_of(op: u16) -> Instruction {
    let x = reg_x(op) as usize;
    let y = reg_y(op) as usize;
    let k = low_nibble(op);
    if k == 0x0 {
        Instruction::Move { x, y }
    } else if k == 0x1 {
        Instruction::Or { x, y }
    } else if k == 0x2 {
        Instruction::And { x, y }
    } else if k == 0x3 {
        Instruction::Xor { x, y }
    } else if k == 0x4 {
        Instruction::AddRegister { x, y }
    } else if k == 0x5 {
        Instruction::Subtract { x, y }
    } else if k == 0x6 {
        Instruction::ShiftRight { x }
    } else if k == 0x7 {
        Instruction::SubtractFrom { x, y }
    } else if k == 0xE {
        Instruction::ShiftLeft { x }
    } else {
        Instruction::NoOperation
    }
}

/// The operation of group `F` that the low byte selects.
pub open spec fn special_of(op: u16) -> Instruction {
    let x = reg_x(op) as usize;
    let k = low_byte(op);
    if k == 0x07 {
        Instruction::ReadDelay { x }
    } else if k == 0x0A {
        Instruction::WaitKey { x }
    } else if k == 0x15 {
        Instruction::SetDelay { x }
    } else if k == 0x18 {
        Instruction::SetSound { x }
    } else if k == 0x1E {
        Instruction::AddIndex { x }
    } else if k == 0x29 {
        Instruction::FontAddress { x }
    } else if k == 0x33 {
        Instruction::Decimal { x }
    } else if k == 0x55 {
        Instruction::Store { x }
    } else if k == 0x65 {
        Instruction::Restore { x }
    } else {
        Instruction::Unimplemented
    }
}

/// The instruction that a word stands for.
pub open spec fn instruction_of(op: u16) -> Instruction {
    let x = reg_x(op) as usize;
    let y = reg_y(op) as usize;
    let kk = low_byte(op) as u8;
    let addr = address(op) as u16;
    let g = group(op);
    if g == 0x0 {
        if op == 0x00E0 {
            Instruction::ClearScreen
        } else if op == 0x00EE {
            Instruction::Return
        } else {
            Instruction::Ignored
        }
    } else if g == 0x1 {
        Instruction::Jump { addr }
    } else if g == 0x2 {
        Instruction::Call { addr }
    } else if g == 0x3 {
        Instruction::SkipIfEqual { x, kk }
    } else if g == 0x4 {
        Instruction::SkipIfNotEqual { x, kk }
    } else if g == 0x5 {
        Instruction::SkipIfRegistersEqual { x, y }
    } else if g == 0x6 {
        Instruction::Load { x, kk }
    } else if g == 0x7 {
        Instruction::AddImmediate { x, kk }
    } else if g == 0x8 {
        arithmetic_of(op)
    } else if g == 0x9 {
        Instruction::SkipIfRegistersNotEqual { x, y }
    } else if g == 0xA {
        Instruction::LoadIndex { addr }
    } else if g == 0xD {
        Instruction::Draw { x, y, n: low_nibble(op) as usize }
    } else if g == 0xF {
        special_of(op)
    } else {
        Instruction::Unknown
    }
}

impl Instruction {
    /// Every register number and the sprite height are below 16, every address
    /// below 4096.
    pub open spec fn well_formed(self) -> bool {
        match self {
            Instruction::Jump { addr } => addr < 4096,
            Instruction::Call { addr } => addr < 4096,
            Instruction::SkipIfEqual { x, kk } => x < 16,
            Instruction::SkipIfNotEqual { x, kk } => x < 16,
            Instruction::SkipIfRegistersEqual { x, y } => x < 16 && y < 16,
            Instruction::Load { x, kk } => x < 16,
            Instruction::AddImmediate { x, kk } => x < 16,
            Instruction::Move { x, y } => x < 16 && y < 16,
            Instruction::Or { x, y } => x < 16 && y < 16,
            Instruction::And { x, y } => x < 16 && y < 16,
            Instruction::Xor { x, y } => x < 16 && y < 16,
            Instruction::AddRegister { x, y } => x < 16 && y < 16,
            Instruction::Subtract { x, y } => x < 16 && y < 16,
            Instruction::ShiftRight { x } => x < 16,
            Instruction::SubtractFrom { x, y } => x < 16 && y < 16,
            Instruction::ShiftLeft { x } => x < 16,
            Instruction::SkipIfRegistersNotEqual { x, y } => x < 16 && y < 16,
            Instruction::LoadIndex { addr } => addr < 4096,
            Instruction::Draw { x, y, n } => x < 16 && y < 16 && n < 16,
            Instruction::ReadDelay { x } => x < 16,
            Instruction::WaitKey { x } => x < 16,
            Instruction::SetDelay { x } => x < 16,
            Instruction::SetSound { x } => x < 16,
            Instruction::AddIndex { x } => x < 16,
            Instruction::FontAddress { x } => x < 16,
            Instruction::Decimal { x } => x < 16,
            Instruction::Store { x } => x < 16,
            Instruction::Restore { x } => x < 16,
            _ => true,
        }
    }
}

/// The second nibble of `op`.
pub fn field_x(op: u16) -> (x: usize)
    ensures
        x == reg_x(op),
        x < 16,
{
    let x: u16 = (op & 0x0F00) >> 8;
    assert(((op & 0x0F00) >> 8) == (op / 256) % 16) by (bit_vector);
    x as usize
}

/// The third nibble of `op`.
pub fn field_y(op: u16) -> (y: usize)
    ensures
        y == reg_y(op),
        y < 16,
{
    let y: u16 = (op & 0x00F0) >> 4;
    assert(((op & 0x00F0) >> 4) == (op / 16) % 16) by (bit_vector);
    y as usize
}

/// The last nibble of `op`.
pub fn field_n(op: u16) -> (n: usize)
    ensures
        n == low_nibble(op),
        n < 16,
{
    let n: u16 = op & 0x000F;
    assert((op & 0x000F) == op % 16) by (bit_vector);
    n as usize
}

/// The low byte of `op`.
pub fn field_kk(op: u16) -> (kk: u8)
    ensures
        kk == low_byte(op),
{
    let kk: u16 = op & 0x00FF;
    assert((op & 0x00FF) == op % 256) by (bit_vector);
    kk as u8
}

/// The low twelve bits of `op`.
pub fn field_nnn(op: u16) -> (addr: u16)
    ensures
        addr == address(op),
        addr < 4096,
{
    let addr: u16 = op & 0x0FFF;
    assert((op & 0x0FFF) == op % 4096) by (bit_vector);
    addr
}

/// Decodes the operation of a word of group `8`.
fn decode_arithmetic(op: u16) -> (ins: Instruction)
    ensures
        ins == arithmetic_of(op),
{
    let x: usize = field_x(op);
    let y: usize = field_y(op);
    let k: usize = field_n(op);
    if k == 0x0 {
        Instruction::Move { x, y }
    } else if k == 0x1 {
        Instruction::Or { x, y }
    } else if k == 0x2 {
        Instruction::And { x, y }
    } else if k == 0x3 {
        Instruction::Xor { x, y }
    } else if k == 0x4 {
        Instruction::AddRegister { x, y }
    } else if k == 0x5 {
        Instruction::Subtract { x, y }
    } else if k == 0x6 {
        Instruction::ShiftRight { x }
    } else if k == 0x7 {
        Instruction::SubtractFrom { x, y }
    } else if k == 0xE {
        Instruction::ShiftLeft { x }
    } else {
        Instruction::NoOperation
    }
}

/// Decodes the operation of a word of group `F`.
fn decode_special(op: u16) -> (ins: Instruction)
    ensures
        ins == special_of(op),
{
    let x: usize = field_x(op);
    let k: u8 = field_kk(op);
    if k == 0x07 {
        Instruction::ReadDelay { x }
    } else if k == 0x0A {
        Instruction::WaitKey { x }
    } else if k == 0x15 {
        Instruction::SetDelay { x }
    } else if k == 0x18 {
        Instruction::SetSound { x }
    } else if k == 0x1E {
        Instruction::AddIndex { x }
    } else if k == 0x29 {
        Instruction::FontAddress { x }
    } else if k == 0x33 {
        Instruction::Decimal { x }
    } else if k == 0x55 {
        Instruction::Store { x }
    } else if k == 0x65 {
        Instruction::Restore { x }
    } else {
        Instruction::Unimplemented
    }
}

/// Decodes an instruction word.
pub fn decode(op: u16) -> (ins: Instruction)
    ensures
        ins == instruction_of(op),
        ins.well_formed(),
{
    let x: usize = field_x(op);
    let y: usize = field_y(op);
    let kk: u8 = field_kk(op);
    let addr: u16 = field_nnn(op);
    let g: u16 = op & 0xF000;
    assert((op & 0xF000) == (op / 4096) * 4096) by (bit_vector);
    if g == 0x0000 {
        if op == 0x00E0 {
            Instruction::ClearScreen
        } else if op == 0x00EE {
            Instruction::Return
        } else {
            Instruction::Ignored
        }
    } else if g == 0x1000 {
        Instruction::Jump { addr }
    } else if g == 0x2000 {
        Instruction::Call { addr }
    } else if g == 0x3000 {
        Instruction::SkipIfEqual { x, kk }
    } else if g == 0x4000 {
        Instruction::SkipIfNotEqual { x, kk }
    } else if g == 0x5000 {
        Instruction::SkipIfRegistersEqual { x, y }
    } else if g == 0x6000 {
        Instruction::Load { x, kk }
    } else if g == 0x7000 {
        Instruction::AddImmediate { x, kk }
    } else if g == 0x8000 {
        decode_arithmetic(op)
    } else if g == 0x9000 {
        Instruction::SkipIfRegistersNotEqual { x, y }
    } else if g == 0xA000 {
        Instruction::LoadIndex { addr }
    } else if g == 0xD000 {
        Instruction::Draw { x, y, n: field_n(op) }
    } else if g == 0xF000 {
        decode_special(op)
    } else {
        Instruction::Unknown
    }
}

} // verus!
