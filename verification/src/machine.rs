//! The machine's state and the operations that set it up: construction,
//! installing the font, loading a program image and fetching an instruction.

use vstd::prelude::*;
use crate::fault::Fault;
use crate::font::{font_byte, glyph, glyph_rows};

verus! {

/// Pixels in one display row.
pub const WIDTH: usize = 64;

/// Display rows.
pub const HEIGHT: usize = 32;

/// Address at which program images are loaded and execution starts.
pub const PROGRAM_START: usize = 0x200;

/// The machine.
///
/// `sp` is the slot that holds the most recent return address, or `-1`
/// while the stack is empty. `gfx` holds the display row by row, eight bytes
/// to a row, the leftmost pixel of each byte in its highest bit.
#[derive(Clone, Debug, PartialEq, Eq)]
pub struct Chip8 {
    pub memory: [u8; 4096],
    pub v: [u8; 16],
    pub delay_timer: u8,
    pub sound_timer: u8,
    pub stack: [u16; 16],
    pub sp: i8,
    pub opcode: u16,
    pub gfx: [u8; 256],
    pub pc: u16,
    pub i: u16,
}

/// The machine as a mathematical value.
#[verifier::ext_equal]
pub struct State {
    pub memory: Seq<u8>,
    pub v: Seq<u8>,
    pub delay_timer: u8,
    pub sound_timer: u8,
    pub stack: Seq<u16>,
    pub sp: i8,
    pub opcode: u16,
    pub gfx: Seq<u8>,
    pub pc: u16,
    pub i: u16,
}

impl State {
    /// Each store has its fixed size.
    pub open spec fn well_formed(self) -> bool {
        &&& self.memory.len() == 4096
        &&& self.v.len() == 16
        &&& self.stack.len() == 16
        &&& self.gfx.len() == 256
    }

    /// The stack pointer denotes the empty stack or one of the sixteen slots.
    pub open spec fn stack_in_range(self) -> bool {
        -1 <= self.sp <= 15
    }

    /// The machine right after construction: everything zero, the stack
    /// empty, the program counter at the load address.
    pub open spec fn initial() -> State {
        State {
            memory: Seq::new(4096, |a: int| 0u8),
            v: Seq::new(16, |r: int| 0u8),
            delay_timer: 0,
            sound_timer: 0,
            stack: Seq::new(16, |k: int| 0u16),
            sp: -1i8,
            opcode: 0,
            gfx: Seq::new(256, |k: int| 0u8),
            pc: 0x200,
            i: 0,
        }
    }

    /// This state with the font written over the first eighty bytes of memory.
    pub open spec fn with_font(self) -> State {
        State {
            memory: Seq::new(
                4096,
                |a: int|
                    if a < 80 {
                        font_byte(a)
                    } else {
                        self.memory[a]
                    },
            ),
            ..self
        }
    }

    /// Whether an image of `len` bytes fits between the load address and the
    /// end of memory.
    pub open spec fn image_fits(len: int) -> bool {
        0x200 + len <= 4096
    }

    /// This state with `image` copied byte for byte to the load address.
    pub open spec fn with_image(self, image: Seq<u8>) -> State {
        State {
            memory: Seq::new(
                4096,
                |a: int|
                    if 0x200 <= a < 0x200 + image.len() {
                        image[a - 0x200]
                    } else {
                        self.memory[a]
                    },
            ),
            ..self
        }
    }

    /// Whether both bytes of the instruction at the program counter lie in memory.
    pub open spec fn can_fetch(self) -> bool {
        self.pc + 1 < 4096
    }

    /// The instruction word at the program counter: two bytes, the first one
    /// the high byte.
    pub open spec fn next_word(self) -> int {
        self.memory[self.pc as int] * 256 + self.memory[self.pc + 1]
    }

    /// This state with the word at the program counter as current instruction.
    /// The program counter stays.
    pub open spec fn fetched(self) -> State {
        State { opcode: self.next_word() as u16, ..self }
    }
}

impl View for Chip8 {
    type V = State;

    open spec fn view(&self) -> State {
        State {
            memory: self.memory@,
            v: self.v@,
            delay_timer: self.delay_timer,
            sound_timer: self.sound_timer,
            stack: self.stack@,
            sp: self.sp,
            opcode: self.opcode,
            gfx: self.gfx@,
            pc: self.pc,
            i: self.i,
        }
    }
}

impl Chip8 {
    /// A machine with everything zeroed, an empty stack, and the program
    /// counter at the load address.
    pub fn new() -> (m: Chip8)
        ensures
            m@ == State::initial(),
    {
        Chip8 {
            delay_timer: 0,
            sound_timer: 0,
            memory: [0; 4096],
            opcode: 0,
            sp: -1,
            gfx: [0; 256],
            v: [0; 16],
            stack: [0; 16],
            pc: 0x200,
            i: 0,
        }
    }

    /// Writes the sixteen glyphs into memory from address 0, five bytes each,
    /// the glyph of digit `d` at `5 * d`.
    pub fn init_mem(&mut self)
        ensures
            final(self)@ == old(self)@.with_font(),
    {
        let mut d: usize = 0;
        while d < 16
            invariant
                d <= 16,
                forall|a: int| 0 <= a < 5 * d ==> self.memory@[a] == font_byte(a),
                forall|a: int| 5 * d <= a < 4096 ==> self.memory@[a] == old(self).memory@[a],
                self.v == old(self).v,
                self.delay_timer == old(self).delay_timer,
                self.sound_timer == old(self).sound_timer,
                self.stack == old(self).stack,
                self.sp == old(self).sp,
                self.opcode == old(self).opcode,
                self.gfx == old(self).gfx,
                self.pc == old(self).pc,
                self.i == old(self).i,
            decreases 16 - d,
        {
            let rows: [u8; 5] = glyph_rows(d);
            let mut r: usize = 0;
            while r < 5
                invariant
                    d < 16,
                    r <= 5,
                    rows@ == glyph(d as int),
                    forall|a: int| 0 <= a < 5 * d + r ==> self.memory@[a] == font_byte(a),
                    forall|a: int|
                        5 * d + r <= a < 4096 ==> self.memory@[a] == old(self).memory@[a],
                    self.v == old(self).v,
                    self.delay_timer == old(self).delay_timer,
                    self.sound_timer == old(self).sound_timer,
                    self.stack == old(self).stack,
                    self.sp == old(self).sp,
                    self.opcode == old(self).opcode,
                    self.gfx == old(self).gfx,
                    self.pc == old(self).pc,
                    self.i == old(self).i,
                decreases 5 - r,
            {
                self.memory[5 * d + r] = rows[r];
                r = r + 1;
            }
            d = d + 1;
        }
        assert(self@.memory =~= old(self)@.with_font().memory);
    }

    /// Copies `program` into memory at the load address. An image that does
    /// not fit is refused.
    pub fn load_rom(&mut self, program: &Vec<u8>) -> (r: Result<(), Fault>)
        ensures
            r is Ok <==> State::image_fits(program@.len() as int),
            r is Ok ==> final(self)@ == old(self)@.with_image(program@),
            r is Err ==> r == Err::<(), Fault>(Fault::OutOfBounds) && final(self)@ == old(self)@,
    {
        let len: usize = program.len();
        if len > 4096 - PROGRAM_START {
            return Err(Fault::OutOfBounds);
        }
        let mut k: usize = 0;
        while k < len
            invariant
                k <= len,
                len == program@.len(),
                len <= 4096 - 0x200,
                forall|a: int| 0x200 <= a < 0x200 + k ==> self.memory@[a] == program@[a - 0x200],
                forall|a: int|
                    0 <= a < 4096 && !(0x200 <= a < 0x200 + k) ==> self.memory@[a] == old(
                        self,
                    ).memory@[a],
                self.v == old(self).v,
                self.delay_timer == old(self).delay_timer,
                self.sound_timer == old(self).sound_timer,
                self.stack == old(self).stack,
                self.sp == old(self).sp,
                self.opcode == old(self).opcode,
                self.gfx == old(self).gfx,
                self.pc == old(self).pc,
                self.i == old(self).i,
            decreases len - k,
        {
            self.memory[PROGRAM_START + k] = program[k];
            k = k + 1;
        }
        assert(self@.memory =~= old(self)@.with_image(program@).memory);
        Ok(())
    }

    /// Fetches the instruction word at the program counter into `opcode`,
    /// leaving the program counter where it is. A program counter whose
    /// two bytes are not both in memory is refused.
    pub fn load_opcode(&mut self) -> (r: Result<(), Fault>)
        ensures
            r is Ok <==> old(self)@.can_fetch(),
            r is Ok ==> final(self)@ == old(self)@.fetched(),
            r is Err ==> r == Err::<(), Fault>(Fault::OutOfBounds) && final(self)@ == old(self)@,
    {
        let at: usize = self.pc as usize;
        if at + 1 >= 4096 {
            return Err(Fault::OutOfBounds);
        }
        let high: u8 = self.memory[at];
        let low: u8 = self.memory[at + 1];
        let word: u16 = (high as u16) << 8 | (low as u16);
        assert(((high as u16) << 8 | (low as u16)) == high * 256 + low) by (bit_vector);
        self.opcode = word;
        Ok(())
    }
}

} // verus!
