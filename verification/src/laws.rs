//! Laws of the execution engine, stated over `step` and `fault_of`, the two
//! functions in which `Chip8::run` is specified.

use vstd::prelude::*;
use crate::cpu::{fault_of, step};
use crate::compositing::lemma_blit_bytes;
use crate::display::{blank, sprite_at};
use crate::machine::{Chip8, State};
use crate::opcode::{address, group, low_byte, low_nibble, reg_x, reg_y};

verus! {

/// The stores of a machine have their fixed sizes, whatever is done to it.
pub proof fn law_stores_have_fixed_sizes(m: Chip8)
    ensures
        m@.well_formed(),
{
}

/// `6xkk` leaves `kk` in `Vx`, for every `x`, and moves the program counter
/// on by exactly two; nothing else changes.
pub proof fn law_load_sets_register(s: State)
    requires
        s.well_formed(),
        group(s.opcode) == 0x6,
        s.pc + 2 <= 0xFFFF,
    ensures
        fault_of(s) is None,
        step(s).v[reg_x(s.opcode)] == low_byte(s.opcode),
        step(s).pc == s.pc + 2,
        step(s) == (State { v: step(s).v, pc: step(s).pc, ..s }),
        forall|r: int| 0 <= r < 16 && r != reg_x(s.opcode) ==> step(s).v[r] == s.v[r],
{
}

/// `7xkk` adds with wraparound and touches no other register: in particular
/// `0xFF + 1` gives `0`, and the flag register does not record the overflow.
pub proof fn law_add_immediate_wraps(s: State)
    requires
        s.well_formed(),
        group(s.opcode) == 0x7,
        s.pc + 2 <= 0xFFFF,
    ensures
        fault_of(s) is None,
        step(s).v[reg_x(s.opcode)] == (s.v[reg_x(s.opcode)] + low_byte(s.opcode)) % 256,
        s.v[reg_x(s.opcode)] == 0xFF && low_byte(s.opcode) == 0x01 ==> step(s).v[reg_x(
            s.opcode,
        )] == 0x00,
        forall|r: int| 0 <= r < 16 && r != reg_x(s.opcode) ==> step(s).v[r] == s.v[r],
        step(s).pc == s.pc + 2,
{
}

/// `8xy4` splits the nine-bit sum of `Vx` and `Vy`: the low eight bits go to
/// `Vx`, the ninth to the flag register. Where `Vx` is the flag register
/// itself, the flag is what remains in it.
pub proof fn law_add_register_carries(s: State)
    requires
        s.well_formed(),
        group(s.opcode) == 0x8,
        low_nibble(s.opcode) == 0x4,
        s.pc + 2 <= 0xFFFF,
    ensures
        fault_of(s) is None,
        step(s).v[15] == if s.v[reg_x(s.opcode)] + s.v[reg_y(s.opcode)] > 255 {
            1int
        } else {
            0int
        },
        reg_x(s.opcode) != 15 ==> step(s).v[reg_x(s.opcode)] + 256 * step(s).v[15] == s.v[reg_x(
            s.opcode,
        )] + s.v[reg_y(s.opcode)],
        step(s).pc == s.pc + 2,
{
}

/// `00E0` leaves every pixel dark, whatever the display held before.
pub proof fn law_clear_screen_blanks(s: State)
    requires
        s.well_formed(),
        s.opcode == 0x00E0,
        s.pc + 2 <= 0xFFFF,
    ensures
        fault_of(s) is None,
        step(s).gfx == blank(),
        forall|k: int| 0 <= k < 256 ==> step(s).gfx[k] == 0,
        step(s) == (State { gfx: blank(), pc: (s.pc + 2) as u16, ..s }),
{
}

/// A call followed by a return resumes right behind the call: `2nnn` jumps to
/// `nnn` and pushes the address of the call; `00EE` then pops it, continues
/// two bytes further on, and leaves the stack as deep as it was.
pub proof fn law_call_then_return(s: State)
    requires
        s.well_formed(),
        group(s.opcode) == 0x2,
        -1 <= s.sp < 15,
        s.pc + 2 <= 0xFFFF,
    ensures
        fault_of(s) is None,
        step(s).pc == address(s.opcode),
        step(s).sp == s.sp + 1,
        step(s).stack[s.sp + 1] == s.pc,
        ({
            let called = State { opcode: 0x00EE, ..step(s) };
            &&& fault_of(called) is None
            &&& step(called).pc == s.pc + 2
            &&& step(called).sp == s.sp
        }),
{
}

/// The four conditional skips, where they are carried out, move the program
/// counter on by four if their condition holds and by two if it does not, and
/// change nothing else: `3xkk` skips on `Vx == kk`, `4xkk` on `Vx != kk`, `5xy_` on
/// `Vx == Vy`, `9xy_` on `Vx != Vy`.
pub proof fn law_skips(s: State)
    requires
        s.well_formed(),
        group(s.opcode) == 0x3 || group(s.opcode) == 0x4 || group(s.opcode) == 0x5 || group(
            s.opcode,
        ) == 0x9,
        fault_of(s) is None,
    ensures
        ({
            let vx = s.v[reg_x(s.opcode)];
            let vy = s.v[reg_y(s.opcode)];
            let kk = low_byte(s.opcode);
            let g = group(s.opcode);
            let taken = if g == 0x3 {
                vx == kk
            } else if g == 0x4 {
                vx != kk
            } else if g == 0x5 {
                vx == vy
            } else {
                vx != vy
            };
            &&& taken ==> step(s).pc == s.pc + 4
            &&& !taken ==> step(s).pc == s.pc + 2
            &&& step(s) == (State { pc: step(s).pc, ..s })
        }),
{
}

/// `Fx33` stores the decimal digits of `Vx`: three values below ten that
/// read as hundreds, tens and units give `Vx` back.
pub proof fn law_decimal_digits(s: State)
    requires
        s.well_formed(),
        group(s.opcode) == 0xF,
        low_byte(s.opcode) == 0x33,
        s.i + 2 < 4096,
        s.pc + 2 <= 0xFFFF,
    ensures
        fault_of(s) is None,
        ({
            let m = step(s).memory;
            let at = s.i as int;
            &&& m[at] < 10 && m[at + 1] < 10 && m[at + 2] < 10
            &&& 100 * m[at] + 10 * m[at + 1] + m[at + 2] == s.v[reg_x(s.opcode)]
            &&& forall|a: int| 0 <= a < 4096 && !(at <= a <= at + 2) ==> m[a] == s.memory[a]
        }),
{
}

/// The stack pointer never leaves its range: from a state in which it
/// denotes the empty stack or a slot, every instruction that is carried out
/// leads to such a state again.
pub proof fn law_stack_pointer_stays_in_range(s: State)
    requires
        s.well_formed(),
        s.stack_in_range(),
        fault_of(s) is None,
    ensures
        step(s).well_formed(),
        step(s).stack_in_range(),
{
    if group(s.opcode) == 0xD {
        lemma_blit_bytes(
            s.gfx,
            sprite_at(s.memory, s.i as int, low_nibble(s.opcode)),
            s.v[reg_x(s.opcode)] as int,
            s.v[reg_y(s.opcode)] as int,
        );
    }
}

} // verus!
