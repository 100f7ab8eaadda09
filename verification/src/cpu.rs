//! The execution engine: what one instruction does to the machine.
//!
//! `step` says what the machine looks like after the current instruction,
//! `fault_of` says when the instruction is refused instead, and `Chip8::run`
//! carries the instruction out accordingly.

use vstd::prelude::*;
use crate::display::{blank, blit, collision, draw_sprite, sprite_at, sprite_fits};
use crate::fault::Fault;
use crate::font::glyph_address;
use crate::machine::{Chip8, State};
use crate::opcode::{decode, instruction_of, Instruction};

verus! {

/// A truth value as the flag register holds it.
pub open spec fn flag(b: bool) -> u8 {
    if b {
        1
    } else {
        0
    }
}

/// `a + b` reduced to eight bits.
pub open spec fn wrapping_sum(a: u8, b: u8) -> u8 {
    ((a + b) % 256) as u8
}

/// `a - b` reduced to eight bits.
pub open spec fn wrapping_difference(a: u8, b: u8) -> u8 {
    ((a - b) % 256) as u8
}

/// The program counter moved on by `by`.
pub open spec fn moved(pc: u16, by: int) -> u16 {
    (pc + by) as u16
}

/// How far a skip instruction moves the program counter: past the next
/// instruction if the condition holds, to the next instruction if not.
pub open spec fn skip_distance(condition: bool) -> int {
    if condition {
        4
    } else {
        2
    }
}

/// The registers after an operation of the arithmetic group. Where an
/// operation sets the flag before it computes, the computation reads the
/// registers with the flag already set.
pub open spec fn registers_after(v: Seq<u8>, ins: Instruction) -> Seq<u8> {
    match ins {
        Instruction::Move { x, y } => v.update(x as int, v[y as int]),
        Instruction::Or { x, y } => v.update(x as int, v[x as int] | v[y as int]),
        Instruction::And { x, y } => v.update(x as int, v[x as int] & v[y as int]),
        Instruction::Xor { x, y } => v.update(x as int, v[x as int] ^ v[y as int]),
        Instruction::AddRegister { x, y } => {
            let sum = v[x as int] + v[y as int];
            v.update(x as int, (sum % 256) as u8).update(15, flag(sum > 255))
        },
        Instruction::Subtract { x, y } => {
            let f = v.update(15, flag(v[x as int] > v[y as int]));
            f.update(x as int, wrapping_difference(f[x as int], f[y as int]))
        },
        Instruction::ShiftRight { x } => {
            let f = v.update(15, (v[x as int] % 2) as u8);
            f.update(x as int, (f[x as int] / 2) as u8)
        },
        Instruction::SubtractFrom { x, y } => {
            let f = v.update(15, flag(v[y as int] > v[x as int]));
            f.update(x as int, wrapping_difference(f[y as int], f[x as int]))
        },
        Instruction::ShiftLeft { x } => {
            let f = v.update(15, (v[x as int] % 2) as u8);
            f.update(x as int, ((f[x as int] * 2) % 256) as u8)
        },
        _ => v,
    }
}

/// Memory after the three decimal digits of `value` are stored from `at` on:
/// hundreds, tens, units.
pub open spec fn with_decimal(memory: Seq<u8>, at: int, value: u8) -> Seq<u8> {
    memory.update(at, (value / 100) as u8).update(at + 1, ((value % 100) / 10) as u8).update(
        at + 2,
        (value % 10) as u8,
    )
}

/// Memory after registers `V0..=Vx` are copied to `at..=at + x`.
pub open spec fn with_registers(memory: Seq<u8>, at: int, v: Seq<u8>, x: int) -> Seq<u8> {
    Seq::new(
        memory.len(),
        |a: int|
            if at <= a <= at + x {
                v[a - at]
            } else {
                memory[a]
            },
    )
}

/// The registers after `V0..=Vx` are filled from `memory[at..=at + x]`.
pub open spec fn with_memory(v: Seq<u8>, memory: Seq<u8>, at: int, x: int) -> Seq<u8> {
    Seq::new(
        v.len(),
        |r: int|
            if r <= x {
                memory[at + r]
            } else {
                v[r]
            },
    )
}

/// The registers after a sprite was drawn: the flag tells whether the last
/// row turned off a lit pixel; with no row drawn it stays.
pub open spec fn with_collision(v: Seq<u8>, hit: Option<bool>) -> Seq<u8> {
    match hit {
        Some(h) => v.update(15, flag(h)),
        None => v,
    }
}

/// The fault, if any, of moving the program counter on by `by`.
pub open spec fn counter_fault(pc: u16, by: int) -> Option<Fault> {
    if pc + by > 0xFFFF {
        Some(Fault::OutOfBounds)
    } else {
        None
    }
}

/// Why the current instruction of `s` is refused, or `None` if it is carried out.
pub open spec fn fault_of(s: State) -> Option<Fault> {
    match instruction_of(s.opcode) {
        Instruction::Ignored => None,
        Instruction::Jump { addr } => None,
        Instruction::Return => if s.sp < 0 {
            Some(Fault::StackUnderflow)
        } else if s.sp > 15 {
            Some(Fault::OutOfBounds)
        } else {
            counter_fault(s.stack[s.sp as int], 2)
        },
        Instruction::Call { addr } => if s.sp >= 15 {
            Some(Fault::StackOverflow)
        } else if s.sp < -1 {
            Some(Fault::OutOfBounds)
        } else {
            None
        },
        Instruction::SkipIfEqual { x, kk } => counter_fault(
            s.pc,
            skip_distance(s.v[x as int] == kk),
        ),
        Instruction::SkipIfNotEqual { x, kk } => counter_fault(
            s.pc,
            skip_distance(s.v[x as int] != kk),
        ),
        Instruction::SkipIfRegistersEqual { x, y } => counter_fault(
            s.pc,
            skip_distance(s.v[x as int] == s.v[y as int]),
        ),
        Instruction::SkipIfRegistersNotEqual { x, y } => counter_fault(
            s.pc,
            skip_distance(s.v[x as int] != s.v[y as int]),
        ),
        Instruction::Draw { x, y, n } => if !sprite_fits(
            s.i as int,
            n as int,
            s.v[x as int] as int,
            s.v[y as int] as int,
        ) {
            Some(Fault::OutOfBounds)
        } else {
            counter_fault(s.pc, 2)
        },
        Instruction::AddIndex { x } => if s.i + s.v[x as int] > 0xFFFF {
            Some(Fault::OutOfBounds)
        } else {
            counter_fault(s.pc, 2)
        },
        Instruction::FontAddress { x } => if s.v[x as int] > 15 {
            Some(Fault::InvalidDigit)
        } else {
            counter_fault(s.pc, 2)
        },
        Instruction::Decimal { x } => if s.i + 2 >= 4096 {
            Some(Fault::OutOfBounds)
        } else {
            counter_fault(s.pc, 2)
        },
        Instruction::Store { x } => if s.i + x >= 4096 {
            Some(Fault::OutOfBounds)
        } else {
            counter_fault(s.pc, 2)
        },
        Instruction::Restore { x } => if s.i + x >= 4096 {
            Some(Fault::OutOfBounds)
        } else {
            counter_fault(s.pc, 2)
        },
        Instruction::Unimplemented => Some(Fault::UnimplementedOpcode),
        Instruction::Unknown => Some(Fault::UnknownOpcode),
        _ => counter_fault(s.pc, 2),
    }
}

/// The machine after the current instruction of `s` is carried out.
/// Meaningful where `fault_of(s)` is `None`.
pub open spec fn step(s: State) -> State {
    let ins = instruction_of(s.opcode);
    match ins {
        Instruction::ClearScreen => State { gfx: blank(), pc: moved(s.pc, 2), ..s },
        Instruction::Return => State {
            pc: moved(s.stack[s.sp as int], 2),
            sp: (s.sp - 1) as i8,
            ..s
        },
        Instruction::Ignored => s,
        Instruction::Jump { addr } => State { pc: addr, ..s },
        Instruction::Call { addr } => State {
            sp: (s.sp + 1) as i8,
            stack: s.stack.update(s.sp + 1, s.pc),
            pc: addr,
            ..s
        },
        Instruction::SkipIfEqual { x, kk } => State {
            pc: moved(s.pc, skip_distance(s.v[x as int] == kk)),
            ..s
        },
        Instruction::SkipIfNotEqual { x, kk } => State {
            pc: moved(s.pc, skip_distance(s.v[x as int] != kk)),
            ..s
        },
        Instruction::SkipIfRegistersEqual { x, y } => State {
            pc: moved(s.pc, skip_distance(s.v[x as int] == s.v[y as int])),
            ..s
        },
        Instruction::SkipIfRegistersNotEqual { x, y } => State {
            pc: moved(s.pc, skip_distance(s.v[x as int] != s.v[y as int])),
            ..s
        },
        Instruction::Load { x, kk } => State {
            v: s.v.update(x as int, kk),
            pc: moved(s.pc, 2),
            ..s
        },
        Instruction::AddImmediate { x, kk } => State {
            v: s.v.update(x as int, wrapping_sum(s.v[x as int], kk)),
            pc: moved(s.pc, 2),
            ..s
        },
        Instruction::LoadIndex { addr } => State { i: addr, pc: moved(s.pc, 2), ..s },
        Instruction::Draw { x, y, n } => {
            let sprite = sprite_at(s.memory, s.i as int, n as int);
            let col = s.v[x as int] as int;
            let row = s.v[y as int] as int;
            State {
                gfx: blit(s.gfx, sprite, col, row),
                v: with_collision(s.v, collision(s.gfx, sprite, col, row)),
                pc: moved(s.pc, 2),
                ..s
            }
        },
        Instruction::ReadDelay { x } => State {
            v: s.v.update(x as int, s.delay_timer),
            pc: moved(s.pc, 2),
            ..s
        },
        Instruction::SetDelay { x } => State {
            delay_timer: s.v[x as int],
            pc: moved(s.pc, 2),
            ..s
        },
        Instruction::SetSound { x } => State {
            sound_timer: s.v[x as int],
            pc: moved(s.pc, 2),
            ..s
        },
        Instruction::AddIndex { x } => State {
            i: (s.i + s.v[x as int]) as u16,
            pc: moved(s.pc, 2),
            ..s
        },
        Instruction::FontAddress { x } => State {
            i: glyph_address(s.v[x as int] as int) as u16,
            pc: moved(s.pc, 2),
            ..s
        },
        Instruction::Decimal { x } => State {
            memory: with_decimal(s.memory, s.i as int, s.v[x as int]),
            pc: moved(s.pc, 2),
            ..s
        },
        Instruction::Store { x } => State {
            memory: with_registers(s.memory, s.i as int, s.v, x as int),
            pc: moved(s.pc, 2),
            ..s
        },
        Instruction::Restore { x } => State {
            v: with_memory(s.v, s.memory, s.i as int, x as int),
            i: (s.i + x + 1) as u16,
            pc: moved(s.pc, 2),
            ..s
        },
        Instruction::Unimplemented => s,
        Instruction::Unknown => s,
        _ => State { v: registers_after(s.v, ins), pc: moved(s.pc, 2), ..s },
    }
}

/// What `run` owes: either the instruction is carried out, or it is refused
/// for the reason that `fault_of` gives and nothing has changed.
pub open spec fn carried_out(before: State, after: State, r: Result<(), Fault>) -> bool {
    match r {
        Ok(_) => fault_of(before) is None && after == step(before),
        Err(f) => fault_of(before) == Some(f) && after == before,
    }
}

impl Chip8 {
    /// Whether the program counter can move on by `by`.
    fn has_room(&self, by: u16) -> (ok: bool)
        ensures
            ok == (counter_fault(self@.pc, by as int) is None),
    {
        self.pc <= 0xFFFF - by
    }

    /// Carries out one operation of the arithmetic group on the registers.
    fn arithmetic(&mut self, ins: Instruction)
        requires
            ins.well_formed(),
        ensures
            final(self)@ == (State { v: registers_after(old(self)@.v, ins), ..old(self)@ }),
    {
        match ins {
            Instruction::Move { x, y } => {
                self.v[x] = self.v[y];
            },
            Instruction::Or { x, y } => {
                self.v[x] = self.v[x] | self.v[y];
            },
            Instruction::And { x, y } => {
                self.v[x] = self.v[x] & self.v[y];
            },
            Instruction::Xor { x, y } => {
                self.v[x] = self.v[x] ^ self.v[y];
            },
            Instruction::AddRegister { x, y } => {
                let sum: u16 = self.v[x] as u16 + self.v[y] as u16;
                assert((sum & 0x00FF) == sum % 256) by (bit_vector);
                self.v[x] = (sum & 0x00FF) as u8;
                self.v[0xF] = if sum > 0x00FF {
                    1
                } else {
                    0
                };
            },
            Instruction::Subtract { x, y } => {
                self.v[0xF] = if self.v[x] > self.v[y] {
                    1
                } else {
                    0
                };
                self.v[x] = self.v[x].wrapping_sub(self.v[y]);
            },
            Instruction::ShiftRight { x } => {
                let before: u8 = self.v[x];
                assert((before & 0x01) == before % 2) by (bit_vector);
                self.v[0xF] = before & 0x01;
                let low: u8 = self.v[x];
                assert((low >> 1u8) == low / 2) by (bit_vector);
                self.v[x] = low >> 1u8;
            },
            Instruction::SubtractFrom { x, y } => {
                self.v[0xF] = if self.v[y] > self.v[x] {
                    1
                } else {
                    0
                };
                self.v[x] = self.v[y].wrapping_sub(self.v[x]);
            },
            Instruction::ShiftLeft { x } => {
                let before: u8 = self.v[x];
                assert((before & 0x01) == before % 2) by (bit_vector);
                self.v[0xF] = before & 0x01;
                let low: u8 = self.v[x];
                assert((low << 1u8) == (low * 2) % 256) by (bit_vector);
                self.v[x] = low << 1u8;
            },
            _ => {},
        }
        assert(self@.v =~= registers_after(old(self)@.v, ins));
    }

    /// Copies `V0..=Vx` to memory from `I` on.
    fn store_registers(&mut self, x: usize)
        requires
            x < 16,
            old(self).i + x < 4096,
        ensures
            final(self)@ == (State {
                memory: with_registers(
                    old(self)@.memory,
                    old(self)@.i as int,
                    old(self)@.v,
                    x as int,
                ),
                ..old(self)@
            }),
    {
        let at: usize = self.i as usize;
        let mut r: usize = 0;
        while r <= x
            invariant
                x < 16,
                r <= x + 1,
                at == old(self).i,
                at + x < 4096,
                forall|a: int| at <= a < at + r ==> self.memory@[a] == old(self).v@[a - at],
                forall|a: int|
                    0 <= a < 4096 && !(at <= a < at + r) ==> self.memory@[a] == old(
                        self,
                    ).memory@[a],
                self.v == old(self).v,
                self.delay_timer == old(self).delay_timer,
                self.sound_timer == old(self).sound_timer,
                self.stack == old(self).stack,
                self.sp == old(self).sp,
                self.opcode == old(self).opcode,
                self.gfx == old(self).gfx,
                self.pc == old(self).pc,
                self.i == old(self).i,
            decreases x + 1 - r,
        {
            self.memory[at + r] = self.v[r];
            r = r + 1;
        }
        assert(self@.memory =~= with_registers(
            old(self)@.memory,
            old(self)@.i as int,
            old(self)@.v,
            x as int,
        ));
    }

    /// Fills `V0..=Vx` from memory from `I` on.
    fn restore_registers(&mut self, x: usize)
        requires
            x < 16,
            old(self).i + x < 4096,
        ensures
            final(self)@ == (State {
                v: with_memory(old(self)@.v, old(self)@.memory, old(self)@.i as int, x as int),
                ..old(self)@
            }),
    {
        let at: usize = self.i as usize;
        let mut r: usize = 0;
        while r <= x
            invariant
                x < 16,
                r <= x + 1,
                at == old(self).i,
                at + x < 4096,
                forall|k: int| 0 <= k < r ==> self.v@[k] == old(self).memory@[at + k],
                forall|k: int| r <= k < 16 ==> self.v@[k] == old(self).v@[k],
                self.memory == old(self).memory,
                self.delay_timer == old(self).delay_timer,
                self.sound_timer == old(self).sound_timer,
                self.stack == old(self).stack,
                self.sp == old(self).sp,
                self.opcode == old(self).opcode,
                self.gfx == old(self).gfx,
                self.pc == old(self).pc,
                self.i == old(self).i,
            decreases x + 1 - r,
        {
            self.v[r] = self.memory[at + r];
            r = r + 1;
        }
        assert(self@.v =~= with_memory(
            old(self)@.v,
            old(self)@.memory,
            old(self)@.i as int,
            x as int,
        ));
    }

    /// Carries out a return, a call or a jump.
    fn transfer(&mut self, ins: Instruction) -> (r: Result<(), Fault>)
        requires
            ins == instruction_of(old(self).opcode),
            ins is Return || ins is Call || ins is Jump,
        ensures
            carried_out(old(self)@, final(self)@, r),
    {
        match ins {
            Instruction::Return => {
                if self.sp < 0 {
                    return Err(Fault::StackUnderflow);
                }
                if self.sp > 15 {
                    return Err(Fault::OutOfBounds);
                }
                let target: u16 = self.stack[self.sp as usize];
                if target > 0xFFFF - 2 {
                    return Err(Fault::OutOfBounds);
                }
                self.pc = target;
                self.sp = self.sp - 1;
                self.pc = self.pc + 2;
            },
            Instruction::Call { addr } => {
                if self.sp >= 15 {
                    return Err(Fault::StackOverflow);
                }
                if self.sp < -1 {
                    return Err(Fault::OutOfBounds);
                }
                self.sp = self.sp + 1;
                self.stack[self.sp as usize] = self.pc;
                self.pc = addr;
            },
            Instruction::Jump { addr } => {
                self.pc = addr;
            },
            _ => {},
        }
        assert(self@ =~= step(old(self)@));
        Ok(())
    }

    /// Carries out a conditional skip.
    fn skip(&mut self, ins: Instruction) -> (r: Result<(), Fault>)
        requires
            ins == instruction_of(old(self).opcode),
            ins.well_formed(),
            ins is SkipIfEqual || ins is SkipIfNotEqual || ins is SkipIfRegistersEqual
                || ins is SkipIfRegistersNotEqual,
        ensures
            carried_out(old(self)@, final(self)@, r),
    {
        let condition: bool = match ins {
            Instruction::SkipIfEqual { x, kk } => self.v[x] == kk,
            Instruction::SkipIfNotEqual { x, kk } => self.v[x] != kk,
            Instruction::SkipIfRegistersEqual { x, y } => self.v[x] == self.v[y],
            Instruction::SkipIfRegistersNotEqual { x, y } => self.v[x] != self.v[y],
            _ => false,
        };
        let by: u16 = if condition {
            4
        } else {
            2
        };
        if !self.has_room(by) {
            return Err(Fault::OutOfBounds);
        }
        self.pc = self.pc + by;
        assert(self@ =~= step(old(self)@));
        Ok(())
    }

    /// Carries out the sprite-drawing instruction.
    fn draw(&mut self, ins: Instruction) -> (r: Result<(), Fault>)
        requires
            ins == instruction_of(old(self).opcode),
            ins.well_formed(),
            ins is Draw,
        ensures
            carried_out(old(self)@, final(self)@, r),
    {
        if let Instruction::Draw { x, y, n } = ins {
            if !self.has_room(2) {
                return Err(Fault::OutOfBounds);
            }
            let col: u8 = self.v[x];
            let row: u8 = self.v[y];
            match draw_sprite(&mut self.gfx, &self.memory, self.i as usize, n, col, row) {
                Err(_) => {
                    assert(self@ =~= old(self)@);
                    return Err(Fault::OutOfBounds);
                },
                Ok(hit) => {
                    match hit {
                        Some(h) => {
                            self.v[0xF] = if h {
                                1
                            } else {
                                0
                            };
                        },
                        None => {},
                    }
                    self.pc = self.pc + 2;
                },
            }
        }
        assert(self@ =~= step(old(self)@));
        Ok(())
    }

    /// Carries out an operation of the `F` group.
    fn special(&mut self, ins: Instruction) -> (r: Result<(), Fault>)
        requires
            ins == instruction_of(old(self).opcode),
            ins.well_formed(),
            ins is ReadDelay || ins is WaitKey || ins is SetDelay || ins is SetSound
                || ins is AddIndex || ins is FontAddress || ins is Decimal || ins is Store
                || ins is Restore,
        ensures
            carried_out(old(self)@, final(self)@, r),
    {
        match ins {
            Instruction::ReadDelay { x } => {
                if !self.has_room(2) {
                    return Err(Fault::OutOfBounds);
                }
                self.v[x] = self.delay_timer;
            },
            Instruction::WaitKey { x } => {
                if !self.has_room(2) {
                    return Err(Fault::OutOfBounds);
                }
            },
            Instruction::SetDelay { x } => {
                if !self.has_room(2) {
                    return Err(Fault::OutOfBounds);
                }
                self.delay_timer = self.v[x];
            },
            Instruction::SetSound { x } => {
                if !self.has_room(2) {
                    return Err(Fault::OutOfBounds);
                }
                self.sound_timer = self.v[x];
            },
            Instruction::AddIndex { x } => {
                if self.i > 0xFFFF - self.v[x] as u16 || !self.has_room(2) {
                    return Err(Fault::OutOfBounds);
                }
                self.i = self.i + self.v[x] as u16;
            },
            Instruction::FontAddress { x } => {
                let digit: u8 = self.v[x];
                if digit > 15 {
                    return Err(Fault::InvalidDigit);
                }
                if !self.has_room(2) {
                    return Err(Fault::OutOfBounds);
                }
                self.i = digit as u16 * 5;
            },
            Instruction::Decimal { x } => {
                if self.i as usize + 2 >= 4096 || !self.has_room(2) {
                    return Err(Fault::OutOfBounds);
                }
                let value: u8 = self.v[x];
                let at: usize = self.i as usize;
                self.memory[at] = value / 100;
                self.memory[at + 1] = (value % 100) / 10;
                self.memory[at + 2] = value % 10;
            },
            Instruction::Store { x } => {
                if self.i as usize + x >= 4096 || !self.has_room(2) {
                    return Err(Fault::OutOfBounds);
                }
                self.store_registers(x);
            },
            Instruction::Restore { x } => {
                if self.i as usize + x >= 4096 || !self.has_room(2) {
                    return Err(Fault::OutOfBounds);
                }
                self.restore_registers(x);
                self.i = self.i + x as u16 + 1;
            },
            _ => {},
        }
        self.pc = self.pc + 2;
        assert(self@ =~= step(old(self)@));
        Ok(())
    }

    /// Carries out the instruction held in `opcode`.
    ///
    /// The instruction is refused exactly when `fault_of` names a fault, and
    /// the machine is then left as it was; otherwise the machine becomes what
    /// `step` describes.
    pub fn run(&mut self) -> (r: Result<(), Fault>)
        ensures
            r is Ok <==> fault_of(old(self)@) is None,
            r is Ok ==> final(self)@ == step(old(self)@),
            r matches Err(f) ==> fault_of(old(self)@) == Some(f) && final(self)@ == old(self)@,
    {
        let ins: Instruction = decode(self.opcode);
        match ins {
            Instruction::Ignored => Ok(()),
            Instruction::Unimplemented => Err(Fault::UnimplementedOpcode),
            Instruction::Unknown => Err(Fault::UnknownOpcode),
            Instruction::Return | Instruction::Call { .. } | Instruction::Jump { .. } => {
                self.transfer(ins)
            },
            Instruction::SkipIfEqual { .. }
            | Instruction::SkipIfNotEqual { .. }
            | Instruction::SkipIfRegistersEqual { .. }
            | Instruction::SkipIfRegistersNotEqual { .. } => self.skip(ins),
            Instruction::Draw { .. } => self.draw(ins),
            Instruction::ReadDelay { .. }
            | Instruction::WaitKey { .. }
            | Instruction::SetDelay { .. }
            | Instruction::SetSound { .. }
            | Instruction::AddIndex { .. }
            | Instruction::FontAddress { .. }
            | Instruction::Decimal { .. }
            | Instruction::Store { .. }
            | Instruction::Restore { .. } => self.special(ins),
            Instruction::ClearScreen => {
                if !self.has_room(2) {
                    return Err(Fault::OutOfBounds);
                }
                self.gfx = [0; 256];
                self.pc = self.pc + 2;
                assert(self@ =~= step(old(self)@));
                Ok(())
            },
            Instruction::Load { x, kk } => {
                if !self.has_room(2) {
                    return Err(Fault::OutOfBounds);
                }
                self.v[x] = kk;
                self.pc = self.pc + 2;
                assert(self@ =~= step(old(self)@));
                Ok(())
            },
            Instruction::AddImmediate { x, kk } => {
                if !self.has_room(2) {
                    return Err(Fault::OutOfBounds);
                }
                self.v[x] = self.v[x].wrapping_add(kk);
                self.pc = self.pc + 2;
                assert(self@ =~= step(old(self)@));
                Ok(())
            },
            Instruction::LoadIndex { addr } => {
                if !self.has_room(2) {
                    return Err(Fault::OutOfBounds);
                }
                self.i = addr;
                self.pc = self.pc + 2;
                assert(self@ =~= step(old(self)@));
                Ok(())
            },
            _ => {
                if !self.has_room(2) {
                    return Err(Fault::OutOfBounds);
                }
                self.arithmetic(ins);
                self.pc = self.pc + 2;
                assert(self@ =~= step(old(self)@));
                Ok(())
            },
        }
    }
}


} // verus!
