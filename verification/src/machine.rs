//! The machine as a mathematical value, and what one cycle does to it.
//!
//! Every instruction reads its operands from the state in which it starts.
//! Where it writes two results, they are written in the order given here, so
//! that the later one stays when both land in the same register.

use vstd::prelude::*;
use crate::fault::Fault;
use crate::instruction::{decoded, Instruction};

verus! {

/// Bytes of addressable memory.
pub const MEMORY_SIZE: usize = 4096;

/// Address at which a program image is loaded and at which execution starts.
pub const PROGRAM_START: u16 = 0x200;

/// Address of the first byte of the glyph table.
pub const FONT_START: u16 = 0x50;

/// Number of bytes in the glyph table: sixteen glyphs of five rows.
pub const FONT_SIZE: usize = 80;

/// Largest program image that fits between the load address and the end of
/// memory.
pub const MAX_PROGRAM_SIZE: usize = 3584;

/// Width of the frame buffer in pixels.
pub const WIDTH: usize = 64;

/// Height of the frame buffer in pixels.
pub const HEIGHT: usize = 32;

/// Number of pixels in the frame buffer.
pub const DISPLAY_SIZE: usize = 2048;

/// Number of return addresses that the call stack holds.
pub const STACK_SIZE: usize = 16;

/// Number of the register that receives carry, borrow and collision.
pub const FLAG: u8 = 0xF;

/// The key code that stands for "no key".
pub const NO_KEY: u8 = 0xFF;

/// The whole state of the machine.
#[verifier::ext_equal]
pub struct Machine {
    /// The 4096 bytes of memory.
    pub memory: Seq<u8>,
    /// The sixteen general registers; the last one is the flag register.
    pub reg: Seq<u8>,
    /// The index register.
    pub index: nat,
    /// The program counter.
    pub pc: nat,
    /// The return addresses of the calls in progress, oldest first.
    pub stack: Seq<nat>,
    /// The frame buffer, row by row, one cell per pixel, each 0 or 1.
    pub display: Seq<u8>,
    /// The delay timer.
    pub delay: u8,
    /// The sound timer.
    pub sound: u8,
    /// The key that the host latched for this cycle, if any.
    pub key: Option<u8>,
}

/// What a cycle tells the host besides the new state.
#[derive(Clone, Copy, PartialEq, Eq, Structural, Debug)]
pub struct CycleReport {
    /// The sound timer went from one to zero in this cycle: sound the tone.
    pub tone: bool,
    /// The word that was fetched encodes no instruction; it was skipped.
    pub unknown_opcode: Option<u16>,
}

impl Machine {
    /// The sizes and ranges that every reachable state has.
    pub open spec fn wf(self) -> bool {
        &&& self.memory.len() == MEMORY_SIZE
        &&& self.reg.len() == 16
        &&& self.display.len() == DISPLAY_SIZE
        &&& forall|cell: int| 0 <= cell < DISPLAY_SIZE ==> #[trigger] self.display[cell] <= 1
        &&& self.stack.len() <= STACK_SIZE
        &&& forall|i: int| 0 <= i < self.stack.len() ==> #[trigger] self.stack[i] <= u16::MAX
        &&& self.index <= u16::MAX
        &&& self.pc <= u16::MAX
        &&& (self.key matches Some(k) ==> k <= 0xF)
    }

    /// The same state with the program counter on the next instruction.
    pub open spec fn advanced(self) -> Machine {
        Machine { pc: self.pc + 2, ..self }
    }

    /// The same state with the program counter past the next instruction.
    pub open spec fn skipped(self) -> Machine {
        Machine { pc: self.pc + 4, ..self }
    }

    /// The same state with the program counter past the next instruction if
    /// `skip` holds, else on it.
    pub open spec fn advanced_or_skipped(self, skip: bool) -> Machine {
        if skip {
            self.skipped()
        } else {
            self.advanced()
        }
    }

    /// The same state with register `x` holding `value`.
    pub open spec fn with_reg(self, x: u8, value: u8) -> Machine {
        Machine { reg: self.reg.update(x as int, value), ..self }
    }

    /// The same state after writing `value` to register `x` and then `flag`
    /// to the flag register.
    pub open spec fn with_reg_then_flag(self, x: u8, value: u8, flag: u8) -> Machine {
        self.with_reg(x, value).with_reg(FLAG, flag)
    }

    /// The same state after writing `flag` to the flag register and then
    /// `value` to register `x`.
    pub open spec fn with_flag_then_reg(self, flag: u8, x: u8, value: u8) -> Machine {
        self.with_reg(FLAG, flag).with_reg(x, value)
    }
}

/// The initial glyph table: five rows for each hexadecimal digit, the four
/// high bits of a row being its pixels from left to right.
pub open spec fn font() -> Seq<u8> {
    seq![
        0xF0u8, 0x90, 0x90, 0x90, 0xF0,
        0x20, 0x60, 0x20, 0x20, 0x70,
        0xF0, 0x10, 0xF0, 0x80, 0xF0,
        0xF0, 0x10, 0xF0, 0x10, 0xF0,
        0x90, 0x90, 0xF0, 0x10, 0x10,
        0xF0, 0x80, 0xF0, 0x10, 0xF0,
        0xF0, 0x80, 0xF0, 0x90, 0xF0,
        0xF0, 0x10, 0x20, 0x40, 0x40,
        0xF0, 0x90, 0xF0, 0x90, 0xF0,
        0xF0, 0x90, 0xF0, 0x10, 0xF0,
        0xF0, 0x90, 0xF0, 0x90, 0x90,
        0xE0, 0x90, 0xE0, 0x90, 0xE0,
        0xF0, 0x80, 0x80, 0x80, 0xF0,
        0xE0, 0x90, 0x90, 0x90, 0xE0,
        0xF0, 0x80, 0xF0, 0x80, 0xF0,
        0xF0, 0x80, 0xF0, 0x80, 0x80,
    ]
}

/// A frame buffer with every pixel off.
pub open spec fn blank_display() -> Seq<u8> {
    Seq::new(DISPLAY_SIZE as nat, |cell: int| 0u8)
}

/// The state of a machine that was just built: memory zero but for the glyph
/// table, everything else zero, no key, the program counter on the load
/// address.
pub open spec fn initial() -> Machine {
    Machine {
        memory: Seq::new(
            MEMORY_SIZE as nat,
            |a: int|
                if FONT_START <= a < FONT_START + FONT_SIZE {
                    font()[a - FONT_START]
                } else {
                    0u8
                },
        ),
        reg: Seq::new(16, |i: int| 0u8),
        index: 0,
        pc: PROGRAM_START as nat,
        stack: Seq::empty(),
        display: blank_display(),
        delay: 0,
        sound: 0,
        key: None,
    }
}

/// The state after loading `image`: its bytes stand in memory from the load
/// address on, in order, and nothing else has changed.
pub open spec fn loaded(m: Machine, image: Seq<u8>) -> Machine {
    Machine {
        memory: Seq::new(
            MEMORY_SIZE as nat,
            |a: int|
                if PROGRAM_START <= a < PROGRAM_START + image.len() {
                    image[a - PROGRAM_START]
                } else {
                    m.memory[a]
                },
        ),
        ..m
    }
}

/// What the keypad latch holds after the host hands over `key`.
pub open spec fn latched(key: u8) -> Option<u8> {
    if key == NO_KEY {
        None
    } else {
        Some(key)
    }
}

/// The word at `pc`: two consecutive bytes, the high one first.
pub open spec fn opcode_at(memory: Seq<u8>, pc: int) -> u16 {
    (memory[pc] as int * 0x100 + memory[pc + 1] as int) as u16
}

/// The word that the next cycle fetches, or the fault where the program
/// counter does not leave room for two bytes.
pub open spec fn fetched(m: Machine) -> Result<u16, Fault> {
    if m.pc + 1 < MEMORY_SIZE {
        Ok(opcode_at(m.memory, m.pc as int))
    } else {
        Err(Fault::AddressOutOfRange)
    }
}

/// Whether pixel `col` of a sprite row is lit; column 0 is the leftmost
/// pixel and the highest bit.
pub open spec fn sprite_bit(row: u8, col: int) -> bool {
    0 <= col < 8 && row & (0x80u8 >> (col as u8)) != 0
}

/// Whether the sprite of `n` rows at `index`, drawn with its top left corner
/// at column `x0` and row `y0`, has a lit pixel on the cell `cell` of the
/// frame buffer. Sprite pixels beyond the right or the lower edge fall on no
/// cell.
pub open spec fn sprite_lights(
    memory: Seq<u8>,
    index: int,
    x0: int,
    y0: int,
    n: int,
    cell: int,
) -> bool {
    let col = cell % (WIDTH as int) - x0;
    let row = cell / (WIDTH as int) - y0;
    0 <= row < n && sprite_bit(memory[index + row], col)
}

/// A pixel after a lit sprite pixel was drawn onto it.
pub open spec fn flipped(pixel: u8) -> u8 {
    if pixel == 0 {
        1
    } else {
        0
    }
}

/// The frame buffer after drawing the sprite: the cells under its lit pixels
/// are flipped, all others are kept.
pub open spec fn drawn(
    display: Seq<u8>,
    memory: Seq<u8>,
    index: int,
    x0: int,
    y0: int,
    n: int,
) -> Seq<u8> {
    Seq::new(
        DISPLAY_SIZE as nat,
        |cell: int|
            if sprite_lights(memory, index, x0, y0, n, cell) {
                flipped(display[cell])
            } else {
                display[cell]
            },
    )
}

/// Whether drawing the sprite turns off a pixel that was on.
pub open spec fn collides(
    display: Seq<u8>,
    memory: Seq<u8>,
    index: int,
    x0: int,
    y0: int,
    n: int,
) -> bool {
    exists|cell: int|
        0 <= cell < DISPLAY_SIZE && #[trigger] sprite_lights(memory, index, x0, y0, n, cell)
            && display[cell] == 1
}

/// Memory after storing registers 0 to `x` from `index` on.
pub open spec fn dumped(memory: Seq<u8>, reg: Seq<u8>, index: int, x: int) -> Seq<u8> {
    Seq::new(
        MEMORY_SIZE as nat,
        |a: int|
            if index <= a <= index + x {
                reg[a - index]
            } else {
                memory[a]
            },
    )
}

/// The registers after filling registers 0 to `x` from `index` on.
pub open spec fn refilled(memory: Seq<u8>, reg: Seq<u8>, index: int, x: int) -> Seq<u8> {
    Seq::new(
        16,
        |i: int|
            if i <= x {
                memory[index + i]
            } else {
                reg[i]
            },
    )
}

/// A sum or difference of two bytes, wrapped into a byte.
pub open spec fn wrapped(value: int) -> u8 {
    (value % 0x100) as u8
}

/// 1 if the condition holds, else 0.
pub open spec fn flag_of(condition: bool) -> u8 {
    if condition {
        1
    } else {
        0
    }
}

/// The state after the instruction `ins`, or the fault on which it is
/// refused. `random` is the byte that the random instruction uses; no other
/// instruction looks at it. The timers and the keypad latch are untouched:
/// they move in `ticked`.
pub open spec fn executed(m: Machine, ins: Instruction, random: u8) -> Result<Machine, Fault> {
    match ins {
        Instruction::ClearScreen => Ok(Machine { display: blank_display(), ..m }.advanced()),
        Instruction::Return => if m.stack.len() == 0 {
            Err(Fault::StackUnderflow)
        } else {
            Ok(Machine { pc: m.stack.last(), stack: m.stack.drop_last(), ..m })
        },
        Instruction::Jump { addr } => Ok(Machine { pc: addr as nat, ..m }),
        Instruction::Call { addr } => if m.stack.len() >= STACK_SIZE {
            Err(Fault::StackOverflow)
        } else {
            Ok(Machine { pc: addr as nat, stack: m.stack.push(m.pc + 2), ..m })
        },
        Instruction::SkipEqImm { x, nn } => Ok(m.advanced_or_skipped(m.reg[x as int] == nn)),
        Instruction::SkipNeImm { x, nn } => Ok(m.advanced_or_skipped(m.reg[x as int] != nn)),
        Instruction::SkipEqReg { x, y } => Ok(
            m.advanced_or_skipped(m.reg[x as int] == m.reg[y as int]),
        ),
        Instruction::SkipNeReg { x, y } => Ok(
            m.advanced_or_skipped(m.reg[x as int] != m.reg[y as int]),
        ),
        Instruction::LoadImm { x, nn } => Ok(m.with_reg(x, nn).advanced()),
        Instruction::AddImm { x, nn } => Ok(
            m.with_reg(x, wrapped(m.reg[x as int] + nn)).advanced(),
        ),
        Instruction::Move { x, y } => Ok(m.with_reg(x, m.reg[y as int]).advanced()),
        Instruction::Or { x, y } => Ok(
            m.with_reg(x, m.reg[x as int] | m.reg[y as int]).advanced(),
        ),
        Instruction::And { x, y } => Ok(
            m.with_reg(x, m.reg[x as int] & m.reg[y as int]).advanced(),
        ),
        Instruction::Xor { x, y } => Ok(
            m.with_reg(x, m.reg[x as int] ^ m.reg[y as int]).advanced(),
        ),
        Instruction::AddCarry { x, y } => {
            let sum = m.reg[x as int] + m.reg[y as int];
            Ok(m.with_flag_then_reg(flag_of(sum > 0xFF), x, wrapped(sum)).advanced())
        },
        Instruction::SubBorrow { x, y } => {
            let a = m.reg[x as int];
            let b = m.reg[y as int];
            Ok(m.with_flag_then_reg(flag_of(a > b), x, wrapped(a - b)).advanced())
        },
        Instruction::ShiftRight { x, y } => {
            let b = m.reg[y as int];
            Ok(m.with_reg_then_flag(x, b / 2, b % 2).advanced())
        },
        Instruction::SubReverse { x, y } => {
            let a = m.reg[x as int];
            let b = m.reg[y as int];
            Ok(m.with_flag_then_reg(flag_of(b > a), x, wrapped(b - a)).advanced())
        },
        Instruction::ShiftLeft { x, y } => {
            let b = m.reg[y as int];
            Ok(m.with_reg_then_flag(x, wrapped(b * 2), b / 0x80).advanced())
        },
        Instruction::LoadIndex { addr } => Ok(Machine { index: addr as nat, ..m }.advanced()),
        Instruction::JumpOffset { addr } => Ok(
            Machine { pc: (addr + m.reg[0]) as nat, ..m },
        ),
        Instruction::Random { x, nn } => Ok(m.with_reg(x, random & nn).advanced()),
        Instruction::Draw { x, y, n } => if n > 0 && m.index + n > MEMORY_SIZE {
            Err(Fault::AddressOutOfRange)
        } else {
            let x0 = m.reg[x as int] as int % (WIDTH as int);
            let y0 = m.reg[y as int] as int % (HEIGHT as int);
            let hit = collides(m.display, m.memory, m.index as int, x0, y0, n as int);
            Ok(
                Machine {
                    display: drawn(m.display, m.memory, m.index as int, x0, y0, n as int),
                    ..m
                }.with_reg(FLAG, flag_of(hit)).advanced(),
            )
        },
        Instruction::SkipKey { x } => Ok(m.advanced_or_skipped(m.key == Some(m.reg[x as int]))),
        Instruction::SkipNoKey { x } => Ok(
            m.advanced_or_skipped(m.key != Some(m.reg[x as int])),
        ),
        Instruction::ReadDelay { x } => Ok(m.with_reg(x, m.delay).advanced()),
        Instruction::WaitKey { x } => match m.key {
            Some(k) => Ok(m.with_reg(x, k).advanced()),
            None => Ok(m),
        },
        Instruction::SetDelay { x } => Ok(Machine { delay: m.reg[x as int], ..m }.advanced()),
        Instruction::SetSound { x } => Ok(Machine { sound: m.reg[x as int], ..m }.advanced()),
        Instruction::AddIndex { x } => if m.index + m.reg[x as int] > u16::MAX {
            Err(Fault::AddressOutOfRange)
        } else {
            Ok(Machine { index: m.index + m.reg[x as int] as nat, ..m }.advanced())
        },
        Instruction::Glyph { x } => Ok(
            Machine { index: m.reg[x as int] as nat * 5, ..m }.advanced(),
        ),
        Instruction::Bcd { x } => if m.index + 2 >= MEMORY_SIZE {
            Err(Fault::AddressOutOfRange)
        } else {
            let v = m.reg[x as int];
            let i = m.index as int;
            Ok(
                Machine {
                    memory: m.memory.update(i, v / 100).update(i + 1, (v / 10) % 10).update(
                        i + 2,
                        v % 10,
                    ),
                    ..m
                }.advanced(),
            )
        },
        Instruction::Dump { x } => if m.index + x >= MEMORY_SIZE {
            Err(Fault::AddressOutOfRange)
        } else {
            Ok(
                Machine {
                    memory: dumped(m.memory, m.reg, m.index as int, x as int),
                    index: m.index + x as nat + 1,
                    ..m
                }.advanced(),
            )
        },
        Instruction::Load { x } => if m.index + x >= MEMORY_SIZE {
            Err(Fault::AddressOutOfRange)
        } else {
            Ok(
                Machine {
                    reg: refilled(m.memory, m.reg, m.index as int, x as int),
                    index: m.index + x as nat + 1,
                    ..m
                }.advanced(),
            )
        },
        Instruction::Unknown { opcode } => Ok(m.advanced()),
    }
}

/// A timer one tick later: one less, and zero stays zero.
pub open spec fn counted_down(timer: u8) -> u8 {
    if timer > 0 {
        (timer - 1) as u8
    } else {
        0
    }
}

/// The state after the end of a cycle: both timers count down and the keypad
/// latch is emptied.
pub open spec fn ticked(m: Machine) -> Machine {
    Machine { delay: counted_down(m.delay), sound: counted_down(m.sound), key: None, ..m }
}

/// What the cycle that ends in `ticked(m)` and that fetched `opcode` reports:
/// the tone exactly when the sound timer is about to go from one to zero, and
/// the word where it encodes no instruction.
pub open spec fn reported(m: Machine, opcode: u16) -> CycleReport {
    CycleReport {
        tone: m.sound == 1,
        unknown_opcode: if decoded(opcode) is Unknown {
            Some(opcode)
        } else {
            None
        },
    }
}

/// One whole cycle: fetch, decode, execute, then the tick. A fault at the
/// fetch or in the instruction refuses the whole cycle.
pub open spec fn cycle(m: Machine, random: u8) -> Result<(Machine, CycleReport), Fault> {
    match fetched(m) {
        Err(fault) => Err(fault),
        Ok(opcode) => match executed(m, decoded(opcode), random) {
            Err(fault) => Err(fault),
            Ok(after) => Ok((ticked(after), reported(after, opcode))),
        },
    }
}

/// Whether the next cycle executes the random instruction, the only one whose
/// result the random byte decides.
pub open spec fn draws_random(m: Machine) -> bool {
    fetched(m) matches Ok(opcode) && decoded(opcode) is Random
}

} // verus!
