//! The executable machine.

use vstd::prelude::*;
use crate::fault::Fault;
use crate::instruction::Instruction;
pub use crate::machine::{HEIGHT, WIDTH};
use crate::machine::{
    blank_display, collides, drawn, dumped, executed, fetched, flipped, font, initial, latched,
    loaded, refilled, sprite_lights, ticked, Machine, FLAG, FONT_START, MAX_PROGRAM_SIZE,
    MEMORY_SIZE, NO_KEY, PROGRAM_START, STACK_SIZE,
};

verus! {

/// The glyph table as it is copied into memory when a machine is built.
fn font_table() -> (table: [u8; 80])
    ensures
        table@ == font(),
{
    let table: [u8; 80] = [
        0xF0, 0x90, 0x90, 0x90, 0xF0,
        0x20, 0x60, 0x20, 0x20, 0x70,
        0xF0, 0x10, 0xF0, 0x80, 0xF0,
        0xF0, 0x10, 0xF0, 0x10, 0xF0,
        0x90, 0x90, 0xF0, 0x10, 0x10,
        0xF0, 0x80, 0xF0, 0x10, 0xF0,
        0xF0, 0x80, 0xF0, 0x90, 0xF0,
        0xF0, 0x10, 0x20, 0x40, 0x40,
        0xF0, 0x90, 0xF0, 0x90, 0xF0,
        0xF0, 0x90, 0xF0, 0x10, 0xF0,
        0xF0, 0x90, 0xF0, 0x90, 0x90,
        0xE0, 0x90, 0xE0, 0x90, 0xE0,
        0xF0, 0x80, 0x80, 0x80, 0xF0,
        0xE0, 0x90, 0x90, 0x90, 0xE0,
        0xF0, 0x80, 0xF0, 0x80, 0xF0,
        0xF0, 0x80, 0xF0, 0x80, 0x80,
    ];
    assert(table@ =~= font());
    table
}

/// A CHIP-8 machine. Its state is read in contracts through its view, a
/// [`Machine`].
pub struct Chip8 {
    memory: [u8; 4096],
    reg: [u8; 16],
    index: u16,
    pc: u16,
    display: [u8; 2048],
    stack: [u16; 16],
    sp: usize,
    delay_timer: u8,
    sound_timer: u8,
    key: u8,
}

impl View for Chip8 {
    type V = Machine;

    closed spec fn view(&self) -> Machine {
        Machine {
            memory: self.memory@,
            reg: self.reg@,
            index: self.index as nat,
            pc: self.pc as nat,
            stack: Seq::new(self.sp as nat, |i: int| self.stack[i] as nat),
            display: self.display@,
            delay: self.delay_timer,
            sound: self.sound_timer,
            key: latched(self.key),
        }
    }
}

impl Chip8 {
    #[verifier::type_invariant]
    spec fn inv(self) -> bool {
        &&& self.sp <= 16
        &&& forall|cell: int| 0 <= cell < 2048 ==> #[trigger] self.display[cell] <= 1
        &&& (self.key <= 0xF || self.key == NO_KEY)
    }

    /// Builds a machine in its initial state.
    pub fn get_chip() -> (chip: Chip8)
        ensures
            chip@ == initial(),
            chip@.wf(),
    {
        let glyphs = font_table();
        let mut memory: [u8; 4096] = [0; 4096];
        let mut i: usize = 0;
        while i < 80
            invariant
                i <= 80,
                glyphs@ == font(),
                forall|a: int|
                    0 <= a < 4096 ==> #[trigger] memory[a] == if FONT_START <= a < FONT_START + i {
                        font()[a - FONT_START]
                    } else {
                        0u8
                    },
            decreases 80 - i,
        {
            memory[i + 0x50] = glyphs[i];
            i += 1;
        }
        let chip = Chip8 {
            memory,
            reg: [0; 16],
            index: 0,
            pc: 0x200,
            display: [0; 2048],
            stack: [0; 16],
            sp: 0,
            delay_timer: 0,
            sound_timer: 0,
            key: NO_KEY,
        };
        assert(chip@.memory =~= initial().memory);
        assert(chip@.reg =~= initial().reg);
        assert(chip@.stack =~= initial().stack);
        assert(chip@.display =~= initial().display);
        chip
    }

    /// Copies a program image into memory from the load address on. An image
    /// that does not fit is refused and nothing is written.
    pub fn load_game(&mut self, data: &[u8]) -> (done: Result<(), Fault>)
        ensures
            final(self)@.wf(),
            data@.len() <= MAX_PROGRAM_SIZE ==> done is Ok && final(self)@ == loaded(
                old(self)@,
                data@,
            ),
            data@.len() > MAX_PROGRAM_SIZE ==> done == Err::<(), Fault>(Fault::ProgramTooLarge)
                && final(self)@ == old(self)@,
    {
        proof {
            use_type_invariant(&*self);
        }
        if data.len() > MAX_PROGRAM_SIZE {
            return Err(Fault::ProgramTooLarge);
        }
        let mut i: usize = 0;
        while i < data.len()
            invariant
                i <= data.len() <= MAX_PROGRAM_SIZE,
                self@ == (Machine { memory: self@.memory, ..old(self)@ }),
                forall|a: int|
                    0 <= a < 4096 ==> #[trigger] self@.memory[a] == if PROGRAM_START <= a
                        < PROGRAM_START + i {
                        data@[a - PROGRAM_START]
                    } else {
                        old(self)@.memory[a]
                    },
            decreases data.len() - i,
        {
            proof {
                use_type_invariant(&*self);
            }
            self.memory[i + 0x200] = data[i];
            i += 1;
        }
        proof {
            use_type_invariant(&*self);
            assert(self@.memory =~= loaded(old(self)@, data@).memory);
        }
        Ok(())
    }

    /// A snapshot of the frame buffer, row by row: 64 cells for each of the
    /// 32 rows, each cell 0 or 1.
    pub fn get_display(&self) -> (grid: [u8; 2048])
        ensures
            grid@ == self@.display,
            self@.wf(),
    {
        proof {
            use_type_invariant(self);
        }
        self.display
    }

    /// Latches `key` as the key pressed in the coming cycle, in place of
    /// whatever was latched before. `NO_KEY` empties the latch.
    pub fn key_press(&mut self, key: u8)
        requires
            key <= 0xF || key == NO_KEY,
        ensures
            final(self)@ == (Machine { key: latched(key), ..old(self)@ }),
            final(self)@.wf(),
    {
        proof {
            use_type_invariant(&*self);
        }
        self.key = key;
    }

    /// Turns every pixel of the frame buffer off.
    pub(crate) fn clear_display(&mut self)
        ensures
            final(self)@ == (Machine { display: blank_display(), ..old(self)@ }),
    {
        proof {
            use_type_invariant(&*self);
        }
        self.display = [0; 2048];
        assert(self@.display =~= blank_display());
    }

    /// Reads the word at the program counter, high byte first.
    pub(crate) fn fetch(&self) -> (word: Result<u16, Fault>)
        ensures
            word == fetched(self@),
            self@.wf(),
    {
        proof {
            use_type_invariant(self);
        }
        if self.pc as usize + 1 < MEMORY_SIZE {
            let high: u8 = self.memory[self.pc as usize];
            let low: u8 = self.memory[self.pc as usize + 1];
            assert(((high as u16) << 8) | (low as u16) == high as u16 * 0x100 + low as u16)
                by (bit_vector);
            Ok(((high as u16) << 8) | (low as u16))
        } else {
            Err(Fault::AddressOutOfRange)
        }
    }

    /// Moves the program counter to the next instruction, or past it where
    /// `skip` holds.
    pub(crate) fn advance(&mut self, skip: bool)
        requires
            old(self)@.pc + 1 < MEMORY_SIZE,
        ensures
            final(self)@ == old(self)@.advanced_or_skipped(skip),
    {
        proof {
            use_type_invariant(&*self);
        }
        if skip {
            self.pc = self.pc + 4;
        } else {
            self.pc = self.pc + 2;
        }
    }

    /// Writes `value` to register `x` and goes on to the next instruction.
    pub(crate) fn store(&mut self, x: u8, value: u8)
        requires
            x <= 0xF,
            old(self)@.pc + 1 < MEMORY_SIZE,
        ensures
            final(self)@ == old(self)@.with_reg(x, value).advanced(),
    {
        proof {
            use_type_invariant(&*self);
        }
        self.reg[x as usize] = value;
        self.pc = self.pc + 2;
    }

    /// Writes `flag` to the flag register, then `value` to register `x`, and
    /// goes on to the next instruction.
    pub(crate) fn store_after_flag(&mut self, flag: u8, x: u8, value: u8)
        requires
            x <= 0xF,
            old(self)@.pc + 1 < MEMORY_SIZE,
        ensures
            final(self)@ == old(self)@.with_flag_then_reg(flag, x, value).advanced(),
    {
        proof {
            use_type_invariant(&*self);
        }
        self.reg[FLAG as usize] = flag;
        self.reg[x as usize] = value;
        self.pc = self.pc + 2;
    }

    /// Writes `value` to register `x`, then `flag` to the flag register, and
    /// goes on to the next instruction.
    pub(crate) fn store_before_flag(&mut self, x: u8, value: u8, flag: u8)
        requires
            x <= 0xF,
            old(self)@.pc + 1 < MEMORY_SIZE,
        ensures
            final(self)@ == old(self)@.with_reg_then_flag(x, value, flag).advanced(),
    {
        proof {
            use_type_invariant(&*self);
        }
        self.reg[x as usize] = value;
        self.reg[FLAG as usize] = flag;
        self.pc = self.pc + 2;
    }

    /// Pops the newest return address into the program counter.
    pub(crate) fn subroutine_return(&mut self) -> (done: Result<(), Fault>)
        ensures
            match executed(old(self)@, Instruction::Return, 0) {
                Ok(m) => done is Ok && final(self)@ == m,
                Err(fault) => done == Err::<(), Fault>(fault) && final(self)@ == old(self)@,
            },
    {
        proof {
            use_type_invariant(&*self);
        }
        if self.sp == 0 {
            return Err(Fault::StackUnderflow);
        }
        self.sp = self.sp - 1;
        self.pc = self.stack[self.sp];
        assert(self@.stack =~= old(self)@.stack.drop_last());
        Ok(())
    }

    /// Pushes the address of the next instruction and jumps to `addr`.
    pub(crate) fn subroutine_call(&mut self, addr: u16) -> (done: Result<(), Fault>)
        requires
            old(self)@.pc + 1 < MEMORY_SIZE,
        ensures
            match executed(old(self)@, Instruction::Call { addr }, 0) {
                Ok(m) => done is Ok && final(self)@ == m,
                Err(fault) => done == Err::<(), Fault>(fault) && final(self)@ == old(self)@,
            },
    {
        proof {
            use_type_invariant(&*self);
        }
        if self.sp >= STACK_SIZE {
            return Err(Fault::StackOverflow);
        }
        self.stack[self.sp] = self.pc + 2;
        self.sp = self.sp + 1;
        self.pc = addr;
        assert(self@.stack =~= old(self)@.stack.push(old(self)@.pc + 2));
        Ok(())
    }

    /// Draws the `n`-row sprite at the index register with its top left
    /// corner at the position held in registers `x` and `y`, each taken
    /// modulo the size of the frame buffer. Lit sprite pixels flip the cells
    /// under them; those that fall beyond the right or the lower edge are
    /// dropped. The flag register tells whether a lit cell was turned off.
    pub(crate) fn draw_sprite(&mut self, x: u8, y: u8, n: u8) -> (done: Result<(), Fault>)
        requires
            x <= 0xF,
            y <= 0xF,
            n <= 0xF,
            old(self)@.pc + 1 < MEMORY_SIZE,
        ensures
            match executed(old(self)@, Instruction::Draw { x, y, n }, 0) {
                Ok(m) => done is Ok && final(self)@ == m,
                Err(fault) => done == Err::<(), Fault>(fault) && final(self)@ == old(self)@,
            },
    {
        proof {
            use_type_invariant(&*self);
        }
        let base: usize = self.index as usize;
        let rows: usize = n as usize;
        if rows > 0 && base + rows > MEMORY_SIZE {
            return Err(Fault::AddressOutOfRange);
        }
        let x0: usize = (self.reg[x as usize] % 64) as usize;
        let y0: usize = (self.reg[y as usize] % 32) as usize;
        let ghost before = self@;
        let mut hit: bool = false;
        let ghost mut witness: int = 0;
        let mut row: usize = 0;
        while row < rows
            invariant
                row <= rows <= 0xF,
                rows > 0 ==> base + rows <= MEMORY_SIZE,
                x0 < WIDTH,
                y0 < HEIGHT,
                base == before.index,
                before.wf(),
                self@ == (Machine { display: self@.display, ..before }),
                self@.display.len() == 2048,
                forall|cell: int|
                    0 <= cell < 2048 ==> #[trigger] self@.display[cell] == if painted(
                        before.memory,
                        base as int,
                        x0 as int,
                        y0 as int,
                        rows as int,
                        cell,
                        row as int,
                        0,
                    ) {
                        flipped(before.display[cell])
                    } else {
                        before.display[cell]
                    },
                hit ==> 0 <= witness < 2048 && before.display[witness] == 1 && painted(
                    before.memory,
                    base as int,
                    x0 as int,
                    y0 as int,
                    rows as int,
                    witness,
                    row as int,
                    0,
                ),
                !hit ==> forall|cell: int|
                    0 <= cell < 2048 && #[trigger] painted(
                        before.memory,
                        base as int,
                        x0 as int,
                        y0 as int,
                        rows as int,
                        cell,
                        row as int,
                        0,
                    ) ==> before.display[cell] != 1,
            decreases rows - row,
        {
            let bits: u8 = self.memory[base + row];
            let mut col: usize = 0;
            while col < 8
                invariant
                    col <= 8,
                    row < rows <= 0xF,
                    base + rows <= MEMORY_SIZE,
                    x0 < WIDTH,
                    y0 < HEIGHT,
                    base == before.index,
                    before.wf(),
                    bits == before.memory[base + row],
                    self@ == (Machine { display: self@.display, ..before }),
                    self@.display.len() == 2048,
                    forall|cell: int|
                        0 <= cell < 2048 ==> #[trigger] self@.display[cell] == if painted(
                            before.memory,
                            base as int,
                            x0 as int,
                            y0 as int,
                            rows as int,
                            cell,
                            row as int,
                            col as int,
                        ) {
                            flipped(before.display[cell])
                        } else {
                            before.display[cell]
                        },
                    hit ==> 0 <= witness < 2048 && before.display[witness] == 1 && painted(
                        before.memory,
                        base as int,
                        x0 as int,
                        y0 as int,
                        rows as int,
                        witness,
                        row as int,
                        col as int,
                    ),
                    !hit ==> forall|cell: int|
                        0 <= cell < 2048 && #[trigger] painted(
                            before.memory,
                            base as int,
                            x0 as int,
                            y0 as int,
                            rows as int,
                            cell,
                            row as int,
                            col as int,
                        ) ==> before.display[cell] != 1,
                decreases 8 - col,
            {
                proof {
                    use_type_invariant(&*self);
                }
                let ghost missed = !hit;
                let mask: u8 = 0x80u8 >> (col as u8);
                if bits & mask != 0 && x0 + col < WIDTH && y0 + row < HEIGHT {
                    let target: usize = (y0 + row) * WIDTH + (x0 + col);
                    if self.display[target] == 1 {
                        hit = true;
                        proof {
                            witness = target as int;
                        }
                        self.display[target] = 0;
                    } else {
                        self.display[target] = 1;
                    }
                }
                proof {
                    if !hit {
                        assert forall|cell: int|
                            0 <= cell < 2048 && #[trigger] painted(
                                before.memory,
                                base as int,
                                x0 as int,
                                y0 as int,
                                rows as int,
                                cell,
                                row as int,
                                col + 1,
                            ) implies before.display[cell] != 1 by {
                            assert(missed);
                            if !painted(
                                before.memory,
                                base as int,
                                x0 as int,
                                y0 as int,
                                rows as int,
                                cell,
                                row as int,
                                col as int,
                            ) {
                                assert(cell == (y0 + row) * WIDTH + (x0 + col));
                            }
                        }
                    }
                }
                col += 1;
            }
            proof {
                if !hit {
                    assert forall|cell: int|
                        0 <= cell < 2048 && #[trigger] painted(
                            before.memory,
                            base as int,
                            x0 as int,
                            y0 as int,
                            rows as int,
                            cell,
                            row + 1,
                            0,
                        ) implies before.display[cell] != 1 by {
                        assert(painted(
                            before.memory,
                            base as int,
                            x0 as int,
                            y0 as int,
                            rows as int,
                            cell,
                            row as int,
                            8,
                        ));
                    }
                }
            }
            row += 1;
        }
        self.reg[FLAG as usize] = if hit {
            1
        } else {
            0
        };
        self.pc = self.pc + 2;
        proof {
            let shown = drawn(
                before.display,
                before.memory,
                base as int,
                x0 as int,
                y0 as int,
                rows as int,
            );
            assert(self@.display =~= shown);
            if !hit {
                assert forall|cell: int|
                    0 <= cell < 2048 && #[trigger] sprite_lights(
                        before.memory,
                        base as int,
                        x0 as int,
                        y0 as int,
                        rows as int,
                        cell,
                    ) implies before.display[cell] != 1 by {
                    assert(painted(
                        before.memory,
                        base as int,
                        x0 as int,
                        y0 as int,
                        rows as int,
                        cell,
                        rows as int,
                        0,
                    ));
                }
            }
            assert(hit == collides(
                before.display,
                before.memory,
                base as int,
                x0 as int,
                y0 as int,
                rows as int,
            ));
        }
        Ok(())
    }

    /// Stores the hundreds, tens and units of register `x` at the index
    /// register and the two addresses after it.
    pub(crate) fn store_bcd(&mut self, x: u8) -> (done: Result<(), Fault>)
        requires
            x <= 0xF,
            old(self)@.pc + 1 < MEMORY_SIZE,
        ensures
            match executed(old(self)@, Instruction::Bcd { x }, 0) {
                Ok(m) => done is Ok && final(self)@ == m,
                Err(fault) => done == Err::<(), Fault>(fault) && final(self)@ == old(self)@,
            },
    {
        proof {
            use_type_invariant(&*self);
        }
        let base: usize = self.index as usize;
        if base + 2 >= MEMORY_SIZE {
            return Err(Fault::AddressOutOfRange);
        }
        let value: u8 = self.reg[x as usize];
        self.memory[base] = value / 100;
        self.memory[base + 1] = (value / 10) % 10;
        self.memory[base + 2] = value % 10;
        self.pc = self.pc + 2;
        Ok(())
    }

    /// Stores registers 0 to `x` from the index register on and moves the
    /// index register past them.
    pub(crate) fn dump_registers(&mut self, x: u8) -> (done: Result<(), Fault>)
        requires
            x <= 0xF,
            old(self)@.pc + 1 < MEMORY_SIZE,
        ensures
            match executed(old(self)@, Instruction::Dump { x }, 0) {
                Ok(m) => done is Ok && final(self)@ == m,
                Err(fault) => done == Err::<(), Fault>(fault) && final(self)@ == old(self)@,
            },
    {
        proof {
            use_type_invariant(&*self);
        }
        let base: usize = self.index as usize;
        let last: usize = x as usize;
        if base + last >= MEMORY_SIZE {
            return Err(Fault::AddressOutOfRange);
        }
        let ghost before = self@;
        let mut v: usize = 0;
        while v <= last
            invariant
                v <= last + 1,
                last <= 0xF,
                base + last < MEMORY_SIZE,
                before.wf(),
                self@ == (Machine { memory: self@.memory, ..before }),
                self@.memory.len() == MEMORY_SIZE,
                forall|a: int|
                    0 <= a < MEMORY_SIZE ==> #[trigger] self@.memory[a] == if base <= a < base
                        + v {
                        before.reg[a - base]
                    } else {
                        before.memory[a]
                    },
            decreases last + 1 - v,
        {
            proof {
                use_type_invariant(&*self);
            }
            self.memory[base + v] = self.reg[v];
            v += 1;
        }
        self.index = self.index + x as u16 + 1;
        self.pc = self.pc + 2;
        assert(self@.memory =~= dumped(before.memory, before.reg, base as int, x as int));
        Ok(())
    }

    /// Fills registers 0 to `x` from the index register on and moves the
    /// index register past what was read.
    pub(crate) fn load_registers(&mut self, x: u8) -> (done: Result<(), Fault>)
        requires
            x <= 0xF,
            old(self)@.pc + 1 < MEMORY_SIZE,
        ensures
            match executed(old(self)@, Instruction::Load { x }, 0) {
                Ok(m) => done is Ok && final(self)@ == m,
                Err(fault) => done == Err::<(), Fault>(fault) && final(self)@ == old(self)@,
            },
    {
        proof {
            use_type_invariant(&*self);
        }
        let base: usize = self.index as usize;
        let last: usize = x as usize;
        if base + last >= MEMORY_SIZE {
            return Err(Fault::AddressOutOfRange);
        }
        let ghost before = self@;
        let mut v: usize = 0;
        while v <= last
            invariant
                v <= last + 1,
                last <= 0xF,
                base + last < MEMORY_SIZE,
                before.wf(),
                self@ == (Machine { reg: self@.reg, ..before }),
                self@.reg.len() == 16,
                forall|i: int|
                    0 <= i < 16 ==> #[trigger] self@.reg[i] == if i < v {
                        before.memory[base + i]
                    } else {
                        before.reg[i]
                    },
            decreases last + 1 - v,
        {
            proof {
                use_type_invariant(&*self);
            }
            self.reg[v] = self.memory[base + v];
            v += 1;
        }
        self.index = self.index + x as u16 + 1;
        self.pc = self.pc + 2;
        assert(self@.reg =~= refilled(before.memory, before.reg, base as int, x as int));
        Ok(())
    }

    /// Sets the program counter to `target`.
    pub(crate) fn jump(&mut self, target: u16)
        ensures
            final(self)@ == (Machine { pc: target as nat, ..old(self)@ }),
    {
        proof {
            use_type_invariant(&*self);
        }
        self.pc = target;
    }

    /// Sets the index register to `value` and goes on to the next
    /// instruction.
    pub(crate) fn set_index(&mut self, value: u16)
        requires
            old(self)@.pc + 1 < MEMORY_SIZE,
        ensures
            final(self)@ == (Machine { index: value as nat, ..old(self)@ }).advanced(),
    {
        proof {
            use_type_invariant(&*self);
        }
        self.index = value;
        self.pc = self.pc + 2;
    }

    /// Sets the delay timer to `value` and goes on to the next instruction.
    pub(crate) fn set_delay(&mut self, value: u8)
        requires
            old(self)@.pc + 1 < MEMORY_SIZE,
        ensures
            final(self)@ == (Machine { delay: value, ..old(self)@ }).advanced(),
    {
        proof {
            use_type_invariant(&*self);
        }
        self.delay_timer = value;
        self.pc = self.pc + 2;
    }

    /// Sets the sound timer to `value` and goes on to the next instruction.
    pub(crate) fn set_sound(&mut self, value: u8)
        requires
            old(self)@.pc + 1 < MEMORY_SIZE,
        ensures
            final(self)@ == (Machine { sound: value, ..old(self)@ }).advanced(),
    {
        proof {
            use_type_invariant(&*self);
        }
        self.sound_timer = value;
        self.pc = self.pc + 2;
    }

    /// Ends a cycle: both timers count down and the keypad latch is emptied.
    /// Tells whether the sound timer went from one to zero.
    pub(crate) fn tick(&mut self) -> (tone: bool)
        ensures
            final(self)@ == ticked(old(self)@),
            tone == (old(self)@.sound == 1),
    {
        proof {
            use_type_invariant(&*self);
        }
        let tone = self.sound_timer == 1;
        if self.delay_timer > 0 {
            self.delay_timer = self.delay_timer - 1;
        }
        if self.sound_timer > 0 {
            self.sound_timer = self.sound_timer - 1;
        }
        self.key = NO_KEY;
        tone
    }

    /// The value of register `x`.
    pub fn register(&self, x: u8) -> (value: u8)
        requires
            x <= 0xF,
        ensures
            value == self@.reg[x as int],
            self@.wf(),
    {
        proof {
            use_type_invariant(self);
        }
        self.reg[x as usize]
    }

    /// The program counter.
    pub fn program_counter(&self) -> (pc: u16)
        ensures
            pc == self@.pc,
            self@.wf(),
    {
        proof {
            use_type_invariant(self);
        }
        self.pc
    }

    /// The index register.
    pub fn index_register(&self) -> (index: u16)
        ensures
            index == self@.index,
            self@.wf(),
    {
        proof {
            use_type_invariant(self);
        }
        self.index
    }

    /// The delay timer.
    pub fn delay_timer(&self) -> (delay: u8)
        ensures
            delay == self@.delay,
            self@.wf(),
    {
        proof {
            use_type_invariant(self);
        }
        self.delay_timer
    }

    /// The sound timer.
    pub fn sound_timer(&self) -> (sound: u8)
        ensures
            sound == self@.sound,
            self@.wf(),
    {
        proof {
            use_type_invariant(self);
        }
        self.sound_timer
    }

    /// The number of calls in progress.
    pub fn stack_depth(&self) -> (depth: usize)
        ensures
            depth == self@.stack.len(),
            self@.wf(),
    {
        proof {
            use_type_invariant(self);
        }
        self.sp
    }

    /// The key latched for the coming cycle, if any.
    pub fn latched_key(&self) -> (key: Option<u8>)
        ensures
            key == self@.key,
            self@.wf(),
    {
        proof {
            use_type_invariant(self);
        }
        if self.key == NO_KEY {
            None
        } else {
            Some(self.key)
        }
    }

    /// The byte of memory at `addr`, or nothing beyond the end of memory.
    pub fn memory_at(&self, addr: u16) -> (byte: Option<u8>)
        ensures
            byte == if addr < MEMORY_SIZE {
                Some(self@.memory[addr as int])
            } else {
                None
            },
            self@.wf(),
    {
        proof {
            use_type_invariant(self);
        }
        if (addr as usize) < MEMORY_SIZE {
            Some(self.memory[addr as usize])
        } else {
            None
        }
    }
}

/// Whether the sprite has a lit pixel on `cell` among the pixels that the
/// drawing loop has passed when it stands before column `col_done` of sprite
/// row `row_done`.
spec fn painted(
    memory: Seq<u8>,
    index: int,
    x0: int,
    y0: int,
    n: int,
    cell: int,
    row_done: int,
    col_done: int,
) -> bool {
    let col = cell % (WIDTH as int) - x0;
    let row = cell / (WIDTH as int) - y0;
    sprite_lights(memory, index, x0, y0, n, cell) && (row < row_done || (row == row_done && col
        < col_done))
}

} // verus!
