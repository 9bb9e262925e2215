//! The cycle: fetch, decode, execute, tick.

use vstd::prelude::*;
use crate::chip8::Chip8;
use crate::fault::Fault;
use crate::instruction::{decode, decoded, Instruction};
use crate::laws::lemma_cycle_keeps_wf;
use crate::machine::{
    cycle, draws_random, executed, fetched, flag_of, reported, wrapped, CycleReport, Machine,
    MEMORY_SIZE,
};
use crate::random::random_byte;

verus! {

/// Whether a cycle that started in `before` with the random byte `random`
/// ends in `after` with the answer `answer`: a cycle that is refused leaves
/// the machine as it was.
pub open spec fn cycle_ends(
    before: Machine,
    random: u8,
    after: Machine,
    answer: Result<CycleReport, Fault>,
) -> bool {
    match cycle(before, random) {
        Ok((m, report)) => answer == Ok::<CycleReport, Fault>(report) && after == m,
        Err(fault) => answer == Err::<CycleReport, Fault>(fault) && after == before,
    }
}

/// The sum of two bytes wrapped into a byte, and the carry.
fn add_bytes(a: u8, b: u8) -> (out: (u8, u8))
    ensures
        out.0 == wrapped(a + b),
        out.1 == flag_of(a + b > 0xFF),
{
    let carry: u8 = if a as u16 + b as u16 > 0xFF {
        1
    } else {
        0
    };
    (a.wrapping_add(b), carry)
}

/// The difference of two bytes wrapped into a byte, and whether the first
/// was the greater.
fn sub_bytes(a: u8, b: u8) -> (out: (u8, u8))
    ensures
        out.0 == wrapped(a - b),
        out.1 == flag_of(a > b),
{
    let greater: u8 = if a > b {
        1
    } else {
        0
    };
    (a.wrapping_sub(b), greater)
}

/// A byte shifted right by one, and the bit shifted out.
fn shift_right(b: u8) -> (out: (u8, u8))
    ensures
        out.0 == b / 2,
        out.1 == b % 2,
{
    assert(b >> 1 == b / 2 && b & 1 == b % 2) by (bit_vector);
    (b >> 1, b & 1)
}

/// A byte shifted left by one within a byte, and the bit shifted out.
fn shift_left(b: u8) -> (out: (u8, u8))
    ensures
        out.0 == wrapped(b * 2),
        out.1 == b / 0x80,
{
    assert(b << 1 == (b as int * 2) % 0x100 && (b & 0x80) >> 7 == b / 0x80) by (bit_vector);
    (b << 1, (b & 0x80) >> 7)
}

impl Chip8 {
    /// Carries out one decoded instruction. The timers and the keypad latch
    /// are left for the end of the cycle.
    fn execute(&mut self, ins: Instruction, random: u8) -> (done: Result<(), Fault>)
        requires
            ins.wf(),
            old(self)@.pc + 1 < MEMORY_SIZE,
        ensures
            match executed(old(self)@, ins, random) {
                Ok(m) => done is Ok && final(self)@ == m,
                Err(fault) => done == Err::<(), Fault>(fault) && final(self)@ == old(self)@,
            },
    {
        match ins {
            Instruction::ClearScreen => {
                self.clear_display();
                self.advance(false);
                Ok(())
            },
            Instruction::Return => self.subroutine_return(),
            Instruction::Jump { addr } => {
                self.jump(addr);
                Ok(())
            },
            Instruction::Call { addr } => self.subroutine_call(addr),
            Instruction::SkipEqImm { x, nn } => {
                let skip = self.register(x) == nn;
                self.advance(skip);
                Ok(())
            },
            Instruction::SkipNeImm { x, nn } => {
                let skip = self.register(x) != nn;
                self.advance(skip);
                Ok(())
            },
            Instruction::SkipEqReg { x, y } => {
                let skip = self.register(x) == self.register(y);
                self.advance(skip);
                Ok(())
            },
            Instruction::SkipNeReg { x, y } => {
                let skip = self.register(x) != self.register(y);
                self.advance(skip);
                Ok(())
            },
            Instruction::LoadImm { x, nn } => {
                self.store(x, nn);
                Ok(())
            },
            Instruction::AddImm { x, nn } => {
                let (value, _) = add_bytes(self.register(x), nn);
                self.store(x, value);
                Ok(())
            },
            Instruction::Move { x, y } => {
                let value = self.register(y);
                self.store(x, value);
                Ok(())
            },
            Instruction::Or { x, y } => {
                let value = self.register(x) | self.register(y);
                self.store(x, value);
                Ok(())
            },
            Instruction::And { x, y } => {
                let value = self.register(x) & self.register(y);
                self.store(x, value);
                Ok(())
            },
            Instruction::Xor { x, y } => {
                let value = self.register(x) ^ self.register(y);
                self.store(x, value);
                Ok(())
            },
            Instruction::AddCarry { x, y } => {
                let (value, carry) = add_bytes(self.register(x), self.register(y));
                self.store_after_flag(carry, x, value);
                Ok(())
            },
            Instruction::SubBorrow { x, y } => {
                let (value, flag) = sub_bytes(self.register(x), self.register(y));
                self.store_after_flag(flag, x, value);
                Ok(())
            },
            Instruction::ShiftRight { x, y } => {
                let (value, flag) = shift_right(self.register(y));
                self.store_before_flag(x, value, flag);
                Ok(())
            },
            Instruction::SubReverse { x, y } => {
                let (value, flag) = sub_bytes(self.register(y), self.register(x));
                self.store_after_flag(flag, x, value);
                Ok(())
            },
            Instruction::ShiftLeft { x, y } => {
                let (value, flag) = shift_left(self.register(y));
                self.store_before_flag(x, value, flag);
                Ok(())
            },
            Instruction::LoadIndex { addr } => {
                self.set_index(addr);
                Ok(())
            },
            Instruction::JumpOffset { addr } => {
                let target: u16 = addr + self.register(0) as u16;
                self.jump(target);
                Ok(())
            },
            Instruction::Random { x, nn } => {
                self.store(x, random & nn);
                Ok(())
            },
            Instruction::Draw { x, y, n } => self.draw_sprite(x, y, n),
            Instruction::SkipKey { x } => {
                let value = self.register(x);
                let skip = match self.latched_key() {
                    Some(key) => key == value,
                    None => false,
                };
                self.advance(skip);
                Ok(())
            },
            Instruction::SkipNoKey { x } => {
                let value = self.register(x);
                let skip = match self.latched_key() {
                    Some(key) => key != value,
                    None => true,
                };
                self.advance(skip);
                Ok(())
            },
            Instruction::ReadDelay { x } => {
                let value = self.delay_timer();
                self.store(x, value);
                Ok(())
            },
            Instruction::WaitKey { x } => {
                match self.latched_key() {
                    Some(key) => self.store(x, key),
                    None => {},
                }
                Ok(())
            },
            Instruction::SetDelay { x } => {
                let value = self.register(x);
                self.set_delay(value);
                Ok(())
            },
            Instruction::SetSound { x } => {
                let value = self.register(x);
                self.set_sound(value);
                Ok(())
            },
            Instruction::AddIndex { x } => {
                let step: u16 = self.register(x) as u16;
                let index = self.index_register();
                if index > u16::MAX - step {
                    return Err(Fault::AddressOutOfRange);
                }
                self.set_index(index + step);
                Ok(())
            },
            Instruction::Glyph { x } => {
                let value: u16 = self.register(x) as u16 * 5;
                self.set_index(value);
                Ok(())
            },
            Instruction::Bcd { x } => self.store_bcd(x),
            Instruction::Dump { x } => self.dump_registers(x),
            Instruction::Load { x } => self.load_registers(x),
            Instruction::Unknown { opcode } => {
                self.advance(false);
                Ok(())
            },
        }
    }

    /// Decodes `opcode`, the word at the program counter, and carries the
    /// instruction out. Tells which word it was where it encodes no
    /// instruction.
    fn decode_and_execute(&mut self, opcode: u16, random: u8) -> (done: Result<
        Option<u16>,
        Fault,
    >)
        requires
            fetched(old(self)@) == Ok::<u16, Fault>(opcode),
        ensures
            match executed(old(self)@, decoded(opcode), random) {
                Ok(m) => done == Ok::<Option<u16>, Fault>(reported(m, opcode).unknown_opcode)
                    && final(self)@ == m,
                Err(fault) => done == Err::<Option<u16>, Fault>(fault) && final(self)@ == old(
                    self,
                )@,
            },
    {
        let ins = decode(opcode);
        let unknown = match ins {
            Instruction::Unknown { .. } => Some(opcode),
            _ => None,
        };
        match self.execute(ins, random) {
            Ok(()) => Ok(unknown),
            Err(fault) => Err(fault),
        }
    }

    /// Carries out the cycle whose fetch gave `opcode`: decode, execute, then
    /// the tick of the timers and the emptying of the keypad latch.
    fn finish_cycle(&mut self, opcode: u16, random: u8) -> (answer: Result<CycleReport, Fault>)
        requires
            old(self)@.wf(),
            fetched(old(self)@) == Ok::<u16, Fault>(opcode),
        ensures
            cycle_ends(old(self)@, random, final(self)@, answer),
            final(self)@.wf(),
    {
        proof {
            lemma_cycle_keeps_wf(old(self)@, random);
        }
        match self.decode_and_execute(opcode, random) {
            Ok(unknown_opcode) => {
                let tone = self.tick();
                Ok(CycleReport { tone, unknown_opcode })
            },
            Err(fault) => Err(fault),
        }
    }

    /// Runs one cycle with `random` as the byte that the random instruction
    /// would use: fetch, decode, execute, then the tick of the timers and the
    /// emptying of the keypad latch. On a fault nothing of the cycle happens.
    pub fn emulate_cycle_with(&mut self, random: u8) -> (answer: Result<CycleReport, Fault>)
        ensures
            cycle_ends(old(self)@, random, final(self)@, answer),
            final(self)@.wf(),
    {
        match self.fetch() {
            Ok(opcode) => self.finish_cycle(opcode, random),
            Err(fault) => Err(fault),
        }
    }

    /// Runs one cycle: fetch, decode, execute, then the tick of the timers
    /// and the emptying of the keypad latch. On a fault nothing of the cycle
    /// happens. A random byte is drawn only where the instruction at the
    /// program counter is the random instruction; every other cycle is that
    /// of `emulate_cycle_with`, whatever byte it is given.
    pub fn emulate_cycle(&mut self) -> (answer: Result<CycleReport, Fault>)
        ensures
            exists|random: u8| cycle_ends(old(self)@, random, final(self)@, answer),
            !draws_random(old(self)@) ==> cycle_ends(old(self)@, 0, final(self)@, answer),
            final(self)@.wf(),
    {
        match self.fetch() {
            Ok(opcode) => {
                let random: u8 = match decode(opcode) {
                    Instruction::Random { .. } => random_byte(),
                    _ => 0,
                };
                let answer = self.finish_cycle(opcode, random);
                proof {
                    assert(cycle_ends(old(self)@, random, self@, answer));
                    if !draws_random(old(self)@) {
                        lemma_random_unused(old(self)@, random, 0);
                    }
                }
                answer
            },
            Err(fault) => {
                assert(cycle_ends(old(self)@, 0, self@, Err::<CycleReport, Fault>(fault)));
                Err(fault)
            },
        }
    }
}

/// The random byte decides nothing unless the cycle executes the random
/// instruction.
pub proof fn lemma_random_unused(m: Machine, a: u8, b: u8)
    requires
        !draws_random(m),
    ensures
        cycle(m, a) == cycle(m, b),
{
}

} // verus!
