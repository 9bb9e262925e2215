//! Decoding of the 16-bit instruction word into a typed instruction.

use vstd::prelude::*;

verus! {

/// One decoded instruction. `x` and `y` are register numbers (0 to 15), `nn`
/// is the low byte of the word, `n` its low nibble and `addr` its low twelve
/// bits.
#[derive(Clone, Copy, PartialEq, Eq, Structural, Debug)]
pub enum Instruction {
    /// `00E0`: blank the frame buffer.
    ClearScreen,
    /// `00EE`: return from a subroutine.
    Return,
    /// `1NNN`: jump to `addr`.
    Jump { addr: u16 },
    /// `2NNN`: call the subroutine at `addr`.
    Call { addr: u16 },
    /// `3XNN`: skip the next instruction if register `x` equals `nn`.
    SkipEqImm { x: u8, nn: u8 },
    /// `4XNN`: skip the next instruction if register `x` differs from `nn`.
    SkipNeImm { x: u8, nn: u8 },
    /// `5XY_`: skip the next instruction if registers `x` and `y` are equal.
    SkipEqReg { x: u8, y: u8 },
    /// `6XNN`: register `x` becomes `nn`.
    LoadImm { x: u8, nn: u8 },
    /// `7XNN`: add `nn` to register `x`, wrapping, flag untouched.
    AddImm { x: u8, nn: u8 },
    /// `8XY0`: register `x` becomes register `y`.
    Move { x: u8, y: u8 },
    /// `8XY1`: bitwise or of `x` and `y` into `x`.
    Or { x: u8, y: u8 },
    /// `8XY2`: bitwise and of `x` and `y` into `x`.
    And { x: u8, y: u8 },
    /// `8XY3`: bitwise exclusive or of `x` and `y` into `x`.
    Xor { x: u8, y: u8 },
    /// `8XY4`: add `y` to `x`, the flag receives the carry.
    AddCarry { x: u8, y: u8 },
    /// `8XY5`: subtract `y` from `x`, the flag tells whether `x` was greater.
    SubBorrow { x: u8, y: u8 },
    /// `8XY6`: `x` becomes `y` shifted right by one, the flag receives the
    /// bit shifted out.
    ShiftRight { x: u8, y: u8 },
    /// `8XY7`: `x` becomes `y` minus `x`, the flag tells whether `y` was
    /// greater.
    SubReverse { x: u8, y: u8 },
    /// `8XYE`: `x` becomes `y` shifted left by one, the flag receives the
    /// bit shifted out.
    ShiftLeft { x: u8, y: u8 },
    /// `9XY_`: skip the next instruction if registers `x` and `y` differ.
    SkipNeReg { x: u8, y: u8 },
    /// `ANNN`: the index register becomes `addr`.
    LoadIndex { addr: u16 },
    /// `BNNN`: jump to `addr` plus register 0.
    JumpOffset { addr: u16 },
    /// `CXNN`: register `x` becomes a random byte masked with `nn`.
    Random { x: u8, nn: u8 },
    /// `DXYN`: draw the `n`-row sprite at the index register to the position
    /// held in registers `x` and `y`.
    Draw { x: u8, y: u8, n: u8 },
    /// `EX9E`: skip the next instruction if the latched key is register `x`.
    SkipKey { x: u8 },
    /// `EXA1`: skip the next instruction unless the latched key is register
    /// `x`.
    SkipNoKey { x: u8 },
    /// `FX07`: register `x` becomes the delay timer.
    ReadDelay { x: u8 },
    /// `FX0A`: wait for a key and put its code into register `x`.
    WaitKey { x: u8 },
    /// `FX15`: the delay timer becomes register `x`.
    SetDelay { x: u8 },
    /// `FX18`: the sound timer becomes register `x`.
    SetSound { x: u8 },
    /// `FX1E`: add register `x` to the index register.
    AddIndex { x: u8 },
    /// `FX29`: the index register becomes five times register `x`.
    Glyph { x: u8 },
    /// `FX33`: store the three decimal digits of register `x` at the index
    /// register.
    Bcd { x: u8 },
    /// `FX55`: store registers 0 to `x` at the index register.
    Dump { x: u8 },
    /// `FX65`: fill registers 0 to `x` from the index register.
    Load { x: u8 },
    /// Any other word: it does nothing and is reported to the host.
    Unknown { opcode: u16 },
}

/// The top nibble of the word, which selects the instruction family.
pub open spec fn family(opcode: u16) -> int {
    opcode as int / 0x1000
}

/// The second nibble of the word: the register number `x`.
pub open spec fn operand_x(opcode: u16) -> u8 {
    ((opcode as int / 0x100) % 0x10) as u8
}

/// The third nibble of the word: the register number `y`.
pub open spec fn operand_y(opcode: u16) -> u8 {
    ((opcode as int / 0x10) % 0x10) as u8
}

/// The lowest nibble of the word.
pub open spec fn operand_n(opcode: u16) -> u8 {
    (opcode as int % 0x10) as u8
}

/// The low byte of the word.
pub open spec fn operand_nn(opcode: u16) -> u8 {
    (opcode as int % 0x100) as u8
}

/// The low twelve bits of the word.
pub open spec fn operand_addr(opcode: u16) -> u16 {
    (opcode as int % 0x1000) as u16
}

/// The instruction that a word encodes within the arithmetic family `8XY_`.
pub open spec fn decoded_arithmetic(opcode: u16) -> Instruction {
    let x = operand_x(opcode);
    let y = operand_y(opcode);
    let n = operand_n(opcode);
    if n == 0x0 {
        Instruction::Move { x, y }
    } else if n == 0x1 {
        Instruction::Or { x, y }
    } else if n == 0x2 {
        Instruction::And { x, y }
    } else if n == 0x3 {
        Instruction::Xor { x, y }
    } else if n == 0x4 {
        Instruction::AddCarry { x, y }
    } else if n == 0x5 {
        Instruction::SubBorrow { x, y }
    } else if n == 0x6 {
        Instruction::ShiftRight { x, y }
    } else if n == 0x7 {
        Instruction::SubReverse { x, y }
    } else if n == 0xE {
        Instruction::ShiftLeft { x, y }
    } else {
        Instruction::Unknown { opcode }
    }
}

/// The instruction that a word encodes within the family `FX__`.
pub open spec fn decoded_misc(opcode: u16) -> Instruction {
    let x = operand_x(opcode);
    let nn = operand_nn(opcode);
    if nn == 0x07 {
        Instruction::ReadDelay { x }
    } else if nn == 0x0A {
        Instruction::WaitKey { x }
    } else if nn == 0x15 {
        Instruction::SetDelay { x }
    } else if nn == 0x18 {
        Instruction::SetSound { x }
    } else if nn == 0x1E {
        Instruction::AddIndex { x }
    } else if nn == 0x29 {
        Instruction::Glyph { x }
    } else if nn == 0x33 {
        Instruction::Bcd { x }
    } else if nn == 0x55 {
        Instruction::Dump { x }
    } else if nn == 0x65 {
        Instruction::Load { x }
    } else {
        Instruction::Unknown { opcode }
    }
}

/// The instruction that a word encodes. Family 0 is told apart by the low
/// byte alone; families 5 and 9 do not look at the low nibble.
pub open spec fn decoded(opcode: u16) -> Instruction {
    let f = family(opcode);
    let x = operand_x(opcode);
    let y = operand_y(opcode);
    let n = operand_n(opcode);
    let nn = operand_nn(opcode);
    let addr = operand_addr(opcode);
    if f == 0x0 {
        if nn == 0xE0 {
            Instruction::ClearScreen
        } else if nn == 0xEE {
            Instruction::Return
        } else {
            Instruction::Unknown { opcode }
        }
    } else if f == 0x1 {
        Instruction::Jump { addr }
    } else if f == 0x2 {
        Instruction::Call { addr }
    } else if f == 0x3 {
        Instruction::SkipEqImm { x, nn }
    } else if f == 0x4 {
        Instruction::SkipNeImm { x, nn }
    } else if f == 0x5 {
        Instruction::SkipEqReg { x, y }
    } else if f == 0x6 {
        Instruction::LoadImm { x, nn }
    } else if f == 0x7 {
        Instruction::AddImm { x, nn }
    } else if f == 0x8 {
        decoded_arithmetic(opcode)
    } else if f == 0x9 {
        Instruction::SkipNeReg { x, y }
    } else if f == 0xA {
        Instruction::LoadIndex { addr }
    } else if f == 0xB {
        Instruction::JumpOffset { addr }
    } else if f == 0xC {
        Instruction::Random { x, nn }
    } else if f == 0xD {
        Instruction::Draw { x, y, n }
    } else if f == 0xE {
        if nn == 0x9E {
            Instruction::SkipKey { x }
        } else if nn == 0xA1 {
            Instruction::SkipNoKey { x }
        } else {
            Instruction::Unknown { opcode }
        }
    } else {
        decoded_misc(opcode)
    }
}

impl Instruction {
    /// Every operand lies in the range that its place in the word allows.
    pub open spec fn wf(self) -> bool {
        match self {
            Instruction::ClearScreen | Instruction::Return => true,
            Instruction::Jump { addr }
            | Instruction::Call { addr }
            | Instruction::LoadIndex { addr }
            | Instruction::JumpOffset { addr } => addr <= 0xFFF,
            Instruction::SkipEqImm { x, .. }
            | Instruction::SkipNeImm { x, .. }
            | Instruction::LoadImm { x, .. }
            | Instruction::AddImm { x, .. }
            | Instruction::Random { x, .. }
            | Instruction::SkipKey { x }
            | Instruction::SkipNoKey { x }
            | Instruction::ReadDelay { x }
            | Instruction::WaitKey { x }
            | Instruction::SetDelay { x }
            | Instruction::SetSound { x }
            | Instruction::AddIndex { x }
            | Instruction::Glyph { x }
            | Instruction::Bcd { x }
            | Instruction::Dump { x }
            | Instruction::Load { x } => x <= 0xF,
            Instruction::SkipEqReg { x, y }
            | Instruction::Move { x, y }
            | Instruction::Or { x, y }
            | Instruction::And { x, y }
            | Instruction::Xor { x, y }
            | Instruction::AddCarry { x, y }
            | Instruction::SubBorrow { x, y }
            | Instruction::ShiftRight { x, y }
            | Instruction::SubReverse { x, y }
            | Instruction::ShiftLeft { x, y }
            | Instruction::SkipNeReg { x, y } => x <= 0xF && y <= 0xF,
            Instruction::Draw { x, y, n } => x <= 0xF && y <= 0xF && n <= 0xF,
            Instruction::Unknown { .. } => true,
        }
    }
}

/// Whatever the word, its decoding has operands in range.
pub proof fn lemma_decoded_wf(opcode: u16)
    ensures
        decoded(opcode).wf(),
{
}

/// Splits the word into its nibbles and tells which instruction it encodes.
pub fn decode(opcode: u16) -> (ins: Instruction)
    ensures
        ins == decoded(opcode),
        ins.wf(),
{
    let f: u16 = (opcode & 0xF000) >> 12;
    let x: u8 = ((opcode & 0x0F00) >> 8) as u8;
    let y: u8 = ((opcode & 0x00F0) >> 4) as u8;
    let n: u8 = (opcode & 0x000F) as u8;
    let nn: u8 = (opcode & 0x00FF) as u8;
    let addr: u16 = opcode & 0x0FFF;
    proof {
        assert((opcode & 0xF000) >> 12 == opcode / 0x1000) by (bit_vector);
        assert(((opcode & 0x0F00) >> 8) == (opcode / 0x100) % 0x10) by (bit_vector);
        assert(((opcode & 0x00F0) >> 4) == (opcode / 0x10) % 0x10) by (bit_vector);
        assert(opcode & 0x000F == opcode % 0x10) by (bit_vector);
        assert(opcode & 0x00FF == opcode % 0x100) by (bit_vector);
        assert(opcode & 0x0FFF == opcode % 0x1000) by (bit_vector);
        lemma_decoded_wf(opcode);
    }
    match f {
        0x0 => match nn {
            0xE0 => Instruction::ClearScreen,
            0xEE => Instruction::Return,
            _ => Instruction::Unknown { opcode },
        },
        0x1 => Instruction::Jump { addr },
        0x2 => Instruction::Call { addr },
        0x3 => Instruction::SkipEqImm { x, nn },
        0x4 => Instruction::SkipNeImm { x, nn },
        0x5 => Instruction::SkipEqReg { x, y },
        0x6 => Instruction::LoadImm { x, nn },
        0x7 => Instruction::AddImm { x, nn },
        0x8 => match n {
            0x0 => Instruction::Move { x, y },
            0x1 => Instruction::Or { x, y },
            0x2 => Instruction::And { x, y },
            0x3 => Instruction::Xor { x, y },
            0x4 => Instruction::AddCarry { x, y },
            0x5 => Instruction::SubBorrow { x, y },
            0x6 => Instruction::ShiftRight { x, y },
            0x7 => Instruction::SubReverse { x, y },
            0xE => Instruction::ShiftLeft { x, y },
            _ => Instruction::Unknown { opcode },
        },
        0x9 => Instruction::SkipNeReg { x, y },
        0xA => Instruction::LoadIndex { addr },
        0xB => Instruction::JumpOffset { addr },
        0xC => Instruction::Random { x, nn },
        0xD => Instruction::Draw { x, y, n },
        0xE => match nn {
            0x9E => Instruction::SkipKey { x },
            0xA1 => Instruction::SkipNoKey { x },
            _ => Instruction::Unknown { opcode },
        },
        _ => match nn {
            0x07 => Instruction::ReadDelay { x },
            0x0A => Instruction::WaitKey { x },
            0x15 => Instruction::SetDelay { x },
            0x18 => Instruction::SetSound { x },
            0x1E => Instruction::AddIndex { x },
            0x29 => Instruction::Glyph { x },
            0x33 => Instruction::Bcd { x },
            0x55 => Instruction::Dump { x },
            0x65 => Instruction::Load { x },
            _ => Instruction::Unknown { opcode },
        },
    }
}

} // verus!
