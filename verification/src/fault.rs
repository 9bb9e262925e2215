//! The fatal conditions on which the machine refuses to go on.

use vstd::prelude::*;

verus! {

/// Why a load or a cycle was refused. A refused operation leaves the machine
/// exactly as it was.
#[derive(Clone, Copy, PartialEq, Eq, Structural, Debug)]
pub enum Fault {
    /// The program image does not fit between the load address and the end
    /// of memory.
    ProgramTooLarge,
    /// A call was made with sixteen return addresses already on the stack.
    StackOverflow,
    /// A return was made with no return address on the stack.
    StackUnderflow,
    /// An instruction fetch or an access through the index register reached
    /// beyond the last byte of memory, or the index register itself ran out
    /// of its sixteen bits.
    AddressOutOfRange,
}

impl Fault {
    /// A one-line diagnostic for the host to show.
    pub fn message(&self) -> (text: &'static str)
        ensures
            text@ == match *self {
                Fault::ProgramTooLarge => "program image does not fit into memory"@,
                Fault::StackOverflow => "call stack overflow"@,
                Fault::StackUnderflow => "return with an empty call stack"@,
                Fault::AddressOutOfRange => "memory address out of range"@,
            },
    {
        match self {
            Fault::ProgramTooLarge => "program image does not fit into memory",
            Fault::StackOverflow => "call stack overflow",
            Fault::StackUnderflow => "return with an empty call stack",
            Fault::AddressOutOfRange => "memory address out of range",
        }
    }
}

} // verus!
