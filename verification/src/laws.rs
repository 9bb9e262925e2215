//! What holds of every machine state: the laws of the cycle.

use vstd::prelude::*;
use crate::fault::Fault;
use crate::instruction::{decoded, lemma_decoded_wf, Instruction};
use crate::machine::{
    blank_display, collides, cycle, drawn, executed, fetched, flag_of, sprite_lights, CycleReport,
    Machine, DISPLAY_SIZE, FLAG, HEIGHT, MEMORY_SIZE, STACK_SIZE, WIDTH,
};

verus! {

/// The instruction that the next cycle of `m` executes is `ins`.
pub open spec fn about_to_execute(m: Machine, ins: Instruction) -> bool {
    fetched(m) matches Ok(opcode) && decoded(opcode) == ins
}

/// An instruction that was fetched from a well-formed state leaves a
/// well-formed state.
pub proof fn lemma_executed_keeps_wf(m: Machine, ins: Instruction, random: u8)
    requires
        m.wf(),
        ins.wf(),
        m.pc + 1 < MEMORY_SIZE,
    ensures
        executed(m, ins, random) matches Ok(after) ==> after.wf(),
{
}

/// A cycle leaves a well-formed state well-formed.
pub proof fn lemma_cycle_keeps_wf(m: Machine, random: u8)
    requires
        m.wf(),
    ensures
        cycle(m, random) matches Ok((after, _)) ==> after.wf(),
{
    if let Ok(opcode) = fetched(m) {
        lemma_decoded_wf(opcode);
        lemma_executed_keeps_wf(m, decoded(opcode), random);
    }
}

/// Loading an immediate into a register and then adding an immediate to the
/// same register leaves the sum of the two, modulo 256, in that register.
pub proof fn law_load_then_add_immediate(
    m: Machine,
    x: u8,
    first: u8,
    second: u8,
    random1: u8,
    random2: u8,
)
    requires
        m.wf(),
        x <= 0xF,
        about_to_execute(m, Instruction::LoadImm { x, nn: first }),
        about_to_execute(m.advanced(), Instruction::AddImm { x, nn: second }),
    ensures
        cycle(m, random1) matches Ok((m1, _)) && cycle(m1, random2) matches Ok((m2, _))
            && m2.reg[x as int] == (first + second) % 0x100,
{
    let m1 = cycle(m, random1).unwrap().0;
    assert(m1.memory == m.memory);
    assert(fetched(m1) == fetched(m.advanced()));
}

/// Addition with carry leaves the sum modulo 256 in the target register.
/// Unless the target is the flag register itself, the flag register is 1 if
/// the sum of the two registers exceeded 255, and 0 if not.
pub proof fn law_add_sets_carry(m: Machine, x: u8, y: u8, random: u8)
    requires
        m.wf(),
        x <= 0xF,
        y <= 0xF,
        about_to_execute(m, Instruction::AddCarry { x, y }),
    ensures
        ({
            let sum = m.reg[x as int] + m.reg[y as int];
            &&& cycle(m, random) matches Ok((after, _))
            &&& after.reg[x as int] == sum % 0x100
            &&& x != FLAG ==> after.reg[FLAG as int] == flag_of(sum > 0xFF)
        }),
{
}

/// Subtraction leaves the difference modulo 256 in the target register.
/// Unless the target is the flag register itself, the flag register is 1 if
/// the target was greater than the other register, and 0 if not.
pub proof fn law_subtract_sets_flag(m: Machine, x: u8, y: u8, random: u8)
    requires
        m.wf(),
        x <= 0xF,
        y <= 0xF,
        about_to_execute(m, Instruction::SubBorrow { x, y }),
    ensures
        ({
            let a = m.reg[x as int];
            let b = m.reg[y as int];
            &&& cycle(m, random) matches Ok((after, _))
            &&& after.reg[x as int] == (a - b) % 0x100
            &&& x != FLAG ==> after.reg[FLAG as int] == flag_of(a > b)
        }),
{
}

/// After the clear-screen instruction the frame buffer has 64 times 32
/// cells, and every one of them is off.
pub proof fn law_clear_screen_blanks(m: Machine, random: u8)
    requires
        m.wf(),
        about_to_execute(m, Instruction::ClearScreen),
    ensures
        cycle(m, random) matches Ok((after, _)) && after.display.len() == WIDTH * HEIGHT
            && forall|cell: int| 0 <= cell < WIDTH * HEIGHT ==> after.display[cell] == 0,
{
}

/// Drawing a sprite onto a frame buffer with every pixel off turns no pixel
/// off.
pub proof fn law_draw_on_blank_never_collides(
    memory: Seq<u8>,
    index: int,
    x0: int,
    y0: int,
    n: int,
)
    ensures
        !collides(blank_display(), memory, index, x0, y0, n),
{
}

/// Drawing the same sprite twice at the same place gives back the frame
/// buffer that was there before.
pub proof fn law_draw_twice_restores(
    display: Seq<u8>,
    memory: Seq<u8>,
    index: int,
    x0: int,
    y0: int,
    n: int,
)
    requires
        display.len() == DISPLAY_SIZE,
        forall|cell: int| 0 <= cell < DISPLAY_SIZE ==> #[trigger] display[cell] <= 1,
    ensures
        drawn(drawn(display, memory, index, x0, y0, n), memory, index, x0, y0, n) == display,
{
    let once = drawn(display, memory, index, x0, y0, n);
    let twice = drawn(once, memory, index, x0, y0, n);
    assert(twice =~= display);
}

/// The second of two draws of the same sprite at the same place collides
/// exactly if the first one turned a pixel on, that is if the sprite has a
/// lit pixel on a cell that was off before the first draw.
pub proof fn law_second_draw_collides(
    display: Seq<u8>,
    memory: Seq<u8>,
    index: int,
    x0: int,
    y0: int,
    n: int,
)
    requires
        display.len() == DISPLAY_SIZE,
        forall|cell: int| 0 <= cell < DISPLAY_SIZE ==> #[trigger] display[cell] <= 1,
    ensures
        collides(drawn(display, memory, index, x0, y0, n), memory, index, x0, y0, n) <==> exists|
            cell: int,
        |
            0 <= cell < DISPLAY_SIZE && #[trigger] sprite_lights(memory, index, x0, y0, n, cell)
                && display[cell] == 0,
{
    let once = drawn(display, memory, index, x0, y0, n);
    if collides(once, memory, index, x0, y0, n) {
        let cell = choose|cell: int|
            0 <= cell < DISPLAY_SIZE && #[trigger] sprite_lights(memory, index, x0, y0, n, cell)
                && once[cell] == 1;
        assert(display[cell] == 0);
    }
    if exists|cell: int|
        0 <= cell < DISPLAY_SIZE && #[trigger] sprite_lights(memory, index, x0, y0, n, cell)
            && display[cell] == 0 {
        let cell = choose|cell: int|
            0 <= cell < DISPLAY_SIZE && #[trigger] sprite_lights(memory, index, x0, y0, n, cell)
                && display[cell] == 0;
        assert(once[cell] == 1);
    }
}

/// The draw instruction repeated: where two draw instructions with the same
/// operands follow each other, and neither position register is the flag
/// register, the second one gives back the frame buffer that was there
/// before the first.
pub proof fn law_draw_instruction_twice_restores(
    m: Machine,
    x: u8,
    y: u8,
    n: u8,
    random1: u8,
    random2: u8,
)
    requires
        m.wf(),
        x < FLAG,
        y < FLAG,
        n <= 0xF,
        about_to_execute(m, Instruction::Draw { x, y, n }),
        about_to_execute(m.advanced(), Instruction::Draw { x, y, n }),
        n > 0 ==> m.index + n <= MEMORY_SIZE,
    ensures
        cycle(m, random1) matches Ok((m1, _)) && cycle(m1, random2) matches Ok((m2, _))
            && m2.display == m.display,
{
    let m1 = cycle(m, random1).unwrap().0;
    assert(m1.memory == m.memory);
    assert(fetched(m1) == fetched(m.advanced()));
    let x0 = m.reg[x as int] as int % (WIDTH as int);
    let y0 = m.reg[y as int] as int % (HEIGHT as int);
    law_draw_twice_restores(m.display, m.memory, m.index as int, x0, y0, n as int);
    let m2 = cycle(m1, random2).unwrap().0;
    assert(m1.reg[x as int] == m.reg[x as int]);
    assert(m1.reg[y as int] == m.reg[y as int]);
    assert(m2.display =~= m.display);
}

/// Drawing clips and does not wrap: a sprite with its corner at column `x0`
/// and row `y0` changes no cell outside the eight columns from `x0` on and
/// the `n` rows from `y0` on, so that nothing of it shows up at the left or
/// the upper edge.
pub proof fn law_draw_clips(
    display: Seq<u8>,
    memory: Seq<u8>,
    index: int,
    x0: int,
    y0: int,
    n: int,
    cell: int,
)
    requires
        display.len() == DISPLAY_SIZE,
        0 <= cell < DISPLAY_SIZE,
        0 <= x0 < WIDTH,
        0 <= y0 < HEIGHT,
    ensures
        ({
            let col = cell % (WIDTH as int);
            let row = cell / (WIDTH as int);
            !(x0 <= col < x0 + 8 && y0 <= row < y0 + n) ==> drawn(
                display,
                memory,
                index,
                x0,
                y0,
                n,
            )[cell] == display[cell]
        }),
{
}

/// The key-wait instruction with no key latched leaves the program counter
/// where it is, so that the instruction is executed again in the next cycle.
pub proof fn law_wait_key_holds(m: Machine, x: u8, random: u8)
    requires
        m.wf(),
        x <= 0xF,
        about_to_execute(m, Instruction::WaitKey { x }),
        m.key is None,
    ensures
        cycle(m, random) matches Ok((after, _)) && after.pc == m.pc && after.reg == m.reg
            && about_to_execute(after, Instruction::WaitKey { x }),
{
}

/// The key-wait instruction with a key latched puts the key's code into its
/// register and goes on to the next instruction.
pub proof fn law_wait_key_takes_key(m: Machine, x: u8, key: u8, random: u8)
    requires
        m.wf(),
        x <= 0xF,
        about_to_execute(m, Instruction::WaitKey { x }),
        m.key == Some(key),
    ensures
        cycle(m, random) matches Ok((after, _)) && after.pc == m.pc + 2 && after.reg[x as int]
            == key,
{
}

/// Every cycle empties the keypad latch.
pub proof fn law_cycle_empties_latch(m: Machine, random: u8)
    ensures
        cycle(m, random) matches Ok((after, _)) ==> after.key is None,
{
}

/// In one cycle each timer goes down by one, or stays at zero, counted from
/// the value that the instruction of the cycle left in it. The tone is
/// signalled exactly in the cycle in which the sound timer goes from one to
/// zero.
pub proof fn law_timers_tick(m: Machine, random: u8)
    ensures
        cycle(m, random) matches Ok((after, report)) ==> ({
            let opcode = fetched(m)->Ok_0;
            let between = executed(m, decoded(opcode), random)->Ok_0;
            &&& after.delay == if between.delay == 0 {
                0
            } else {
                between.delay - 1
            }
            &&& after.sound == if between.sound == 0 {
                0
            } else {
                between.sound - 1
            }
            &&& report.tone <==> between.sound == 1
            &&& report.tone <==> between.sound != 0 && after.sound == 0
        }),
{
}

/// Only the set-sound instruction writes the sound timer: after any other
/// instruction it holds what it held before.
pub proof fn law_sound_timer_written_by_set_sound_only(m: Machine, ins: Instruction, random: u8)
    requires
        !(ins is SetSound),
    ensures
        executed(m, ins, random) matches Ok(after) ==> after.sound == m.sound,
{
}

/// Whether `m` runs for as many cycles as `randoms` has bytes, taking them as
/// its random bytes in turn, without a fault and without executing the
/// set-sound instruction.
pub open spec fn runs_quietly(m: Machine, randoms: Seq<u8>) -> bool
    decreases randoms.len(),
{
    if randoms.len() == 0 {
        true
    } else {
        match cycle(m, randoms[0]) {
            Ok((after, _)) => !(decoded(fetched(m)->Ok_0) is SetSound) && runs_quietly(
                after,
                randoms.drop_first(),
            ),
            Err(_) => false,
        }
    }
}

/// The number of tones that `m` signals in as many cycles as `randoms` has
/// bytes; the count ends at a fault.
pub open spec fn tones(m: Machine, randoms: Seq<u8>) -> nat
    decreases randoms.len(),
{
    if randoms.len() == 0 {
        0
    } else {
        match cycle(m, randoms[0]) {
            Ok((after, report)) => flag_of(report.tone) as nat + tones(
                after,
                randoms.drop_first(),
            ),
            Err(_) => 0,
        }
    }
}

/// A countdown of the sound timer signals the tone exactly once: in a run
/// that never executes the set-sound instruction, the tone is signalled once
/// if the timer starts above zero and the run is long enough for it to reach
/// zero, and never else. In particular no tone comes while the timer sits at
/// zero.
pub proof fn law_one_tone_per_countdown(m: Machine, randoms: Seq<u8>)
    requires
        runs_quietly(m, randoms),
    ensures
        tones(m, randoms) == if 0 < m.sound <= randoms.len() {
            1nat
        } else {
            0nat
        },
    decreases randoms.len(),
{
    if randoms.len() > 0 {
        let opcode = fetched(m)->Ok_0;
        let (after, report) = cycle(m, randoms[0])->Ok_0;
        law_sound_timer_written_by_set_sound_only(m, decoded(opcode), randoms[0]);
        law_one_tone_per_countdown(after, randoms.drop_first());
    }
}

/// A call followed by a return comes back to the instruction after the call
/// and leaves the stack as it was: where the instruction at address `A`
/// calls a subroutine whose first instruction is a return, two cycles leave
/// the program counter at `A + 2`.
pub proof fn law_call_then_return(m: Machine, addr: u16, random1: u8, random2: u8)
    requires
        m.wf(),
        m.stack.len() < STACK_SIZE,
        about_to_execute(m, Instruction::Call { addr }),
        about_to_execute(Machine { pc: addr as nat, ..m }, Instruction::Return),
    ensures
        cycle(m, random1) matches Ok((m1, _)) && cycle(m1, random2) matches Ok((m2, _)) && m2.pc
            == m.pc + 2 && m2.stack == m.stack,
{
    let m1 = cycle(m, random1).unwrap().0;
    assert(m1.memory == m.memory);
    assert(fetched(m1) == fetched(Machine { pc: addr as nat, ..m }));
    let m2 = cycle(m1, random2).unwrap().0;
    assert(m2.stack =~= m.stack);
}

/// A call with sixteen calls in progress is refused, and so is a return with
/// none.
pub proof fn law_stack_bounds(m: Machine, addr: u16, random: u8)
    requires
        m.wf(),
    ensures
        about_to_execute(m, Instruction::Call { addr }) ==> (cycle(m, random) is Err
            <==> m.stack.len() == STACK_SIZE),
        about_to_execute(m, Instruction::Call { addr }) && m.stack.len() == STACK_SIZE ==> cycle(
            m,
            random,
        ) == Err::<(Machine, CycleReport), Fault>(Fault::StackOverflow),
        about_to_execute(m, Instruction::Return) ==> (cycle(m, random) is Err <==> m.stack.len()
            == 0),
        about_to_execute(m, Instruction::Return) && m.stack.len() == 0 ==> cycle(m, random)
            == Err::<(Machine, CycleReport), Fault>(Fault::StackUnderflow),
{
}

} // verus!
