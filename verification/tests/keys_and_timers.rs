use chippotto::chip8::Chip8;
use chippotto::machine::{CycleReport, NO_KEY};

const QUIET: CycleReport = CycleReport { tone: false, unknown_opcode: None };
const TONE: CycleReport = CycleReport { tone: true, unknown_opcode: None };

fn loaded(program: &[u8]) -> Chip8 {
    let mut chip = Chip8::get_chip();
    assert_eq!(chip.load_game(program), Ok(()));
    chip
}

#[test]
fn wait_key_holds_the_program_counter_without_a_key() {
    let mut chip = loaded(&[0xF3, 0x0A, 0x60, 0x01]);
    assert_eq!(chip.emulate_cycle_with(0), Ok(QUIET));
    assert_eq!(chip.program_counter(), 0x200);
    assert_eq!(chip.emulate_cycle_with(0), Ok(QUIET));
    assert_eq!(chip.emulate_cycle_with(0), Ok(QUIET));
    assert_eq!(chip.program_counter(), 0x200);
    assert_eq!(chip.register(3), 0);
    assert_eq!(chip.register(0), 0);
}

#[test]
fn wait_key_goes_on_once_a_key_is_latched() {
    let mut chip = loaded(&[0xF3, 0x0A, 0x60, 0x01]);
    assert_eq!(chip.emulate_cycle_with(0), Ok(QUIET));
    assert_eq!(chip.program_counter(), 0x200);
    chip.key_press(0xB);
    assert_eq!(chip.emulate_cycle_with(0), Ok(QUIET));
    assert_eq!(chip.program_counter(), 0x202);
    assert_eq!(chip.register(3), 0xB);
    assert_eq!(chip.latched_key(), None);
    assert_eq!(chip.emulate_cycle_with(0), Ok(QUIET));
    assert_eq!(chip.register(0), 1);
}

#[test]
fn wait_key_takes_key_zero_as_a_key() {
    let mut chip = loaded(&[0x63, 0x09, 0xF3, 0x0A]);
    assert_eq!(chip.emulate_cycle_with(0), Ok(QUIET));
    chip.key_press(0x0);
    assert_eq!(chip.emulate_cycle_with(0), Ok(QUIET));
    assert_eq!(chip.program_counter(), 0x204);
    assert_eq!(chip.register(3), 0);
}

#[test]
fn wait_key_ignores_a_key_that_was_taken_back() {
    let mut chip = loaded(&[0xF3, 0x0A]);
    chip.key_press(0x4);
    chip.key_press(NO_KEY);
    assert_eq!(chip.emulate_cycle_with(0), Ok(QUIET));
    assert_eq!(chip.program_counter(), 0x200);
}

#[test]
fn wait_key_through_emulate_cycle() {
    let mut chip = loaded(&[0xF3, 0x0A]);
    assert_eq!(chip.emulate_cycle(), Ok(QUIET));
    assert_eq!(chip.program_counter(), 0x200);
    chip.key_press(0xC);
    assert_eq!(chip.emulate_cycle(), Ok(QUIET));
    assert_eq!(chip.program_counter(), 0x202);
    assert_eq!(chip.register(3), 0xC);
}

#[test]
fn the_latch_is_emptied_at_the_end_of_every_cycle() {
    let mut chip = loaded(&[0x60, 0x01, 0xF3, 0x0A]);
    chip.key_press(0x5);
    assert_eq!(chip.emulate_cycle_with(0), Ok(QUIET));
    assert_eq!(chip.latched_key(), None);
    assert_eq!(chip.emulate_cycle_with(0), Ok(QUIET));
    assert_eq!(chip.program_counter(), 0x202);
    assert_eq!(chip.register(3), 0);
}

#[test]
fn skip_if_key_pressed() {
    let mut chip = loaded(&[0x62, 0x07, 0xE2, 0x9E]);
    assert_eq!(chip.emulate_cycle_with(0), Ok(QUIET));
    chip.key_press(0x7);
    assert_eq!(chip.emulate_cycle_with(0), Ok(QUIET));
    assert_eq!(chip.program_counter(), 0x206);
}

#[test]
fn skip_if_key_pressed_does_not_skip_on_another_key_or_none() {
    let mut chip = loaded(&[0x62, 0x07, 0xE2, 0x9E]);
    assert_eq!(chip.emulate_cycle_with(0), Ok(QUIET));
    chip.key_press(0x8);
    assert_eq!(chip.emulate_cycle_with(0), Ok(QUIET));
    assert_eq!(chip.program_counter(), 0x204);
    let mut chip = loaded(&[0x62, 0x07, 0xE2, 0x9E]);
    assert_eq!(chip.emulate_cycle_with(0), Ok(QUIET));
    assert_eq!(chip.emulate_cycle_with(0), Ok(QUIET));
    assert_eq!(chip.program_counter(), 0x204);
}

#[test]
fn skip_if_key_pressed_never_matches_the_empty_latch() {
    let mut chip = loaded(&[0x62, 0xFF, 0xE2, 0x9E]);
    assert_eq!(chip.emulate_cycle_with(0), Ok(QUIET));
    assert_eq!(chip.emulate_cycle_with(0), Ok(QUIET));
    assert_eq!(chip.program_counter(), 0x204);
}

#[test]
fn skip_if_key_not_pressed() {
    let mut chip = loaded(&[0x62, 0x07, 0xE2, 0xA1]);
    assert_eq!(chip.emulate_cycle_with(0), Ok(QUIET));
    assert_eq!(chip.emulate_cycle_with(0), Ok(QUIET));
    assert_eq!(chip.program_counter(), 0x206);
    let mut chip = loaded(&[0x62, 0x07, 0xE2, 0xA1]);
    assert_eq!(chip.emulate_cycle_with(0), Ok(QUIET));
    chip.key_press(0x8);
    assert_eq!(chip.emulate_cycle_with(0), Ok(QUIET));
    assert_eq!(chip.program_counter(), 0x206);
}

#[test]
fn skip_if_key_not_pressed_does_not_skip_on_that_key() {
    let mut chip = loaded(&[0x62, 0x07, 0xE2, 0xA1]);
    assert_eq!(chip.emulate_cycle_with(0), Ok(QUIET));
    chip.key_press(0x7);
    assert_eq!(chip.emulate_cycle_with(0), Ok(QUIET));
    assert_eq!(chip.program_counter(), 0x204);
}

#[test]
fn skip_if_key_not_pressed_skips_on_the_empty_latch_whatever_the_register() {
    let mut chip = loaded(&[0x62, 0xFF, 0xE2, 0xA1]);
    assert_eq!(chip.emulate_cycle_with(0), Ok(QUIET));
    assert_eq!(chip.emulate_cycle_with(0), Ok(QUIET));
    assert_eq!(chip.program_counter(), 0x206);
}

#[test]
fn delay_timer_counts_down_once_per_cycle_and_stops_at_zero() {
    let mut chip = loaded(&[0x60, 0x03, 0xF0, 0x15]);
    assert_eq!(chip.emulate_cycle_with(0), Ok(QUIET));
    assert_eq!(chip.delay_timer(), 0);
    assert_eq!(chip.emulate_cycle_with(0), Ok(QUIET));
    assert_eq!(chip.delay_timer(), 2);
    assert!(chip.emulate_cycle_with(0).is_ok());
    assert_eq!(chip.delay_timer(), 1);
    assert!(chip.emulate_cycle_with(0).is_ok());
    assert_eq!(chip.delay_timer(), 0);
    assert!(chip.emulate_cycle_with(0).is_ok());
    assert_eq!(chip.delay_timer(), 0);
    assert_eq!(chip.sound_timer(), 0);
}

#[test]
fn read_delay_timer_sees_the_value_before_the_tick() {
    let mut chip = loaded(&[0x60, 0x0A, 0xF0, 0x15, 0xF1, 0x07, 0xF2, 0x07]);
    assert_eq!(chip.emulate_cycle_with(0), Ok(QUIET));
    assert_eq!(chip.emulate_cycle_with(0), Ok(QUIET));
    assert_eq!(chip.delay_timer(), 9);
    assert_eq!(chip.emulate_cycle_with(0), Ok(QUIET));
    assert_eq!(chip.register(1), 9);
    assert_eq!(chip.delay_timer(), 8);
    assert_eq!(chip.emulate_cycle_with(0), Ok(QUIET));
    assert_eq!(chip.register(2), 8);
    assert_eq!(chip.delay_timer(), 7);
}

#[test]
fn sound_timer_signals_the_tone_once_when_it_reaches_zero() {
    let mut chip = loaded(&[0x60, 0x03, 0xF0, 0x18, 0x61, 0x00, 0x61, 0x00, 0x61, 0x00, 0x61, 0x00]);
    assert_eq!(chip.emulate_cycle_with(0), Ok(QUIET));
    assert_eq!(chip.emulate_cycle_with(0), Ok(QUIET));
    assert_eq!(chip.sound_timer(), 2);
    assert_eq!(chip.emulate_cycle_with(0), Ok(QUIET));
    assert_eq!(chip.sound_timer(), 1);
    assert_eq!(chip.emulate_cycle_with(0), Ok(TONE));
    assert_eq!(chip.sound_timer(), 0);
    assert_eq!(chip.emulate_cycle_with(0), Ok(QUIET));
    assert_eq!(chip.emulate_cycle_with(0), Ok(QUIET));
    assert_eq!(chip.sound_timer(), 0);
    assert_eq!(chip.delay_timer(), 0);
}

#[test]
fn sound_timer_set_to_one_signals_the_tone_in_the_same_cycle() {
    let mut chip = loaded(&[0x60, 0x01, 0xF0, 0x18, 0x61, 0x00]);
    assert_eq!(chip.emulate_cycle_with(0), Ok(QUIET));
    assert_eq!(chip.emulate_cycle_with(0), Ok(TONE));
    assert_eq!(chip.sound_timer(), 0);
    assert_eq!(chip.emulate_cycle_with(0), Ok(QUIET));
}

#[test]
fn sound_timer_set_to_zero_signals_nothing() {
    let mut chip = loaded(&[0xF0, 0x18, 0x61, 0x00]);
    assert_eq!(chip.emulate_cycle_with(0), Ok(QUIET));
    assert_eq!(chip.emulate_cycle_with(0), Ok(QUIET));
    assert_eq!(chip.sound_timer(), 0);
}

#[test]
fn tone_is_signalled_through_emulate_cycle() {
    let mut chip = loaded(&[0x60, 0x02, 0xF0, 0x18, 0x61, 0x00, 0x61, 0x00]);
    assert_eq!(chip.emulate_cycle(), Ok(QUIET));
    assert_eq!(chip.emulate_cycle(), Ok(QUIET));
    assert_eq!(chip.emulate_cycle(), Ok(TONE));
    assert_eq!(chip.emulate_cycle(), Ok(QUIET));
}

#[test]
fn tone_comes_with_an_unknown_word_in_the_same_cycle() {
    let mut chip = loaded(&[0x60, 0x02, 0xF0, 0x18, 0x0F, 0xFF]);
    assert_eq!(chip.emulate_cycle_with(0), Ok(QUIET));
    assert_eq!(chip.emulate_cycle_with(0), Ok(QUIET));
    assert_eq!(
        chip.emulate_cycle_with(0),
        Ok(CycleReport { tone: true, unknown_opcode: Some(0x0FFF) })
    );
}

#[test]
fn timers_count_down_while_waiting_for_a_key() {
    let mut chip = loaded(&[0x60, 0x02, 0xF0, 0x18, 0xF1, 0x0A]);
    assert_eq!(chip.emulate_cycle_with(0), Ok(QUIET));
    assert_eq!(chip.emulate_cycle_with(0), Ok(QUIET));
    assert_eq!(chip.emulate_cycle_with(0), Ok(TONE));
    assert_eq!(chip.program_counter(), 0x204);
    assert_eq!(chip.emulate_cycle_with(0), Ok(QUIET));
    assert_eq!(chip.program_counter(), 0x204);
}

#[test]
fn key_press_and_load_game_do_not_move_the_timers() {
    let mut chip = loaded(&[0x60, 0x05, 0xF0, 0x18, 0xF0, 0x15]);
    assert_eq!(chip.emulate_cycle_with(0), Ok(QUIET));
    assert_eq!(chip.emulate_cycle_with(0), Ok(QUIET));
    assert_eq!(chip.emulate_cycle_with(0), Ok(QUIET));
    assert_eq!(chip.sound_timer(), 3);
    assert_eq!(chip.delay_timer(), 4);
    chip.key_press(0x1);
    chip.key_press(0x2);
    assert_eq!(chip.load_game(&[0x00, 0xE0]), Ok(()));
    assert_eq!(chip.sound_timer(), 3);
    assert_eq!(chip.delay_timer(), 4);
}
