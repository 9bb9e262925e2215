use chippotto::chip8::{Chip8, HEIGHT, WIDTH};
use chippotto::fault::Fault;
use chippotto::machine::{MAX_PROGRAM_SIZE, NO_KEY};

const FONT: [u8; 80] = [
    0xF0, 0x90, 0x90, 0x90, 0xF0, 0x20, 0x60, 0x20, 0x20, 0x70, 0xF0, 0x10, 0xF0, 0x80, 0xF0, 0xF0,
    0x10, 0xF0, 0x10, 0xF0, 0x90, 0x90, 0xF0, 0x10, 0x10, 0xF0, 0x80, 0xF0, 0x10, 0xF0, 0xF0, 0x80,
    0xF0, 0x90, 0xF0, 0xF0, 0x10, 0x20, 0x40, 0x40, 0xF0, 0x90, 0xF0, 0x90, 0xF0, 0xF0, 0x90, 0xF0,
    0x10, 0xF0, 0xF0, 0x90, 0xF0, 0x90, 0x90, 0xE0, 0x90, 0xE0, 0x90, 0xE0, 0xF0, 0x80, 0x80, 0x80,
    0xF0, 0xE0, 0x90, 0x90, 0x90, 0xE0, 0xF0, 0x80, 0xF0, 0x80, 0xF0, 0xF0, 0x80, 0xF0, 0x80, 0x80,
];

#[test]
fn new_machine_is_zeroed_and_starts_at_0x200() {
    let chip = Chip8::get_chip();
    assert_eq!(chip.program_counter(), 0x200);
    assert_eq!(chip.index_register(), 0);
    assert_eq!(chip.delay_timer(), 0);
    assert_eq!(chip.sound_timer(), 0);
    assert_eq!(chip.stack_depth(), 0);
    assert_eq!(chip.latched_key(), None);
    let mut x: u8 = 0;
    while x < 16 {
        assert_eq!(chip.register(x), 0);
        x += 1;
    }
}

#[test]
fn new_machine_has_a_blank_display_of_64_by_32() {
    let chip = Chip8::get_chip();
    let display = chip.get_display();
    assert_eq!(WIDTH, 64);
    assert_eq!(HEIGHT, 32);
    assert_eq!(display.len(), WIDTH * HEIGHT);
    assert!(display.iter().all(|&cell| cell == 0));
}

#[test]
fn new_machine_holds_the_glyph_table_at_0x50() {
    let chip = Chip8::get_chip();
    let mut i: u16 = 0;
    while i < 80 {
        assert_eq!(chip.memory_at(0x50 + i), Some(FONT[i as usize]));
        i += 1;
    }
}

#[test]
fn new_machine_memory_is_zero_outside_the_glyph_table() {
    let chip = Chip8::get_chip();
    let mut addr: u16 = 0;
    while addr < 4096 {
        if addr < 0x50 || addr >= 0xA0 {
            assert_eq!(chip.memory_at(addr), Some(0));
        }
        addr += 1;
    }
}

#[test]
fn memory_at_has_nothing_beyond_the_last_byte() {
    let chip = Chip8::get_chip();
    assert_eq!(chip.memory_at(0x0FFF), Some(0));
    assert_eq!(chip.memory_at(0x1000), None);
    assert_eq!(chip.memory_at(0xFFFF), None);
}

#[test]
fn load_game_copies_the_image_to_0x200_in_order() {
    let mut chip = Chip8::get_chip();
    assert_eq!(chip.load_game(&[0x12, 0x34, 0x56, 0x78, 0x9A]), Ok(()));
    assert_eq!(chip.memory_at(0x1FF), Some(0));
    assert_eq!(chip.memory_at(0x200), Some(0x12));
    assert_eq!(chip.memory_at(0x201), Some(0x34));
    assert_eq!(chip.memory_at(0x202), Some(0x56));
    assert_eq!(chip.memory_at(0x203), Some(0x78));
    assert_eq!(chip.memory_at(0x204), Some(0x9A));
    assert_eq!(chip.memory_at(0x205), Some(0));
}

#[test]
fn load_game_leaves_everything_but_memory_alone() {
    let mut chip = Chip8::get_chip();
    chip.key_press(7);
    assert_eq!(chip.load_game(&[0xAA, 0xBB]), Ok(()));
    assert_eq!(chip.program_counter(), 0x200);
    assert_eq!(chip.index_register(), 0);
    assert_eq!(chip.latched_key(), Some(7));
    assert_eq!(chip.stack_depth(), 0);
    assert_eq!(chip.memory_at(0x50), Some(0xF0));
    assert!(chip.get_display().iter().all(|&cell| cell == 0));
}

#[test]
fn load_game_of_an_empty_image_changes_nothing() {
    let mut chip = Chip8::get_chip();
    assert_eq!(chip.load_game(&[]), Ok(()));
    assert_eq!(chip.memory_at(0x200), Some(0));
}

#[test]
fn load_game_accepts_an_image_that_fills_memory_to_the_end() {
    let mut chip = Chip8::get_chip();
    assert_eq!(MAX_PROGRAM_SIZE, 0xFFF - 0x200 + 1);
    let mut image = vec![0x11u8; MAX_PROGRAM_SIZE];
    image[MAX_PROGRAM_SIZE - 1] = 0x99;
    assert_eq!(chip.load_game(&image), Ok(()));
    assert_eq!(chip.memory_at(0x200), Some(0x11));
    assert_eq!(chip.memory_at(0xFFE), Some(0x11));
    assert_eq!(chip.memory_at(0xFFF), Some(0x99));
}

#[test]
fn load_game_refuses_an_image_one_byte_too_large() {
    let mut chip = Chip8::get_chip();
    assert_eq!(chip.load_game(&[0x42]), Ok(()));
    let image = vec![0x11u8; MAX_PROGRAM_SIZE + 1];
    assert_eq!(chip.load_game(&image), Err(Fault::ProgramTooLarge));
    assert_eq!(chip.memory_at(0x200), Some(0x42));
    assert_eq!(chip.memory_at(0x201), Some(0));
    assert_eq!(chip.memory_at(0xFFF), Some(0));
}

#[test]
fn load_game_a_second_time_overwrites_the_first_image() {
    let mut chip = Chip8::get_chip();
    assert_eq!(chip.load_game(&[1, 2, 3, 4]), Ok(()));
    assert_eq!(chip.load_game(&[9, 8]), Ok(()));
    assert_eq!(chip.memory_at(0x200), Some(9));
    assert_eq!(chip.memory_at(0x201), Some(8));
    assert_eq!(chip.memory_at(0x202), Some(3));
    assert_eq!(chip.memory_at(0x203), Some(4));
}

#[test]
fn key_press_latches_the_key() {
    let mut chip = Chip8::get_chip();
    chip.key_press(0xA);
    assert_eq!(chip.latched_key(), Some(0xA));
}

#[test]
fn key_press_last_write_wins() {
    let mut chip = Chip8::get_chip();
    chip.key_press(0x3);
    chip.key_press(0xF);
    assert_eq!(chip.latched_key(), Some(0xF));
    chip.key_press(0x0);
    assert_eq!(chip.latched_key(), Some(0x0));
}

#[test]
fn key_press_of_no_key_empties_the_latch() {
    let mut chip = Chip8::get_chip();
    chip.key_press(0x3);
    chip.key_press(NO_KEY);
    assert_eq!(chip.latched_key(), None);
}

#[test]
fn key_press_changes_nothing_but_the_latch() {
    let mut chip = Chip8::get_chip();
    assert_eq!(chip.load_game(&[0x60, 0x05]), Ok(()));
    chip.key_press(0x3);
    assert_eq!(chip.program_counter(), 0x200);
    assert_eq!(chip.sound_timer(), 0);
    assert_eq!(chip.memory_at(0x200), Some(0x60));
    assert_eq!(chip.register(0), 0);
}

#[test]
fn fault_messages_are_distinct_diagnostics() {
    assert_eq!(Fault::ProgramTooLarge.message(), "program image does not fit into memory");
    assert_eq!(Fault::StackOverflow.message(), "call stack overflow");
    assert_eq!(Fault::StackUnderflow.message(), "return with an empty call stack");
    assert_eq!(Fault::AddressOutOfRange.message(), "memory address out of range");
}
