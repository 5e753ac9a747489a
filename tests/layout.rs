use gpiomem::layout::{
    function_select_offset, function_select_position, level_in_word, level_mask,
    level_position, level_read_offset, level_write_offset, with_function, PIN_COUNT,
};
use gpiomem::pin::{PinFunction, PinLevel};

#[test]
fn function_select_position_at_boundaries() {
    assert_eq!(function_select_position(0), (0, 0));
    assert_eq!(function_select_position(9), (0, 27));
    assert_eq!(function_select_position(10), (1, 0));
    assert_eq!(function_select_position(31), (3, 3));
    assert_eq!(function_select_position(32), (3, 6));
    assert_eq!(function_select_position(53), (5, 9));
}

#[test]
fn level_position_at_boundaries() {
    assert_eq!(level_position(0), (0, 0));
    assert_eq!(level_position(9), (0, 9));
    assert_eq!(level_position(10), (0, 10));
    assert_eq!(level_position(31), (0, 31));
    assert_eq!(level_position(32), (1, 0));
    assert_eq!(level_position(53), (1, 21));
}

#[test]
fn positions_follow_the_formula_for_every_pin() {
    for pin in 0..PIN_COUNT {
        assert_eq!(function_select_position(pin), (pin / 10, 3 * (pin % 10) as u32));
        assert_eq!(level_position(pin), (pin / 32, (pin % 32) as u32));
    }
}

#[test]
fn register_offsets() {
    assert_eq!(function_select_offset(0), 0x00);
    assert_eq!(function_select_offset(9), 0x00);
    assert_eq!(function_select_offset(10), 0x04);
    assert_eq!(function_select_offset(53), 0x14);
    assert_eq!(level_write_offset(7, PinLevel::High), 0x1C);
    assert_eq!(level_write_offset(32, PinLevel::High), 0x20);
    assert_eq!(level_write_offset(31, PinLevel::Low), 0x28);
    assert_eq!(level_write_offset(53, PinLevel::Low), 0x2C);
    assert_eq!(level_read_offset(0), 0x34);
    assert_eq!(level_read_offset(53), 0x38);
}

#[test]
fn with_function_replaces_only_the_pin_field() {
    assert_eq!(with_function(0xFFFF_FFFF, 7, PinFunction::Output), 0xFF3F_FFFF);
    assert_eq!(with_function(0xFFFF_FFFF, 7, PinFunction::Input), 0xFF1F_FFFF);
    assert_eq!(with_function(0xFFFF_FFFF, 0, PinFunction::Input), 0xFFFF_FFF8);
    assert_eq!(with_function(0xFFFF_FFFF, 9, PinFunction::Output), 0xCFFF_FFFF);
    assert_eq!(with_function(0, 19, PinFunction::Output), 0x0800_0000);
    assert_eq!(with_function(0x1234_5678, 3, PinFunction::Input), 0x1234_5078 & !(0b111 << 9));
}

#[test]
fn level_mask_has_one_bit() {
    assert_eq!(level_mask(0), 1);
    assert_eq!(level_mask(7), 0x80);
    assert_eq!(level_mask(31), 0x8000_0000);
    assert_eq!(level_mask(32), 1);
    assert_eq!(level_mask(53), 1 << 21);
}

#[test]
fn level_in_word_reads_the_pin_bit() {
    assert_eq!(level_in_word(0x80, 7), PinLevel::High);
    assert_eq!(level_in_word(0xFFFF_FF7F, 7), PinLevel::Low);
    assert_eq!(level_in_word(0x8000_0000, 31), PinLevel::High);
    assert_eq!(level_in_word(1, 32), PinLevel::High);
    assert_eq!(level_in_word(0, 53), PinLevel::Low);
}
