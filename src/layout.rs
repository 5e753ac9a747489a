//! The peripheral's register layout: which register and which bits belong to a pin.
use vstd::prelude::*;

use crate::pin::{function_code, PinFunction, PinLevel};

verus! {

/// Number of pins of the reference chip (pins 0 to 53).
pub const PIN_COUNT: u8 = 54;

/// Byte offset of the first function-select register.
pub const FUNCTION_SELECT_BASE: usize = 0x00;

/// Byte offset of the first set-level (drive high) register.
pub const SET_LEVEL_BASE: usize = 0x1C;

/// Byte offset of the first clear-level (drive low) register.
pub const CLEAR_LEVEL_BASE: usize = 0x28;

/// Byte offset of the first read-level register.
pub const READ_LEVEL_BASE: usize = 0x34;

/// Pins covered by one function-select register.
pub const PINS_PER_FUNCTION_REGISTER: u8 = 10;

/// Pins covered by one set, clear or read-level register.
pub const PINS_PER_LEVEL_REGISTER: u8 = 32;

/// Width in bits of one pin's function-select field.
pub const FUNCTION_FIELD_BITS: u32 = 3;

/// Mask of one function-select field, before shifting.
pub const FUNCTION_FIELD_MASK: u32 = 0b111;

/// Size in bytes of one register.
pub const REGISTER_BYTES: usize = 4;

pub open spec fn valid_pin(pin: u8) -> bool {
    pin < PIN_COUNT
}

/// Index of the function-select register that holds the pin's field.
pub open spec fn function_register_index(pin: u8) -> nat {
    (pin / 10) as nat
}

/// Position of the pin's lowest function-select bit within its register.
pub open spec fn function_shift(pin: u8) -> nat {
    (3 * (pin % 10)) as nat
}

/// Index of the set, clear or read-level register that holds the pin's bit.
pub open spec fn level_register_index(pin: u8) -> nat {
    (pin / 32) as nat
}

/// Position of the pin's bit within its level register.
pub open spec fn level_bit(pin: u8) -> nat {
    (pin % 32) as nat
}

/// Byte offset of register `index` in the bank that starts at `base`.
pub open spec fn register_offset(base: usize, index: nat) -> nat {
    (base + 4 * index) as nat
}

/// The three-bit field of `word` that starts at bit `shift`.
pub open spec fn field_at(word: u32, shift: u32) -> u32 {
    (word >> shift) & 0b111u32
}

/// The bits of `word` outside the three-bit field that starts at `shift`.
pub open spec fn outside_field(word: u32, shift: u32) -> u32 {
    word & !(0b111u32 << shift)
}

/// `word` with the pin's function-select field replaced by the encoding of `func`.
pub open spec fn function_word(word: u32, pin: u8, func: PinFunction) -> u32 {
    outside_field(word, function_shift(pin) as u32) | (function_code(func) << (function_shift(pin) as u32))
}

/// Whether bit `bit` of `word` is set.
pub open spec fn bit_set(word: u32, bit: u32) -> bool {
    (word >> bit) & 1u32 == 1u32
}

/// Register index and field shift of the pin's function-select field.
pub fn function_select_position(pin: u8) -> (r: (u8, u32))
    ensures
        r.0 as nat == function_register_index(pin),
        r.1 as nat == function_shift(pin),
        r.1 <= 27,
{
    let index: u8 = pin / PINS_PER_FUNCTION_REGISTER;
    let shift: u32 = FUNCTION_FIELD_BITS * ((pin % PINS_PER_FUNCTION_REGISTER) as u32);
    (index, shift)
}

/// Register index and bit position of the pin in the set, clear and read-level banks.
pub fn level_position(pin: u8) -> (r: (u8, u32))
    ensures
        r.0 as nat == level_register_index(pin),
        r.1 as nat == level_bit(pin),
        r.1 < 32,
{
    let index: u8 = pin / PINS_PER_LEVEL_REGISTER;
    let bit: u32 = (pin % PINS_PER_LEVEL_REGISTER) as u32;
    (index, bit)
}

/// Byte offset of the function-select register that holds the pin's field.
pub fn function_select_offset(pin: u8) -> (r: usize)
    ensures
        r as nat == register_offset(FUNCTION_SELECT_BASE, function_register_index(pin)),
{
    FUNCTION_SELECT_BASE + REGISTER_BYTES * ((pin / PINS_PER_FUNCTION_REGISTER) as usize)
}

/// Byte offset of the register that drives the pin to `level` when its bit is written as one.
pub fn level_write_offset(pin: u8, level: PinLevel) -> (r: usize)
    ensures
        r as nat == register_offset(
            if level == PinLevel::High { SET_LEVEL_BASE } else { CLEAR_LEVEL_BASE },
            level_register_index(pin),
        ),
{
    let base: usize = match level {
        PinLevel::High => SET_LEVEL_BASE,
        PinLevel::Low => CLEAR_LEVEL_BASE,
    };
    base + REGISTER_BYTES * ((pin / PINS_PER_LEVEL_REGISTER) as usize)
}

/// Byte offset of the read-level register that holds the pin's bit.
pub fn level_read_offset(pin: u8) -> (r: usize)
    ensures
        r as nat == register_offset(READ_LEVEL_BASE, level_register_index(pin)),
{
    READ_LEVEL_BASE + REGISTER_BYTES * ((pin / PINS_PER_LEVEL_REGISTER) as usize)
}

/// The function-select word `word` with the pin's field set to the encoding of `func`
/// and every other bit kept.
pub fn with_function(word: u32, pin: u8, func: PinFunction) -> (r: u32)
    ensures
        r == function_word(word, pin, func),
        field_at(r, function_shift(pin) as u32) == function_code(func),
        outside_field(r, function_shift(pin) as u32) == outside_field(word, function_shift(pin) as u32),
{
    let (_, shift) = function_select_position(pin);
    let code = func.code();
    let cleared = word & !(FUNCTION_FIELD_MASK << shift);
    let r = cleared | (code << shift);
    assert(field_at(r, shift) == code && outside_field(r, shift) == outside_field(word, shift))
        by (bit_vector)
        requires
            shift <= 27,
            code < 8,
            cleared == word & !(0b111u32 << shift),
            r == cleared | (code << shift),
    ;
    r
}

/// The word to write to a set or clear register so that only the pin acts.
pub fn level_mask(pin: u8) -> (r: u32)
    ensures
        r == 1u32 << (level_bit(pin) as u32),
        bit_set(r, level_bit(pin) as u32),
        forall|k: u32| k < 32 && k != level_bit(pin) ==> !#[trigger] bit_set(r, k),
{
    let (_, bit) = level_position(pin);
    let r = 1u32 << bit;
    assert(bit_set(r, bit)) by (bit_vector)
        requires
            bit < 32,
            r == 1u32 << bit,
    ;
    assert forall|k: u32| k < 32 && k != bit implies !#[trigger] bit_set(r, k) by {
        assert(!bit_set(r, k)) by (bit_vector)
            requires
                bit < 32,
                k < 32,
                k != bit,
                r == 1u32 << bit,
        ;
    }
    r
}

/// The pin's level as read-level word `word` reports it.
pub fn level_in_word(word: u32, pin: u8) -> (r: PinLevel)
    ensures
        r == (if bit_set(word, level_bit(pin) as u32) { PinLevel::High } else { PinLevel::Low }),
{
    let (_, bit) = level_position(pin);
    let v = word & (1u32 << bit);
    assert((v == 0) == !bit_set(word, bit)) by (bit_vector)
        requires
            bit < 32,
            v == word & (1u32 << bit),
    ;
    if v == 0 {
        PinLevel::Low
    } else {
        PinLevel::High
    }
}

} // verus!
