//! Pin operations over a register page: set a pin's function, drive its level,
//! read its level.
use vstd::prelude::*;

use crate::layout::{
    bit_set, field_at, function_register_index, function_select_offset, function_shift,
    function_word, level_bit, outside_field, level_in_word, level_mask, level_read_offset,
    level_register_index, level_write_offset, valid_pin, with_function, CLEAR_LEVEL_BASE,
    PIN_COUNT, READ_LEVEL_BASE, SET_LEVEL_BASE,
};
use crate::page::{settled, RegisterPage, PAGE_WORDS};
use crate::pin::{function_code, GpioError, PinFunction, PinLevel};

verus! {

/// Word index of the function-select register that holds the pin's field.
pub open spec fn function_word_index(pin: u8) -> int {
    function_register_index(pin) as int
}

/// Word index of the register that drives the pin to `level`.
pub open spec fn write_word_index(pin: u8, level: PinLevel) -> int {
    (if level == PinLevel::High { SET_LEVEL_BASE } else { CLEAR_LEVEL_BASE }) / 4
        + level_register_index(pin)
}

/// Word index of the read-level register that holds the pin's bit.
pub open spec fn read_word_index(pin: u8) -> int {
    READ_LEVEL_BASE / 4 + level_register_index(pin)
}

/// The page after `set_function(pin, func)`.
pub open spec fn function_written(words: Seq<u32>, pin: u8, func: PinFunction) -> Seq<u32> {
    words.update(
        function_word_index(pin),
        function_word(words[function_word_index(pin)], pin, func),
    )
}

/// The page after `set_level(pin, level)`: one word holding only the pin's bit,
/// written to the set or the clear register.
pub open spec fn level_written(words: Seq<u32>, pin: u8, level: PinLevel) -> Seq<u32> {
    words.update(write_word_index(pin, level), 1u32 << (level_bit(pin) as u32))
}

/// The pin's level as the read-level register of the page reports it.
pub open spec fn pin_level(words: Seq<u32>, pin: u8) -> PinLevel {
    if bit_set(words[read_word_index(pin)], level_bit(pin) as u32) {
        PinLevel::High
    } else {
        PinLevel::Low
    }
}

/// No set or clear request is pending on the page.
pub open spec fn quiescent(words: Seq<u32>) -> bool {
    &&& words[(SET_LEVEL_BASE / 4) as int] == 0u32
    &&& words[SET_LEVEL_BASE / 4 + 1] == 0u32
    &&& words[(CLEAR_LEVEL_BASE / 4) as int] == 0u32
    &&& words[CLEAR_LEVEL_BASE / 4 + 1] == 0u32
}

/// A GPIO controller over the register page it exclusively owns.
pub struct Controller {
    page: RegisterPage,
}

impl View for Controller {
    type V = Seq<u32>;

    closed spec fn view(&self) -> Seq<u32> {
        self.page@
    }
}

impl Controller {
    pub open spec fn wf(&self) -> bool {
        self@.len() == PAGE_WORDS
    }

    /// A controller over `page`.
    pub fn new(page: RegisterPage) -> (r: Controller)
        requires
            page.wf(),
        ensures
            r.wf(),
            r@ == page@,
    {
        Controller { page }
    }

    /// The register page.
    pub fn page(&self) -> (r: &RegisterPage)
        ensures
            r@ == self@,
    {
        &self.page
    }

    /// Gives the register page back.
    pub fn into_page(self) -> (r: RegisterPage)
        ensures
            r@ == self@,
    {
        self.page
    }

    /// Accepts exactly the pins of the peripheral.
    pub fn check_pin(pin: u8) -> (r: Result<(), GpioError>)
        ensures
            r is Ok <==> valid_pin(pin),
            r is Err ==> r == Err::<(), GpioError>(GpioError::InvalidPin),
    {
        if pin < PIN_COUNT {
            Ok(())
        } else {
            Err(GpioError::InvalidPin)
        }
    }

    /// Sets the pin's three-bit function field to the encoding of `func`, keeping
    /// every other bit of its function-select register (read, modify, write).
    pub fn set_function(&mut self, pin: u8, func: PinFunction) -> (r: Result<(), GpioError>)
        requires
            old(self).wf(),
        ensures
            final(self).wf(),
            valid_pin(pin) ==> r is Ok && final(self)@ == function_written(old(self)@, pin, func),
            !valid_pin(pin) ==> r == Err::<(), GpioError>(GpioError::InvalidPin) && final(self)@
                == old(self)@,
    {
        Self::check_pin(pin)?;
        let offset = function_select_offset(pin);
        let word = self.page.read_u32(offset);
        self.page.write_u32(offset, with_function(word, pin, func));
        Ok(())
    }

    /// Drives the pin to `level` by writing its bit alone to the set or the clear
    /// register; nothing is read back.
    pub fn set_level(&mut self, pin: u8, level: PinLevel) -> (r: Result<(), GpioError>)
        requires
            old(self).wf(),
        ensures
            final(self).wf(),
            valid_pin(pin) ==> r is Ok && final(self)@ == level_written(old(self)@, pin, level),
            !valid_pin(pin) ==> r == Err::<(), GpioError>(GpioError::InvalidPin) && final(self)@
                == old(self)@,
    {
        Self::check_pin(pin)?;
        let offset = level_write_offset(pin, level);
        self.page.write_u32(offset, level_mask(pin));
        Ok(())
    }

    /// The pin's level as its read-level register reports it.
    pub fn get_level(&self, pin: u8) -> (r: Result<PinLevel, GpioError>)
        requires
            self.wf(),
        ensures
            valid_pin(pin) ==> r == Ok::<PinLevel, GpioError>(pin_level(self@, pin)),
            !valid_pin(pin) ==> r == Err::<PinLevel, GpioError>(GpioError::InvalidPin),
    {
        Self::check_pin(pin)?;
        let word = self.page.read_u32(level_read_offset(pin));
        Ok(level_in_word(word, pin))
    }
}

proof fn lemma_other_field_kept(word: u32, i: u32, j: u32, si: u32, sj: u32, code: u32)
    by (bit_vector)
    requires
        i < 10,
        j < 10,
        i != j,
        si == 3 * i,
        sj == 3 * j,
        code < 8,
    ensures
        field_at(outside_field(word, si) | (code << si), sj) == field_at(word, sj),
{
}

proof fn lemma_own_field(word: u32, s: u32, code: u32)
    by (bit_vector)
    requires
        s <= 27,
        code < 8,
    ensures
        field_at(outside_field(word, s) | (code << s), s) == code,
{
}

proof fn lemma_level_bits(x: u32, b: u32, k: u32)
    by (bit_vector)
    requires
        b < 32,
        k < 32,
    ensures
        bit_set((x | (1u32 << b)) & !0u32, k) == (k == b || bit_set(x, k)),
        bit_set((x | 0u32) & !(1u32 << b), k) == (k != b && bit_set(x, k)),
        bit_set((x | 0u32) & !0u32, k) == bit_set(x, k),
{
}

/// Setting a pin's function gives its own three-bit field the new encoding and
/// leaves the function field of every other pin as it was, in the same register
/// and in all others.
pub proof fn lemma_function_fields_isolated(
    words: Seq<u32>,
    pin: u8,
    func: PinFunction,
    other: u8,
)
    requires
        words.len() == PAGE_WORDS,
        valid_pin(pin),
        valid_pin(other),
        other != pin,
    ensures
        field_at(
            function_written(words, pin, func)[function_word_index(other)],
            function_shift(other) as u32,
        ) == field_at(words[function_word_index(other)], function_shift(other) as u32),
        field_at(
            function_written(words, pin, func)[function_word_index(pin)],
            function_shift(pin) as u32,
        ) == function_code(func),
{
    let i = (pin % 10) as u32;
    let j = (other % 10) as u32;
    lemma_own_field(words[function_word_index(pin)], function_shift(pin) as u32, function_code(func));
    if function_word_index(other) == function_word_index(pin) {
        assert(i != j);
        lemma_other_field_kept(
            words[function_word_index(pin)],
            i,
            j,
            function_shift(pin) as u32,
            function_shift(other) as u32,
            function_code(func),
        );
    }
}

/// On a page with no pending set or clear request, once the hardware has acted on
/// `set_level(pin, level)` the pin reads as `level` and every other pin reads as
/// before.
pub proof fn lemma_level_after_write(words: Seq<u32>, pin: u8, level: PinLevel, other: u8)
    requires
        words.len() == PAGE_WORDS,
        quiescent(words),
        valid_pin(pin),
        valid_pin(other),
    ensures
        pin_level(settled(level_written(words, pin, level)), other) == if other == pin {
            level
        } else {
            pin_level(words, other)
        },
{
    let after = level_written(words, pin, level);
    let x = words[read_word_index(other)];
    let b = level_bit(pin) as u32;
    let k = level_bit(other) as u32;
    lemma_level_bits(x, b, k);
    assert(settled(after)[read_word_index(other)] == (after[read_word_index(other)]
        | after[read_word_index(other) - 6]) & !after[read_word_index(other) - 3]);
    if level_register_index(other) == level_register_index(pin) {
        assert(other == pin <==> k == b);
    }
}
} // verus!
