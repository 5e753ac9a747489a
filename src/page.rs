//! A register page held in ordinary memory: one page of 32-bit registers with
//! bounds-checked access. It stands in for the mapped window wherever the
//! hardware is not at hand.
use vstd::prelude::*;

use crate::layout::{bit_set, CLEAR_LEVEL_BASE, READ_LEVEL_BASE, SET_LEVEL_BASE};

verus! {

/// Length in bytes of the mapped window: one memory page.
pub const PAGE_BYTES: usize = 4096;

/// Number of 32-bit registers in one page.
pub const PAGE_WORDS: usize = 1024;

/// Number of registers in each of the set, clear and read-level banks.
pub const LEVEL_BANKS: usize = 2;

/// Whether a byte offset names a whole, aligned register inside the page.
pub open spec fn valid_offset(offset: int) -> bool {
    0 <= offset && offset + 4 <= PAGE_BYTES && offset % 4 == 0
}

/// The word of register bank `base` at index `bank`, as a word index into the page.
pub open spec fn bank_word(base: usize, bank: int) -> int {
    base / 4 + bank
}

/// The page after the pins' output has settled: each read-level register takes
/// the bits written to its set register and loses those written to its clear
/// register, and both write-one-to-act registers read as zero again.
pub open spec fn settled(words: Seq<u32>) -> Seq<u32> {
    Seq::new(
        words.len(),
        |i: int|
            if i == bank_word(READ_LEVEL_BASE, 0) || i == bank_word(READ_LEVEL_BASE, 1) {
                let bank = i - READ_LEVEL_BASE / 4;
                (words[i] | words[bank_word(SET_LEVEL_BASE, bank)]) & !words[bank_word(
                    CLEAR_LEVEL_BASE,
                    bank,
                )]
            } else if i == bank_word(SET_LEVEL_BASE, 0) || i == bank_word(SET_LEVEL_BASE, 1)
                || i == bank_word(CLEAR_LEVEL_BASE, 0) || i == bank_word(CLEAR_LEVEL_BASE, 1) {
                0u32
            } else {
                words[i]
            },
    )
}

/// One page of 32-bit registers.
pub struct RegisterPage {
    words: Vec<u32>,
}

impl View for RegisterPage {
    type V = Seq<u32>;

    closed spec fn view(&self) -> Seq<u32> {
        self.words@
    }
}

impl RegisterPage {
    /// The page always holds exactly one page of registers.
    pub open spec fn wf(&self) -> bool {
        self@.len() == PAGE_WORDS
    }

    /// A page whose registers all read as zero.
    pub fn new() -> (r: RegisterPage)
        ensures
            r.wf(),
            r@ == Seq::new(PAGE_WORDS as nat, |i: int| 0u32),
    {
        let mut words: Vec<u32> = Vec::with_capacity(PAGE_WORDS);
        let mut i: usize = 0;
        while i < PAGE_WORDS
            invariant
                i <= PAGE_WORDS,
                words@.len() == i,
                forall|j: int| 0 <= j < i ==> words@[j] == 0u32,
            decreases PAGE_WORDS - i,
        {
            words.push(0u32);
            i = i + 1;
        }
        let r = RegisterPage { words };
        assert(r@ =~= Seq::new(PAGE_WORDS as nat, |i: int| 0u32));
        r
    }

    /// The register at byte offset `offset`.
    pub fn read_u32(&self, offset: usize) -> (r: u32)
        requires
            self.wf(),
            valid_offset(offset as int),
        ensures
            r == self@[offset as int / 4],
    {
        self.words[offset / 4]
    }

    /// Stores `value` in the register at byte offset `offset`.
    pub fn write_u32(&mut self, offset: usize, value: u32)
        requires
            old(self).wf(),
            valid_offset(offset as int),
        ensures
            final(self).wf(),
            final(self)@ == old(self)@.update(offset as int / 4, value),
    {
        self.words.set(offset / 4, value);
    }

    /// Plays the hardware's part for the level registers: see [`settled`].
    pub fn settle(&mut self)
        requires
            old(self).wf(),
        ensures
            final(self).wf(),
            final(self)@ == settled(old(self)@),
    {
        let ghost before = self@;
        let mut bank: usize = 0;
        while bank < LEVEL_BANKS
            invariant
                bank <= LEVEL_BANKS,
                self.wf(),
                before.len() == PAGE_WORDS,
                forall|i: int|
                    0 <= i < PAGE_WORDS ==> #[trigger] self@[i] == if (bank_word(READ_LEVEL_BASE, 0) <= i
                        < bank_word(READ_LEVEL_BASE, bank as int)) || (bank_word(SET_LEVEL_BASE, 0) <= i
                        < bank_word(SET_LEVEL_BASE, bank as int)) || (bank_word(CLEAR_LEVEL_BASE, 0) <= i
                        < bank_word(CLEAR_LEVEL_BASE, bank as int)) {
                        settled(before)[i]
                    } else {
                        before[i]
                    },
            decreases LEVEL_BANKS - bank,
        {
            let set_at = SET_LEVEL_BASE + 4 * bank;
            let clear_at = CLEAR_LEVEL_BASE + 4 * bank;
            let read_at = READ_LEVEL_BASE + 4 * bank;
            let level = (self.read_u32(read_at) | self.read_u32(set_at)) & !self.read_u32(clear_at);
            self.write_u32(read_at, level);
            self.write_u32(set_at, 0);
            self.write_u32(clear_at, 0);
            bank = bank + 1;
        }
        assert(self@ =~= settled(before));
    }
}

} // verus!
