//! A register-level model of the NVMC peripheral.
//!
//! [`SimNvmc`] keeps the flash contents in memory and implements
//! [`Instance`] exactly as the trait's contracts describe the hardware:
//! erases fill a page with the erased value, writes AND a word into a cell,
//! and a triggered operation clears the ready flag until it is polled. It
//! stands in for the memory-mapped peripheral on a host machine and lets a
//! caller read programmed words back.

use vstd::prelude::*;

use crate::instance::erase_page_words;
use crate::instance::Instance;
use crate::instance::Mode;
use crate::layout::ERASED_WORD;
use crate::layout::FLASH_SIZE_WORDS;
use crate::layout::PAGE_SIZE_WORDS;

verus! {

/// In-memory model of one NVMC peripheral with its flash.
pub struct SimNvmc {
    /// The flash contents, one entry per 32-bit word.
    words: Vec<u32>,
    /// The access mode selected in the configuration register.
    config: Mode,
    /// The ready register: true when no operation is in flight.
    ready: bool,
}

impl SimNvmc {
    /// A freshly manufactured chip: every flash word erased, the
    /// controller idle and read-only.
    pub fn new() -> (r: Self)
        ensures
            r.flash().len() == FLASH_SIZE_WORDS,
            forall|i: int| 0 <= i < r.flash().len() ==> r.flash()[i] == ERASED_WORD,
            r.mode() == Mode::ReadOnly,
            !r.busy(),
    {
        let mut words: Vec<u32> = Vec::new();
        let mut i: usize = 0;
        while i < FLASH_SIZE_WORDS
            invariant
                i <= FLASH_SIZE_WORDS,
                words@.len() == i,
                forall|j: int| 0 <= j < i ==> words@[j] == ERASED_WORD,
            decreases FLASH_SIZE_WORDS - i,
        {
            words.push(ERASED_WORD);
            i = i + 1;
        }
        SimNvmc { words, config: Mode::ReadOnly, ready: true }
    }

    /// Read the word at byte address `address` back from the flash.
    pub fn read_word(&self, address: usize) -> (r: u32)
        requires
            address % 4 == 0,
            address / 4 < self.flash().len(),
        ensures
            r == self.flash()[address as int / 4],
    {
        self.words[address / 4]
    }
}

impl Instance for SimNvmc {
    closed spec fn flash(&self) -> Seq<u32> {
        self.words@
    }

    closed spec fn mode(&self) -> Mode {
        self.config
    }

    closed spec fn busy(&self) -> bool {
        !self.ready
    }

    fn enable_erase(&mut self) {
        self.config = Mode::EraseEnabled;
    }

    fn enable_write(&mut self) {
        self.config = Mode::WriteEnabled;
    }

    fn enable_read(&mut self) {
        self.config = Mode::ReadOnly;
    }

    fn start_page_erase(&mut self, page_address: usize) {
        let start: usize = page_address / 4;
        let mut i: usize = 0;
        while i < PAGE_SIZE_WORDS
            invariant
                i <= PAGE_SIZE_WORDS,
                start + PAGE_SIZE_WORDS <= self.words@.len(),
                start == page_address as int / 4,
                self.words@.len() == old(self).words@.len(),
                forall|j: int|
                    0 <= j < self.words@.len() && !(start <= j < start + i) ==> self.words@[j]
                        == old(self).words@[j],
                forall|j: int| start <= j < start + i ==> self.words@[j] == ERASED_WORD,
                self.config == old(self).config,
                self.ready == old(self).ready,
            decreases PAGE_SIZE_WORDS - i,
        {
            self.words[start + i] = ERASED_WORD;
            i = i + 1;
        }
        self.ready = false;
        proof {
            assert(self.words@ =~= erase_page_words(old(self).words@, page_address as int / 4));
        }
    }

    fn write_word(&mut self, address: usize, word: u32) {
        let i: usize = address / 4;
        let previous: u32 = self.words[i];
        self.words[i] = previous & word;
        self.ready = false;
    }

    fn wait_ready(&mut self) {
        // The model completes every operation by the time it is polled;
        // real hardware spins here until the ready register reads as set.
        self.ready = true;
    }
}

} // verus!
