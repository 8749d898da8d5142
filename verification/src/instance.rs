//! The NVMC peripheral as the driver sees it.
//!
//! An [`Instance`] is one controller with its memory-mapped flash. Its
//! abstract state is the flash contents as a sequence of 32-bit words, the
//! access mode selected in the controller's configuration register, and a
//! busy flag mirroring the controller's ready register. Every method models
//! one volatile register or flash access; none may be elided or reordered,
//! which the exclusive `&mut` receiver enforces.

use vstd::prelude::*;

use crate::layout::ERASED_WORD;
use crate::layout::PAGE_SIZE_BYTES;
use crate::layout::PAGE_SIZE_WORDS;

verus! {

/// Access mode selected in the controller's configuration register.
#[derive(Clone, Copy, Debug, PartialEq, Eq)]
pub enum Mode {
    /// Flash is read-only; the hardware ignores writes and erases.
    ReadOnly,
    /// Word writes to the flash are enabled.
    WriteEnabled,
    /// Page erases are enabled.
    EraseEnabled,
}

/// The flash after erasing the page whose first word has index
/// `page_word_start`: every word of the page reads as the erased fill
/// value, every other word is unchanged.
pub open spec fn erase_page_words(flash: Seq<u32>, page_word_start: int) -> Seq<u32> {
    Seq::new(
        flash.len(),
        |i: int|
            if page_word_start <= i < page_word_start + PAGE_SIZE_WORDS {
                ERASED_WORD
            } else {
                flash[i]
            },
    )
}

/// One NVMC peripheral instance.
///
/// Triggering an erase or a write leaves the busy flag unconstrained, so a
/// caller can learn that the operation has finished only by polling through
/// [`Instance::wait_ready`] — the same protocol the hardware imposes.
pub trait Instance: Sized {
    /// The flash contents, one entry per 32-bit word.
    spec fn flash(&self) -> Seq<u32>;

    /// The access mode currently selected.
    spec fn mode(&self) -> Mode;

    /// True while a triggered operation is still in flight.
    spec fn busy(&self) -> bool;

    /// Select erase-enable in the configuration register.
    fn enable_erase(&mut self)
        requires
            !old(self).busy(),
        ensures
            final(self).mode() == Mode::EraseEnabled,
            final(self).flash() == old(self).flash(),
            !final(self).busy(),
    ;

    /// Select write-enable in the configuration register.
    fn enable_write(&mut self)
        requires
            !old(self).busy(),
        ensures
            final(self).mode() == Mode::WriteEnabled,
            final(self).flash() == old(self).flash(),
            !final(self).busy(),
    ;

    /// Select read-only in the configuration register.
    fn enable_read(&mut self)
        requires
            !old(self).busy(),
        ensures
            final(self).mode() == Mode::ReadOnly,
            final(self).flash() == old(self).flash(),
            !final(self).busy(),
    ;

    /// Write `page_address` to the erase trigger register, erasing the page
    /// that starts at that byte address.
    fn start_page_erase(&mut self, page_address: usize)
        requires
            !old(self).busy(),
            old(self).mode() == Mode::EraseEnabled,
            page_address % PAGE_SIZE_BYTES == 0,
            page_address + PAGE_SIZE_BYTES <= old(self).flash().len() * 4,
        ensures
            final(self).flash() == erase_page_words(old(self).flash(), page_address as int / 4),
            final(self).mode() == old(self).mode(),
    ;

    /// Program one word at byte address `address`. Flash cells only move
    /// from erased (1) to programmed (0): the stored word is the bitwise
    /// AND of the previous contents and `word`.
    fn write_word(&mut self, address: usize, word: u32)
        requires
            !old(self).busy(),
            old(self).mode() == Mode::WriteEnabled,
            address % 4 == 0,
            address / 4 < old(self).flash().len(),
        ensures
            final(self).flash() == old(self).flash().update(
                address as int / 4,
                old(self).flash()[address as int / 4] & word,
            ),
            final(self).mode() == old(self).mode(),
    ;

    /// Poll the ready register until the last triggered operation has
    /// finished. Blocking: the hardware offers no abort and no timeout.
    fn wait_ready(&mut self)
        ensures
            !final(self).busy(),
            final(self).flash() == old(self).flash(),
            final(self).mode() == old(self).mode(),
    ;
}

} // verus!
