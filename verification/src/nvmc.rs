//! The NVMC driver: bounds-checked page erases and block writes.
//!
//! [`Nvmc`] wraps one peripheral instance. Erasing a page consumes the
//! handle and yields an [`ErasedFlashPage`] session scoped to that page;
//! the session owns the peripheral until it is released, so only one page
//! can be operated on at a time, by construction. The session tracks how
//! often each of the page's eight blocks has been written since the erase
//! and refuses a write once a block's endurance budget is spent.

use vstd::prelude::*;

use crate::instance::erase_page_words;
use crate::instance::Instance;
use crate::instance::Mode;
use crate::layout::BLOCKS_PER_PAGE;
use crate::layout::BLOCK_SIZE_BYTES;
use crate::layout::BLOCK_SIZE_WORDS;
use crate::layout::ERASED_BYTE;
use crate::layout::ERASED_WORD;
use crate::layout::FLASH_SIZE_WORDS;
use crate::layout::MAX_BLOCK_WRITES;
use crate::layout::NUMBER_OF_PAGES;
use crate::layout::PAGE_SIZE_BYTES;
use crate::layout::PAGE_SIZE_WORDS;
use crate::words::byte_of_word;
use crate::words::byte_or_fill;
use crate::words::lemma_word_round_trip;
use crate::words::packed_words;
use crate::words::pack_word;

verus! {

/// NVMC errors.
#[derive(Debug, Copy, Clone, PartialEq, Eq)]
pub enum Error {
    /// An operation was out of bounds.
    OutOfBounds,
    /// The maximum number of writes has been reached for a block.
    MaxBlockWritesReached,
}

/// The flash after programming `words` one after another starting at word
/// index `start`: each programmed cell holds the bitwise AND of its old
/// contents and the written word, every other cell is unchanged.
pub open spec fn program_words(flash: Seq<u32>, start: int, words: Seq<u32>) -> Seq<u32> {
    Seq::new(
        flash.len(),
        |i: int|
            if start <= i < start + words.len() {
                flash[i] & words[i - start]
            } else {
                flash[i]
            },
    )
}

/// The number of bytes a block write stores: the input length, capped at
/// the block size. Excess input bytes are silently ignored.
pub open spec fn effective_len(len: int) -> int {
    if len <= BLOCK_SIZE_BYTES as int {
        len
    } else {
        BLOCK_SIZE_BYTES as int
    }
}

/// Programming words into fully erased cells stores them exactly, since
/// the erased fill value is all ones.
pub proof fn lemma_program_erased(flash: Seq<u32>, start: int, words: Seq<u32>)
    requires
        0 <= start,
        start + words.len() <= flash.len(),
        forall|i: int| start <= i < start + words.len() ==> flash[i] == ERASED_WORD,
    ensures
        forall|i: int|
            0 <= i < words.len() ==> program_words(flash, start, words)[start + i] == words[i],
{
    assert forall|i: int|
        0 <= i < words.len() implies program_words(flash, start, words)[start + i] == words[i] by {
        let w = words[i];
        assert(ERASED_WORD & w == w) by (bit_vector);
    }
}

/// Reading back after programming a byte buffer into fully erased cells:
/// every stored byte equals the corresponding input byte, and the padding
/// of the trailing partial word reads as the erased fill value. Byte `j`
/// of the buffer lands in byte `j % 4` of the word at `start + j / 4`.
pub proof fn lemma_erased_block_read_back(flash: Seq<u32>, start: int, bytes: Seq<u8>)
    requires
        0 <= start,
        start + packed_words(bytes).len() <= flash.len(),
        forall|i: int| start <= i < start + packed_words(bytes).len() ==> flash[i] == ERASED_WORD,
    ensures
        forall|j: int|
            0 <= j < 4 * packed_words(bytes).len() ==> byte_of_word(
                program_words(flash, start, packed_words(bytes))[start + j / 4],
                j % 4,
            ) == byte_or_fill(bytes, j),
{
    lemma_program_erased(flash, start, packed_words(bytes));
    assert forall|j: int| 0 <= j < 4 * packed_words(bytes).len() implies byte_of_word(
        program_words(flash, start, packed_words(bytes))[start + j / 4],
        j % 4,
    ) == byte_or_fill(bytes, j) by {
        let ws = packed_words(bytes);
        let w = j / 4;
        let k = j % 4;
        assert(j == 4 * w + k && 0 <= k < 4 && 0 <= w < ws.len());
        assert(program_words(flash, start, ws)[start + w] == ws[w]);
        let b0 = byte_or_fill(bytes, 4 * w);
        let b1 = byte_or_fill(bytes, 4 * w + 1);
        let b2 = byte_or_fill(bytes, 4 * w + 2);
        let b3 = byte_or_fill(bytes, 4 * w + 3);
        lemma_word_round_trip(b0, b1, b2, b3);
        if k == 0 {
            assert(byte_of_word(ws[w], 0) == b0);
        } else if k == 1 {
            assert(byte_of_word(ws[w], 1) == b1);
        } else if k == 2 {
            assert(byte_of_word(ws[w], 2) == b2);
        } else {
            assert(byte_of_word(ws[w], 3) == b3);
        }
    }
}

/// Helper struct to check bounds and generate addresses for flash pages.
#[derive(Debug, Copy, Clone)]
pub struct FlashPage(pub u8);

impl FlashPage {
    /// Create a flash page from a flash page index; out of range indexes
    /// are refused, never clamped.
    pub fn from_index(page_index: usize) -> (r: Result<Self, Error>)
        ensures
            page_index < NUMBER_OF_PAGES ==> r == Ok::<FlashPage, Error>(
                FlashPage(page_index as u8),
            ),
            page_index >= NUMBER_OF_PAGES ==> r == Err::<FlashPage, Error>(Error::OutOfBounds),
    {
        if page_index < NUMBER_OF_PAGES {
            Ok(Self(page_index as u8))
        } else {
            Err(Error::OutOfBounds)
        }
    }

    /// The byte address of the first byte of the flash page.
    pub fn to_address(&self) -> (r: usize)
        ensures
            r == self.0 * PAGE_SIZE_BYTES,
    {
        self.0 as usize * PAGE_SIZE_BYTES
    }
}

/// Helper struct to track the writes to one block since the last erase.
#[derive(Debug, Copy, Clone)]
pub struct FlashBlock {
    n_writes: u8,
}

impl FlashBlock {
    /// The number of writes performed on the block since the last erase.
    pub closed spec fn writes(&self) -> u8 {
        self.n_writes
    }

    /// A block of a freshly erased page: no writes performed yet.
    pub fn new() -> (r: Self)
        ensures
            r.writes() == 0,
    {
        Self { n_writes: 0 }
    }

    /// Spend one write of the block's endurance budget. Returns `Ok` and
    /// counts the write when the budget allows one more, and refuses with
    /// `MaxBlockWritesReached` once it is exhausted.
    pub fn write_access(&mut self) -> (r: Result<(), Error>)
        ensures
            old(self).writes() < MAX_BLOCK_WRITES ==> r == Ok::<(), Error>(())
                && final(self).writes() == old(self).writes() + 1,
            old(self).writes() >= MAX_BLOCK_WRITES ==> r == Err::<(), Error>(
                Error::MaxBlockWritesReached,
            ) && *final(self) == *old(self),
    {
        if (self.n_writes as usize) < MAX_BLOCK_WRITES {
            self.n_writes = self.n_writes + 1;
            Ok(())
        } else {
            Err(Error::MaxBlockWritesReached)
        }
    }
}

/// Interface to an NVMC instance.
///
/// This is a very simple interface that comes with the following
/// limitations: the instance may only operate on one flash page at a time,
/// even though the underlying peripheral allows for parallel access.
pub struct Nvmc<T>(T);

impl<T: Instance> Nvmc<T> {
    /// The flash contents of the wrapped instance.
    pub closed spec fn flash(&self) -> Seq<u32> {
        self.0.flash()
    }

    /// The access mode of the wrapped instance.
    pub closed spec fn mode(&self) -> Mode {
        self.0.mode()
    }

    /// Whether the wrapped instance still has an operation in flight.
    pub closed spec fn busy(&self) -> bool {
        self.0.busy()
    }

    /// The handle is idle and models the whole flash of the chip.
    pub open spec fn inv(&self) -> bool {
        &&& !self.busy()
        &&& self.flash().len() == FLASH_SIZE_WORDS
    }

    /// Create a new `Nvmc` from an NVMC instance.
    pub fn new(nvmc: T) -> (r: Self)
        ensures
            r.flash() == nvmc.flash(),
            r.mode() == nvmc.mode(),
            r.busy() == nvmc.busy(),
    {
        Self(nvmc)
    }

    /// Return the raw interface to the underlying NVMC peripheral.
    pub fn free(self) -> (r: T)
        ensures
            r.flash() == self.flash(),
            r.mode() == self.mode(),
            r.busy() == self.busy(),
    {
        self.0
    }

    /// Erases a page based on its page index, where `page_index` is
    /// limited to `[0, NUMBER_OF_PAGES)`.
    ///
    /// On success the handle moves into the returned session, which holds
    /// the exclusive right to operate on the peripheral until it is
    /// released; every word of the page then reads as erased and every
    /// block's write counter is zero. An out of range index returns the
    /// handle untouched beside the error: no register access happens.
    pub fn erase_page(self, page_index: usize) -> (r: Result<
        ErasedFlashPage<T>,
        (Nvmc<T>, Error),
    >)
        requires
            self.inv(),
        ensures
            page_index >= NUMBER_OF_PAGES ==> (r matches Err(e) && e.0 == self && e.1
                == Error::OutOfBounds),
            page_index < NUMBER_OF_PAGES ==> (r matches Ok(s) && {
                &&& s.inv()
                &&& s.page_start() == page_index * PAGE_SIZE_BYTES
                &&& s.flash() == erase_page_words(
                    self.flash(),
                    page_index * PAGE_SIZE_WORDS as int,
                )
                &&& forall|b: int| 0 <= b < BLOCKS_PER_PAGE ==> s.counters()[b] == 0
            }),
    {
        let page = match FlashPage::from_index(page_index) {
            Ok(page) => page,
            Err(e) => {
                return Err((self, e));
            },
        };
        let flash_page_address = page.to_address();
        assert(flash_page_address % PAGE_SIZE_BYTES == 0) by (nonlinear_arith)
            requires
                flash_page_address == page.0 * PAGE_SIZE_BYTES,
                PAGE_SIZE_BYTES == 4096,
        ;
        let mut nvmc = self;

        // Enable erase
        nvmc.0.enable_erase();

        // Erase page
        nvmc.0.start_page_erase(flash_page_address);

        // Wait for operation to complete
        nvmc.0.wait_ready();

        // Disable erase
        nvmc.0.enable_read();

        assert(flash_page_address as int / 4 == page_index * PAGE_SIZE_WORDS as int)
            by (nonlinear_arith)
            requires
                flash_page_address == page_index * PAGE_SIZE_BYTES,
                PAGE_SIZE_BYTES == 4096,
                PAGE_SIZE_WORDS == 1024,
        ;
        Ok(ErasedFlashPage::new(nvmc, flash_page_address))
    }
}

/// Type indicating an erased flash page; it is given out by
/// [`Nvmc::erase_page`], which is the only way to reset the write
/// counters: constructing a session by hand does not erase anything.
pub struct ErasedFlashPage<T> {
    /// Each block within the page.
    blocks: [FlashBlock; 8],
    /// Physical byte address of the start of the flash page.
    page_start: usize,
    /// Access to the NVMC.
    nvmc: Nvmc<T>,
}

impl<T: Instance> ErasedFlashPage<T> {
    /// The flash contents of the owned instance.
    pub closed spec fn flash(&self) -> Seq<u32> {
        self.nvmc.flash()
    }

    /// The access mode of the owned instance.
    pub closed spec fn mode(&self) -> Mode {
        self.nvmc.mode()
    }

    /// Whether the owned instance still has an operation in flight.
    pub closed spec fn busy(&self) -> bool {
        self.nvmc.busy()
    }

    /// The byte address of the first byte of the session's page.
    pub closed spec fn page_start(&self) -> int {
        self.page_start as int
    }

    /// The per-block write counters, block 0 first.
    pub closed spec fn counters(&self) -> Seq<u8> {
        self.blocks@.map_values(|b: FlashBlock| b.writes())
    }

    /// The first word index of block `block_id` of the session's page.
    pub open spec fn block_word_start(&self, block_id: int) -> int {
        self.page_start() / 4 + block_id * BLOCK_SIZE_WORDS
    }

    /// The peripheral is idle and read-only and the session's page lies
    /// within the flash.
    pub open spec fn inv(&self) -> bool {
        &&& !self.busy()
        &&& self.mode() == Mode::ReadOnly
        &&& self.flash().len() == FLASH_SIZE_WORDS
        &&& self.page_start() % (PAGE_SIZE_BYTES as int) == 0
        &&& self.page_start() + PAGE_SIZE_BYTES <= 4 * self.flash().len()
        &&& self.counters().len() == BLOCKS_PER_PAGE
    }

    /// Wrap an idle controller handle into a session for the page that
    /// starts at `page_start`, with all write counters zero.
    pub fn new(nvmc: Nvmc<T>, page_start: usize) -> (r: Self)
        requires
            !nvmc.busy(),
            nvmc.mode() == Mode::ReadOnly,
            nvmc.flash().len() == FLASH_SIZE_WORDS,
            page_start % PAGE_SIZE_BYTES == 0,
            page_start + PAGE_SIZE_BYTES <= 4 * nvmc.flash().len(),
        ensures
            r.inv(),
            r.flash() == nvmc.flash(),
            r.page_start() == page_start,
            forall|b: int| 0 <= b < BLOCKS_PER_PAGE ==> r.counters()[b] == 0,
    {
        Self {
            blocks: [
                // Each block that we can write to
                FlashBlock::new(),
                FlashBlock::new(),
                FlashBlock::new(),
                FlashBlock::new(),
                FlashBlock::new(),
                FlashBlock::new(),
                FlashBlock::new(),
                FlashBlock::new(),
            ],
            page_start,
            nvmc,
        }
    }

    /// The number of writes spent on block `block_id` since the erase.
    pub fn block_writes(&self, block_id: usize) -> (r: u8)
        requires
            block_id < BLOCKS_PER_PAGE,
        ensures
            r == self.counters()[block_id as int],
    {
        self.blocks[block_id].n_writes
    }

    /// Hand the underlying controller handle back, ending the session.
    pub fn release(self) -> (r: Nvmc<T>)
        ensures
            r.flash() == self.flash(),
            r.mode() == self.mode(),
            r.busy() == self.busy(),
    {
        self.nvmc
    }

    /// Write a buffer of up to `BLOCK_SIZE_BYTES` bytes to block
    /// `block_id` of the session's page. The return indicates how many
    /// bytes were written from `buf`, i.e. `Ok(bytes_written)`: excess
    /// input bytes are silently ignored. A trailing partial word is padded
    /// with the erased fill value. One write of the block's endurance
    /// budget is spent whenever the write is attempted, even when the
    /// buffer is truncated; a rejected call spends nothing and leaves the
    /// flash untouched.
    pub fn write_block(&mut self, block_id: usize, buf: &[u8]) -> (r: Result<usize, Error>)
        requires
            old(self).inv(),
        ensures
            final(self).inv(),
            final(self).page_start() == old(self).page_start(),
            block_id >= BLOCKS_PER_PAGE ==> r == Err::<usize, Error>(Error::OutOfBounds)
                && *final(self) == *old(self),
            block_id < BLOCKS_PER_PAGE && old(self).counters()[block_id as int]
                >= MAX_BLOCK_WRITES ==> r == Err::<usize, Error>(Error::MaxBlockWritesReached)
                && *final(self) == *old(self),
            block_id < BLOCKS_PER_PAGE && old(self).counters()[block_id as int]
                < MAX_BLOCK_WRITES ==> ({
                let n = effective_len(buf@.len() as int);
                &&& r == Ok::<usize, Error>(n as usize)
                &&& final(self).flash() == program_words(
                    old(self).flash(),
                    old(self).block_word_start(block_id as int),
                    packed_words(buf@.take(n)),
                )
                &&& final(self).counters() == old(self).counters().update(
                    block_id as int,
                    (old(self).counters()[block_id as int] + 1) as u8,
                )
            }),
    {
        if block_id > 7 {
            return Err(Error::OutOfBounds);
        }
        // Check so the block can still be written; the slot is spent once
        // the write is attempted.
        let mut block = self.blocks[block_id];
        match block.write_access() {
            Ok(()) => (),
            Err(e) => {
                return Err(e);
            },
        }
        self.blocks[block_id] = block;
        proof {
            assert(self.counters() =~= old(self).counters().update(
                block_id as int,
                (old(self).counters()[block_id as int] + 1) as u8,
            ));
        }

        // Enable write
        self.nvmc.0.enable_write();

        let base: usize = self.page_start + block_id * BLOCK_SIZE_BYTES;
        let size: usize = if buf.len() < BLOCK_SIZE_BYTES {
            buf.len()
        } else {
            BLOCK_SIZE_BYTES
        };
        let full_words: usize = size / 4;

        let ghost flash0: Seq<u32> = self.nvmc.flash();
        let ghost ws: Seq<u32> = packed_words(buf@.take(size as int));
        let ghost start: int = base as int / 4;
        let ghost blocks0: Seq<FlashBlock> = self.blocks@;
        let ghost page_start0: usize = self.page_start;

        assert(base % 4 == 0 && base as int / 4 == self.page_start() / 4 + block_id
            * BLOCK_SIZE_WORDS) by (nonlinear_arith)
            requires
                base == page_start0 + block_id * BLOCK_SIZE_BYTES,
                page_start0 as int % (PAGE_SIZE_BYTES as int) == 0,
                self.page_start() == page_start0,
                0 <= block_id < 8,
                PAGE_SIZE_BYTES == 4096,
                BLOCK_SIZE_BYTES == 512,
                BLOCK_SIZE_WORDS == 128,
        ;

        // Write the full words of the buffer
        let mut w: usize = 0;
        while w < full_words
            invariant
                w <= full_words,
                full_words == size / 4,
                size <= buf@.len(),
                size <= BLOCK_SIZE_BYTES,
                base % 4 == 0,
                start == base as int / 4,
                0 <= start,
                start + BLOCK_SIZE_WORDS <= flash0.len(),
                ws == packed_words(buf@.take(size as int)),
                ws.len() == (size + 3) / 4,
                self.nvmc.0.mode() == Mode::WriteEnabled,
                !self.nvmc.0.busy(),
                self.nvmc.0.flash() == program_words(flash0, start, ws.take(w as int)),
                flash0.len() == FLASH_SIZE_WORDS,
                self.blocks@ == blocks0,
                self.page_start == page_start0,
            decreases full_words - w,
        {
            // Create a word from each 4-byte chunk
            let word = pack_word(buf[4 * w], buf[4 * w + 1], buf[4 * w + 2], buf[4 * w + 3]);
            proof {
                assert(ws[w as int] == word) by {
                    assert(buf@.take(size as int)[4 * w as int] == buf@[4 * w as int]);
                    assert(buf@.take(size as int)[4 * w as int + 1] == buf@[4 * w as int + 1]);
                    assert(buf@.take(size as int)[4 * w as int + 2] == buf@[4 * w as int + 2]);
                    assert(buf@.take(size as int)[4 * w as int + 3] == buf@[4 * w as int + 3]);
                }
            }

            // Write
            self.nvmc.0.write_word(base + 4 * w, word);

            // Wait for operation to complete
            self.nvmc.0.wait_ready();

            proof {
                assert(self.nvmc.0.flash() =~= program_words(flash0, start, ws.take(w as int + 1)));
            }
            w = w + 1;
        }

        // Write the trailing partial word, padded with the erased value
        let remainder: usize = size % 4;
        if remainder > 0 {
            let b0 = buf[4 * full_words];
            let b1 = if remainder > 1 {
                buf[4 * full_words + 1]
            } else {
                ERASED_BYTE
            };
            let b2 = if remainder > 2 {
                buf[4 * full_words + 2]
            } else {
                ERASED_BYTE
            };
            let word = pack_word(b0, b1, b2, ERASED_BYTE);
            proof {
                assert(ws.len() == full_words + 1);
                assert(ws[full_words as int] == word);
            }

            // Write
            self.nvmc.0.write_word(base + 4 * full_words, word);

            // Wait for operation to complete
            self.nvmc.0.wait_ready();

            proof {
                assert(self.nvmc.0.flash() =~= program_words(
                    flash0,
                    start,
                    ws.take(full_words as int + 1),
                ));
                assert(ws.take(full_words as int + 1) =~= ws);
            }
        } else {
            proof {
                assert(ws.take(full_words as int) =~= ws);
            }
        }

        // Disable write
        self.nvmc.0.enable_read();

        Ok(size)
    }
}

} // verus!
