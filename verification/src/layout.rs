//! Memory layout of the flash: page and block geometry, the erased fill
//! value, and the per-block endurance budget.

use vstd::prelude::*;

verus! {

/// Size in bytes of one erasable flash page.
pub const PAGE_SIZE_BYTES: usize = 4096;

/// Size in bytes of one writable block; eight blocks make up a page.
pub const BLOCK_SIZE_BYTES: usize = PAGE_SIZE_BYTES / 8;

/// Number of 32-bit words in one page.
pub const PAGE_SIZE_WORDS: usize = PAGE_SIZE_BYTES / 4;

/// Number of 32-bit words in one block.
pub const BLOCK_SIZE_WORDS: usize = BLOCK_SIZE_BYTES / 4;

/// Number of writable blocks in one page.
pub const BLOCKS_PER_PAGE: usize = 8;

/// The number of flash pages of the target chip variant.
pub const NUMBER_OF_PAGES: usize = 256;

/// Total number of 32-bit words in the flash.
pub const FLASH_SIZE_WORDS: usize = NUMBER_OF_PAGES * PAGE_SIZE_WORDS;

/// Maximum number of write operations to one block between two erases.
pub const MAX_BLOCK_WRITES: usize = 181;

/// The value an erased flash word reads as: all bits set.
pub const ERASED_WORD: u32 = 0xffff_ffff;

/// The value an erased flash byte reads as: all bits set.
pub const ERASED_BYTE: u8 = 0xff;

} // verus!
