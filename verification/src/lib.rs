//! Driver for a non-volatile memory controller (NVMC) peripheral.
//!
//! The driver exposes bounds-checked page erases and word-aligned block
//! writes over memory-mapped flash. A page erase yields a session value
//! scoped to that page; the session tracks per-block write counts so that
//! the flash's endurance budget is never exceeded between erases.
//!
//! The peripheral itself stands behind the [`instance::Instance`] trait,
//! whose contracts describe the flash as a sequence of 32-bit words; the
//! [`sim::SimNvmc`] type is a register-level model of the peripheral that
//! satisfies those contracts and lets the driver run on a host machine.

pub mod instance;
pub mod layout;
pub mod nvmc;
pub mod sim;
pub mod words;

pub use instance::Instance;
pub use instance::Mode;
pub use layout::BLOCKS_PER_PAGE;
pub use layout::BLOCK_SIZE_BYTES;
pub use layout::ERASED_BYTE;
pub use layout::ERASED_WORD;
pub use layout::MAX_BLOCK_WRITES;
pub use layout::NUMBER_OF_PAGES;
pub use layout::PAGE_SIZE_BYTES;
pub use nvmc::ErasedFlashPage;
pub use nvmc::Error;
pub use nvmc::FlashBlock;
pub use nvmc::FlashPage;
pub use nvmc::Nvmc;
pub use sim::SimNvmc;
