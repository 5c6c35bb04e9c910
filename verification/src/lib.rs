//! A functional simulator core for a small 32-bit CPU with a memory-mapped,
//! double-buffered raster display.
//!
//! The crate holds the typed register bank, the segmented memory with its
//! display region, the program image, the simulator lifecycle and the
//! session that decides which run owns the current simulator. Every
//! executable function carries a contract over a mathematical model of the
//! machine state.

pub mod conversion;
pub mod error;
pub mod layout;
pub mod memory;
pub mod program;
pub mod register_bank;
pub mod session;
pub mod simulator;
