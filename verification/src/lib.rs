//! Driver core for an opcode-based secure-element chip.
//!
//! The crate resolves register addresses in the device's zone/block/offset
//! memory map, packs and unpacks the paired two-byte configuration fields
//! that share one four-byte device register, and runs the retrying
//! send/receive loop that frames commands, manages the device's wake/sleep
//! power state and classifies responses.  The physical bus is represented by
//! a scripted transport, so every exchange the controller makes is recorded
//! and can be replayed deterministically.

pub mod address;
pub mod command;
pub mod config;
pub mod digest;
pub mod ecc;
pub mod error;
pub mod retry;
pub mod transport;
