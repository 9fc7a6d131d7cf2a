//! Decoding of transaction instruction streams and account snapshots into
//! typed events, with the ordering and binary layouts proved in Verus.

pub mod error;
pub mod instruction;
pub mod pubkey;
pub mod wire;
pub mod program_handler;
pub mod programs;
