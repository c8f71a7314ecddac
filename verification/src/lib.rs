//! Verified decision logic of a PDA-controlled lamport vault and of a
//! maker/taker token escrow: each instruction is a function from the values
//! it reads to either an error code or the exact transfers to perform.
pub mod address;
pub mod escrow;
mod numbering;
pub mod vault;
