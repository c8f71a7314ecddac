//! A token-for-token escrow: the maker deposits token A in a vault owned by
//! the escrow PDA and names the amount of token B wanted; a taker pays that
//! amount and receives the whole deposit.
pub mod error;
pub mod laws;
pub mod state;
pub mod take;
pub mod update;
