//! A lamport vault owned by a PDA of its user: the user withdraws what is
//! above the rent-exempt reserve, and closing returns everything.
pub mod close;
pub mod error;
pub mod laws;
pub mod state;
pub mod withdraw;
