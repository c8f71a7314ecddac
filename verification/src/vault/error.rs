//! The vault's error codes.
use vstd::prelude::*;
use crate::numbering::custom_error_offset;

verus! {

/// Why a vault instruction was refused.
#[derive(Clone, Copy, Debug, PartialEq, Eq, Structural)]
pub enum ErrorCode {
    InvalidAmount,
    InsufficientBalance,
}

impl ErrorCode {
    /// The error's number: Anchor's custom error offset (6000) plus the
    /// variant's position.
    pub open spec fn number(self) -> u32 {
        match self {
            ErrorCode::InvalidAmount => 6000,
            ErrorCode::InsufficientBalance => 6001,
        }
    }

    /// The number reported to the caller for this error.
    pub fn code(&self) -> (c: u32)
        ensures
            c == self.number(),
    {
        let offset = custom_error_offset();
        match self {
            ErrorCode::InvalidAmount => offset,
            ErrorCode::InsufficientBalance => offset + 1,
        }
    }
}

} // verus!
