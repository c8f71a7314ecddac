//! The escrow's error codes.
use vstd::prelude::*;
use crate::numbering::custom_error_offset;

verus! {

/// Why an escrow instruction was refused.
#[derive(Clone, Copy, Debug, PartialEq, Eq, Structural)]
pub enum ErrorCode {
    InvalidAmount,
    Unauthorized,
    InsufficientBalance,
    InvalidMint,
    EscrowAlreadyClosed,
    InvalidTerms,
}

impl ErrorCode {
    /// The error's number: Anchor's custom error offset (6000) plus the
    /// variant's position.
    pub open spec fn number(self) -> u32 {
        match self {
            ErrorCode::InvalidAmount => 6000,
            ErrorCode::Unauthorized => 6001,
            ErrorCode::InsufficientBalance => 6002,
            ErrorCode::InvalidMint => 6003,
            ErrorCode::EscrowAlreadyClosed => 6004,
            ErrorCode::InvalidTerms => 6005,
        }
    }

    /// The number reported to the caller for this error.
    pub fn code(&self) -> (c: u32)
        ensures
            c == self.number(),
    {
        let offset = custom_error_offset();
        match self {
            ErrorCode::InvalidAmount => offset,
            ErrorCode::Unauthorized => offset + 1,
            ErrorCode::InsufficientBalance => offset + 2,
            ErrorCode::InvalidMint => offset + 3,
            ErrorCode::EscrowAlreadyClosed => offset + 4,
            ErrorCode::InvalidTerms => offset + 5,
        }
    }

    /// The human-readable message of this error.
    pub fn message(&self) -> (m: &'static str)
        ensures
            m@ == match self {
                ErrorCode::InvalidAmount => "Amount must be greater than zero"@,
                ErrorCode::Unauthorized => "Unauthorized access to the escrow"@,
                ErrorCode::InsufficientBalance => "Token balance is insufficient"@,
                ErrorCode::InvalidMint => "Invalid token mint"@,
                ErrorCode::EscrowAlreadyClosed => "Escrow has already been closed"@,
                ErrorCode::InvalidTerms => "New escrow terms are not different"@,
            },
    {
        match self {
            ErrorCode::InvalidAmount => "Amount must be greater than zero",
            ErrorCode::Unauthorized => "Unauthorized access to the escrow",
            ErrorCode::InsufficientBalance => "Token balance is insufficient",
            ErrorCode::InvalidMint => "Invalid token mint",
            ErrorCode::EscrowAlreadyClosed => "Escrow has already been closed",
            ErrorCode::InvalidTerms => "New escrow terms are not different",
        }
    }
}

} // verus!
