//! Changing the amount of token B that the maker asks for.
use vstd::prelude::*;
use crate::address::Address;
use super::error::ErrorCode;
use super::state::Escrow;

verus! {

/// What an update reads and writes.
#[derive(Clone, Copy, Debug)]
pub struct Update {
    /// The maker, who signs the update.
    pub maker: Address,
    /// The escrow whose terms change.
    pub escrow: Escrow,
}

/// The escrow after asking for `receive` of token B: refused when `receive`
/// is zero or equal to the current terms; otherwise only `receive` changes.
pub open spec fn updated_escrow(e: Escrow, receive: u64) -> Result<Escrow, ErrorCode> {
    if receive == 0 {
        Err(ErrorCode::InvalidAmount)
    } else if receive == e.receive {
        Err(ErrorCode::InvalidTerms)
    } else {
        Ok(Escrow { receive, ..e })
    }
}

impl Update {
    /// Sets the amount of token B that the maker asks for.
    pub fn update(&mut self, receive: u64) -> (r: Result<(), ErrorCode>)
        ensures
            final(self).maker == old(self).maker,
            match updated_escrow(old(self).escrow, receive) {
                Ok(e) => r is Ok && final(self).escrow == e,
                Err(err) => r == Err::<(), ErrorCode>(err) && final(self).escrow == old(self).escrow,
            },
            r is Ok <==> (receive != 0 && receive != old(self).escrow.receive),
            receive == 0 ==> r == Err::<(), ErrorCode>(ErrorCode::InvalidAmount),
            receive != 0 && receive == old(self).escrow.receive
                ==> r == Err::<(), ErrorCode>(ErrorCode::InvalidTerms),
            r is Ok ==> {
                &&& final(self).escrow.receive == receive
                &&& final(self).escrow.seed == old(self).escrow.seed
                &&& final(self).escrow.maker == old(self).escrow.maker
                &&& final(self).escrow.mint_a == old(self).escrow.mint_a
                &&& final(self).escrow.mint_b == old(self).escrow.mint_b
                &&& final(self).escrow.bump == old(self).escrow.bump
            },
            r is Err ==> final(self).escrow == old(self).escrow,
    {
        if receive == 0 {
            return Err(ErrorCode::InvalidAmount);
        }
        if receive == self.escrow.receive {
            return Err(ErrorCode::InvalidTerms);
        }
        self.escrow.receive = receive;
        Ok(())
    }
}

} // verus!
