//! Accepting an escrow: the taker pays the maker and receives the deposit.
use vstd::prelude::*;
use crate::address::{Address, le_bytes, seed_views};
use super::error::ErrorCode;
use super::state::{Escrow, escrow_signer_seeds, signer_seeds};

verus! {

/// What a take reads from its accounts.
#[derive(Clone, Copy, Debug)]
pub struct Take {
    /// The account that accepts the escrow and signs the payment.
    pub taker: Address,
    /// The maker's account, which receives token B and the closed vault's rent.
    pub maker: Address,
    /// The escrow's terms.
    pub escrow: Escrow,
    /// Decimals of the deposited mint (token A).
    pub mint_a_decimals: u8,
    /// Decimals of the requested mint (token B).
    pub mint_b_decimals: u8,
    /// Token A held by the escrow's vault.
    pub vault_amount: u64,
    /// Token B held by the taker's token B account.
    pub taker_ata_b_amount: u64,
}

/// The transfers that complete a take, in the order they are made:
/// 1. `payment` of token B from the taker's account to the maker's, signed by the taker;
/// 2. `release` of token A from the vault to the taker's account, signed by the escrow PDA;
/// 3. the vault is closed and its rent goes to the maker, signed by the escrow PDA.
pub struct TakePlan {
    pub payment: u64,
    pub payment_decimals: u8,
    pub release: u64,
    pub release_decimals: u8,
    /// The seeds with which the escrow PDA signs the release and the closing.
    pub signer_seeds: Vec<Vec<u8>>,
}

/// A take plan as values.
pub struct TakePlanView {
    pub payment: u64,
    pub payment_decimals: u8,
    pub release: u64,
    pub release_decimals: u8,
    pub signer_seeds: Seq<Seq<u8>>,
}

impl View for TakePlan {
    type V = TakePlanView;

    open spec fn view(&self) -> TakePlanView {
        TakePlanView {
            payment: self.payment,
            payment_decimals: self.payment_decimals,
            release: self.release,
            release_decimals: self.release_decimals,
            signer_seeds: seed_views(self.signer_seeds@),
        }
    }
}

/// What a take does: refuse the maker as taker, refuse an empty vault,
/// refuse a taker who holds less token B than asked; otherwise pay exactly
/// `receive` of token B and release the whole vault of token A.
pub open spec fn take_outcome(t: Take) -> Result<TakePlanView, ErrorCode> {
    if t.taker.key() == t.escrow.maker.key() {
        Err(ErrorCode::Unauthorized)
    } else if t.vault_amount == 0 {
        Err(ErrorCode::EscrowAlreadyClosed)
    } else if t.taker_ata_b_amount < t.escrow.receive {
        Err(ErrorCode::InsufficientBalance)
    } else {
        Ok(TakePlanView {
            payment: t.escrow.receive,
            payment_decimals: t.mint_b_decimals,
            release: t.vault_amount,
            release_decimals: t.mint_a_decimals,
            signer_seeds: escrow_signer_seeds(t.maker, t.escrow.seed, t.escrow.bump),
        })
    }
}

impl Take {
    /// Decides a take and returns the transfers that complete it.
    pub fn take(&self) -> (r: Result<TakePlan, ErrorCode>)
        ensures
            match r {
                Ok(plan) => take_outcome(*self) == Ok::<TakePlanView, ErrorCode>(plan@),
                Err(e) => take_outcome(*self) == Err::<TakePlanView, ErrorCode>(e),
            },
            r is Ok <==> (self.taker.bytes@ != self.escrow.maker.bytes@ && self.vault_amount > 0
                && self.taker_ata_b_amount >= self.escrow.receive),
            self.taker.bytes@ == self.escrow.maker.bytes@ ==> r matches Err(ErrorCode::Unauthorized),
            self.taker.bytes@ != self.escrow.maker.bytes@ && self.vault_amount == 0
                ==> r matches Err(ErrorCode::EscrowAlreadyClosed),
            self.taker.bytes@ != self.escrow.maker.bytes@ && self.vault_amount > 0
                && self.taker_ata_b_amount < self.escrow.receive
                ==> r matches Err(ErrorCode::InsufficientBalance),
            r matches Ok(p) ==> {
                &&& p.payment == self.escrow.receive
                &&& p.payment_decimals == self.mint_b_decimals
                &&& p.release == self.vault_amount
                &&& p.release_decimals == self.mint_a_decimals
                &&& seed_views(p.signer_seeds@) == seq![
                    seq![101u8, 115u8, 99u8, 114u8, 111u8, 119u8],
                    self.maker.bytes@,
                    le_bytes(self.escrow.seed),
                    seq![self.escrow.bump],
                ]
            },
    {
        if self.taker.same_as(&self.escrow.maker) {
            return Err(ErrorCode::Unauthorized);
        }
        if self.vault_amount == 0 {
            return Err(ErrorCode::EscrowAlreadyClosed);
        }
        if self.taker_ata_b_amount < self.escrow.receive {
            return Err(ErrorCode::InsufficientBalance);
        }
        let seeds = signer_seeds(&self.maker, self.escrow.seed, self.escrow.bump);
        let plan = TakePlan {
            payment: self.escrow.receive,
            payment_decimals: self.mint_b_decimals,
            release: self.vault_amount,
            release_decimals: self.mint_a_decimals,
            signer_seeds: seeds,
        };
        Ok(plan)
    }
}

} // verus!
