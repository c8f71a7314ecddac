//! Withdrawing lamports from the vault while keeping its rent-exempt reserve.
use vstd::prelude::*;
use crate::address::{Address, seed_views};
use super::error::ErrorCode;
use super::state::{LamportTransfer, LamportTransferView, VaultState, vault_seeds, vault_signer_seeds};

verus! {

/// What a withdrawal reads from its accounts and the runtime.
#[derive(Clone, Copy, Debug)]
pub struct Withdraw {
    /// The vault's owner, who signs and receives the lamports.
    pub user: Address,
    pub vault_state: VaultState,
    /// The lamports the vault holds.
    pub vault_lamports: u64,
}

/// What a withdrawal does: refuse a zero amount; refuse an amount that would
/// take the vault below `rent_exempt`; otherwise move exactly `amount`.
pub open spec fn withdraw_outcome(w: Withdraw, amount: u64, rent_exempt: u64) -> Result<LamportTransferView, ErrorCode> {
    if amount == 0 {
        Err(ErrorCode::InvalidAmount)
    } else if amount + rent_exempt > w.vault_lamports {
        Err(ErrorCode::InsufficientBalance)
    } else {
        Ok(LamportTransferView {
            lamports: amount,
            signer_seeds: vault_signer_seeds(w.user, w.vault_state.vault_bump),
        })
    }
}

impl Withdraw {
    /// Decides a withdrawal of `amount` lamports, where `rent_exempt` is the
    /// balance that keeps the empty vault rent-exempt (what the rent sysvar
    /// gives as the minimum balance of a zero-length account), and returns
    /// the transfer from the vault to the user.
    pub fn withdraw(&self, amount: u64, rent_exempt: u64) -> (r: Result<LamportTransfer, ErrorCode>)
        ensures
            match r {
                Ok(t) => withdraw_outcome(*self, amount, rent_exempt) == Ok::<LamportTransferView, ErrorCode>(t@),
                Err(e) => withdraw_outcome(*self, amount, rent_exempt) == Err::<LamportTransferView, ErrorCode>(e),
            },
            r is Ok <==> (amount > 0 && amount + rent_exempt <= self.vault_lamports),
            r is Ok ==> self.vault_lamports - amount >= rent_exempt,
            amount == 0 ==> r matches Err(ErrorCode::InvalidAmount),
            amount > 0 && amount + rent_exempt > self.vault_lamports
                ==> r matches Err(ErrorCode::InsufficientBalance),
            r matches Ok(t) ==> {
                &&& t.lamports == amount
                &&& seed_views(t.signer_seeds@) == seq![
                    seq![118u8, 97u8, 117u8, 108u8, 116u8],
                    self.user.bytes@,
                    seq![self.vault_state.vault_bump],
                ]
            },
    {
        if amount == 0 {
            return Err(ErrorCode::InvalidAmount);
        }
        let vault_lamports = self.vault_lamports;
        if amount > vault_lamports {
            return Err(ErrorCode::InsufficientBalance);
        }
        let withdrawable = match vault_lamports.checked_sub(rent_exempt) {
            Some(w) => w,
            None => {
                return Err(ErrorCode::InsufficientBalance);
            },
        };
        if amount > withdrawable {
            return Err(ErrorCode::InsufficientBalance);
        }
        let seeds = vault_seeds(&self.user, self.vault_state.vault_bump);
        Ok(LamportTransfer { lamports: amount, signer_seeds: seeds })
    }
}

} // verus!
