//! Closing the vault: everything it holds goes back to the user.
use vstd::prelude::*;
use crate::address::{Address, seed_views};
use super::state::{LamportTransfer, LamportTransferView, VaultState, vault_seeds, vault_signer_seeds};

verus! {

/// What closing reads from its accounts.
#[derive(Clone, Copy, Debug)]
pub struct Close {
    /// The vault's owner, who signs and receives the lamports.
    pub user: Address,
    pub vault_state: VaultState,
    /// The lamports the vault holds.
    pub vault_lamports: u64,
}

/// What closing does: a vault with lamports sends all of them to the user;
/// an empty vault sends nothing.
pub open spec fn close_outcome(c: Close) -> Option<LamportTransferView> {
    if c.vault_lamports > 0 {
        Some(LamportTransferView {
            lamports: c.vault_lamports,
            signer_seeds: vault_signer_seeds(c.user, c.vault_state.vault_bump),
        })
    } else {
        None
    }
}

impl Close {
    /// Decides the transfer that empties the vault, if it holds anything.
    pub fn close(&self) -> (r: Option<LamportTransfer>)
        ensures
            match r {
                Some(t) => close_outcome(*self) == Some(t@),
                None => close_outcome(*self) == None::<LamportTransferView>,
            },
            r is Some <==> self.vault_lamports > 0,
            r matches Some(t) ==> {
                &&& t.lamports == self.vault_lamports
                &&& seed_views(t.signer_seeds@) == seq![
                    seq![118u8, 97u8, 117u8, 108u8, 116u8],
                    self.user.bytes@,
                    seq![self.vault_state.vault_bump],
                ]
            },
    {
        let vault_lamports = self.vault_lamports;
        if vault_lamports > 0 {
            let seeds = vault_seeds(&self.user, self.vault_state.vault_bump);
            Some(LamportTransfer { lamports: vault_lamports, signer_seeds: seeds })
        } else {
            None
        }
    }
}

} // verus!
