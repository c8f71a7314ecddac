//! The vault's state account and the seeds of its PDAs.
use vstd::prelude::*;
use vstd::slice::slice_to_vec;
use crate::address::{Address, seed_views};

verus! {

/// The prefix of the state PDA's seeds (`b"state"`).
pub const STATE: [u8; 5] = [115, 116, 97, 116, 101];

/// The prefix of the vault PDA's seeds (`b"vault"`).
pub const VAULT_SEED: [u8; 5] = [118, 97, 117, 108, 116];

/// The bumps of a user's two PDAs.
#[derive(Clone, Copy, Debug)]
pub struct VaultState {
    pub vault_bump: u8,
    pub state_bump: u8,
}

/// The seeds with which the vault PDA of `user` signs: `["vault", user, [bump]]`.
pub open spec fn vault_signer_seeds(user: Address, bump: u8) -> Seq<Seq<u8>> {
    seq![VAULT_SEED@, user.key(), seq![bump]]
}

/// A lamport transfer out of the vault to its user, signed by the vault PDA.
pub struct LamportTransfer {
    pub lamports: u64,
    pub signer_seeds: Vec<Vec<u8>>,
}

/// A lamport transfer as values.
pub struct LamportTransferView {
    pub lamports: u64,
    pub signer_seeds: Seq<Seq<u8>>,
}

impl View for LamportTransfer {
    type V = LamportTransferView;

    open spec fn view(&self) -> LamportTransferView {
        LamportTransferView {
            lamports: self.lamports,
            signer_seeds: seed_views(self.signer_seeds@),
        }
    }
}

/// Builds the signer seeds of the vault PDA of `user`.
pub fn vault_seeds(user: &Address, bump: u8) -> (s: Vec<Vec<u8>>)
    ensures
        seed_views(s@) == vault_signer_seeds(*user, bump),
        seed_views(s@) == seq![seq![118u8, 97u8, 117u8, 108u8, 116u8], user.bytes@, seq![bump]],
{
    let prefix = slice_to_vec(&VAULT_SEED);
    let key = slice_to_vec(&user.bytes);
    let mut bump_vec: Vec<u8> = Vec::new();
    bump_vec.push(bump);
    let mut s: Vec<Vec<u8>> = Vec::new();
    s.push(prefix);
    s.push(key);
    s.push(bump_vec);
    assert(seed_views(s@) =~= vault_signer_seeds(*user, bump));
    proof {
        lemma_vault_seeds_layout(*user, bump);
    }
    s
}

/// The vault PDA signs with `b"vault"`, the user's 32 key bytes as they
/// are, and the bump.
pub proof fn lemma_vault_seeds_layout(user: Address, bump: u8)
    ensures
        vault_signer_seeds(user, bump).len() == 3,
        vault_signer_seeds(user, bump)[0] == seq![118u8, 97u8, 117u8, 108u8, 116u8],
        vault_signer_seeds(user, bump)[1] == user.bytes@,
        vault_signer_seeds(user, bump)[2] == seq![bump],
        vault_signer_seeds(user, bump) == seq![seq![118u8, 97u8, 117u8, 108u8, 116u8], user.bytes@, seq![bump]],
{
    assert(VAULT_SEED@ =~= seq![118u8, 97u8, 117u8, 108u8, 116u8]);
}

/// Distinct users give distinct vault signer seeds: the seeds of one
/// user's vault never sign for another's.
pub proof fn lemma_vault_seeds_distinct(u1: Address, b1: u8, u2: Address, b2: u8)
    requires
        vault_signer_seeds(u1, b1) == vault_signer_seeds(u2, b2),
    ensures
        u1.key() == u2.key(),
        b1 == b2,
{
    let a = vault_signer_seeds(u1, b1);
    let b = vault_signer_seeds(u2, b2);
    assert(a[1] == b[1]);
    assert(a[2] == b[2]);
    assert(a[2] == seq![b1]);
    assert(b[2] == seq![b2]);
    assert(seq![b1][0] == b1);
    assert(seq![b2][0] == b2);
}

} // verus!
