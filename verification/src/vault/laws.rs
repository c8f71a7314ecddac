//! Properties that hold across the vault's instructions.
use vstd::prelude::*;
use super::close::{Close, close_outcome};
use super::error::ErrorCode;
use super::state::{LamportTransferView, lemma_vault_seeds_layout};
use super::withdraw::{Withdraw, withdraw_outcome};

verus! {

/// A successful withdrawal moves exactly the asked amount and never takes
/// the vault below its rent-exempt reserve.
pub proof fn lemma_withdraw_reserves_rent(w: Withdraw, amount: u64, rent_exempt: u64)
    requires
        withdraw_outcome(w, amount, rent_exempt) is Ok,
    ensures
        withdraw_outcome(w, amount, rent_exempt)->Ok_0.lamports == amount,
        w.vault_lamports - amount >= rent_exempt,
{
}

/// A withdrawal is refused for a zero amount, then for an amount that would
/// take the vault below its reserve, and for nothing else; a successful one
/// moves exactly the amount, signed by the vault PDA of `b"vault"`, the
/// user's key bytes as they are, and the vault bump.
pub proof fn lemma_withdraw_decision(w: Withdraw, amount: u64, rent_exempt: u64)
    ensures
        withdraw_outcome(w, amount, rent_exempt) is Ok <==> (amount > 0 && amount + rent_exempt <= w.vault_lamports),
        amount == 0 ==> withdraw_outcome(w, amount, rent_exempt)
            == Err::<LamportTransferView, ErrorCode>(ErrorCode::InvalidAmount),
        amount > 0 && amount + rent_exempt > w.vault_lamports ==> withdraw_outcome(w, amount, rent_exempt)
            == Err::<LamportTransferView, ErrorCode>(ErrorCode::InsufficientBalance),
        withdraw_outcome(w, amount, rent_exempt) is Ok ==> {
            &&& withdraw_outcome(w, amount, rent_exempt)->Ok_0.lamports == amount
            &&& withdraw_outcome(w, amount, rent_exempt)->Ok_0.signer_seeds == seq![
                seq![118u8, 97u8, 117u8, 108u8, 116u8],
                w.user.bytes@,
                seq![w.vault_state.vault_bump],
            ]
        },
{
    lemma_vault_seeds_layout(w.user, w.vault_state.vault_bump);
}

/// Closing a vault that holds lamports sends all of them, signed by the
/// vault PDA of `b"vault"`, the user's key bytes as they are, and the bump.
pub proof fn lemma_close_signed_by_user_vault(c: Close)
    ensures
        close_outcome(c) is Some <==> c.vault_lamports > 0,
        close_outcome(c) is Some ==> {
            &&& close_outcome(c)->Some_0.lamports == c.vault_lamports
            &&& close_outcome(c)->Some_0.signer_seeds == seq![
                seq![118u8, 97u8, 117u8, 108u8, 116u8],
                c.user.bytes@,
                seq![c.vault_state.vault_bump],
            ]
        },
{
    lemma_vault_seeds_layout(c.user, c.vault_state.vault_bump);
}

/// Once the vault holds no more than its reserve, every withdrawal is refused.
pub proof fn lemma_nothing_above_rent(w: Withdraw, amount: u64, rent_exempt: u64)
    requires
        w.vault_lamports <= rent_exempt,
    ensures
        withdraw_outcome(w, amount, rent_exempt) is Err,
        amount > 0 ==> withdraw_outcome(w, amount, rent_exempt)
            == Err::<LamportTransferView, ErrorCode>(ErrorCode::InsufficientBalance),
{
}

/// Closing leaves the vault empty: it sends the user all it holds.
pub proof fn lemma_close_empties_vault(c: Close)
    ensures
        c.vault_lamports - (match close_outcome(c) {
            Some(t) => t.lamports as int,
            None => 0int,
        }) == 0,
{
}

/// A withdrawal followed by closing returns to the user exactly what the
/// vault held: no lamport is kept back or made up.
pub proof fn lemma_withdraw_then_close_returns_all(w: Withdraw, amount: u64, rent_exempt: u64)
    requires
        withdraw_outcome(w, amount, rent_exempt) is Ok,
    ensures
        ({
            let c = Close {
                user: w.user,
                vault_state: w.vault_state,
                vault_lamports: (w.vault_lamports - amount) as u64,
            };
            withdraw_outcome(w, amount, rent_exempt)->Ok_0.lamports + (match close_outcome(c) {
                Some(t) => t.lamports as int,
                None => 0int,
            }) == w.vault_lamports
        }),
{
}

/// The seeds that sign a withdrawal and a closing of the same vault are the same.
pub proof fn lemma_withdraw_and_close_sign_alike(w: Withdraw, amount: u64, rent_exempt: u64, c: Close)
    requires
        withdraw_outcome(w, amount, rent_exempt) is Ok,
        close_outcome(c) is Some,
        c.user == w.user,
        c.vault_state == w.vault_state,
    ensures
        withdraw_outcome(w, amount, rent_exempt)->Ok_0.signer_seeds == close_outcome(c)->Some_0.signer_seeds,
{
}

} // verus!
