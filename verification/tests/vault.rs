use vault_escrow::address::Address;
use vault_escrow::vault::close::Close;
use vault_escrow::vault::error::ErrorCode;
use vault_escrow::vault::state::{vault_seeds, VaultState, STATE, VAULT_SEED};
use vault_escrow::vault::withdraw::Withdraw;

const DEPOSIT: u64 = 500_000_000;
const WITHDRAW: u64 = 100_000_000;
/// The minimum balance of an empty rent-exempt account.
const RENT_EXEMPT: u64 = 890_880;

const ERR_INVALID_AMOUNT: u32 = 6000;
const ERR_INSUFFICIENT_BALANCE: u32 = 6001;

fn user() -> Address {
    Address::new([5u8; 32])
}

fn state() -> VaultState {
    VaultState { vault_bump: 255, state_bump: 251 }
}

fn withdraw_of(vault_lamports: u64) -> Withdraw {
    Withdraw { user: user(), vault_state: state(), vault_lamports }
}

#[test]
fn test_withdraw() {
    let w = withdraw_of(RENT_EXEMPT + DEPOSIT);
    let t = w.withdraw(WITHDRAW, RENT_EXEMPT).unwrap();
    assert_eq!(t.lamports, WITHDRAW);
    assert_eq!(
        w.vault_lamports - t.lamports,
        RENT_EXEMPT + DEPOSIT - WITHDRAW,
        "vault should decrease by the withdrawn amount"
    );
}

#[test]
fn test_withdraw_zero_amount_fails() {
    let w = withdraw_of(RENT_EXEMPT + DEPOSIT);
    match w.withdraw(0, RENT_EXEMPT) {
        Err(e) => assert_eq!(e.code(), ERR_INVALID_AMOUNT),
        Ok(_) => panic!("withdraw unexpectedly succeeded"),
    }
}

#[test]
fn test_withdraw_more_than_balance_fails() {
    let w = withdraw_of(RENT_EXEMPT + DEPOSIT);
    match w.withdraw(RENT_EXEMPT + DEPOSIT + 1, RENT_EXEMPT) {
        Err(e) => assert_eq!(e.code(), ERR_INSUFFICIENT_BALANCE),
        Ok(_) => panic!("withdraw unexpectedly succeeded"),
    }
    assert_eq!(
        w.vault_lamports,
        RENT_EXEMPT + DEPOSIT,
        "failed withdraw must not move lamports"
    );
}

#[test]
fn test_withdraw_reserves_rent() {
    let w = withdraw_of(RENT_EXEMPT + DEPOSIT);
    // All of the balance above the rent reserve can be withdrawn.
    let t = w.withdraw(DEPOSIT, RENT_EXEMPT).unwrap();
    let after = withdraw_of(w.vault_lamports - t.lamports);
    assert_eq!(after.vault_lamports, RENT_EXEMPT);

    // Nothing above the rent reserve is left; a further withdraw must fail.
    match after.withdraw(1, RENT_EXEMPT) {
        Err(e) => assert_eq!(e.code(), ERR_INSUFFICIENT_BALANCE),
        Ok(_) => panic!("withdraw unexpectedly succeeded"),
    }
}

#[test]
fn test_close() {
    let c = Close { user: user(), vault_state: state(), vault_lamports: RENT_EXEMPT + DEPOSIT };
    let user_lamports_before: u64 = 1_000;
    let t = c.close().unwrap();
    assert_eq!(c.vault_lamports - t.lamports, 0, "vault should be emptied");
    assert!(
        user_lamports_before + t.lamports > user_lamports_before,
        "closing the vault should return lamports to the user"
    );
}

#[test]
fn close_of_an_empty_vault_moves_nothing() {
    let c = Close { user: user(), vault_state: state(), vault_lamports: 0 };
    assert!(c.close().is_none());
}

#[test]
fn withdraw_below_the_reserve_is_refused() {
    // The vault holds less than the reserve: nothing can be withdrawn.
    let w = withdraw_of(RENT_EXEMPT - 1);
    assert_eq!(w.withdraw(1, RENT_EXEMPT).err(), Some(ErrorCode::InsufficientBalance));
    // Exactly the amount above the reserve succeeds; one more fails.
    let w = withdraw_of(RENT_EXEMPT + 10);
    assert!(w.withdraw(10, RENT_EXEMPT).is_ok());
    assert_eq!(w.withdraw(11, RENT_EXEMPT).err(), Some(ErrorCode::InsufficientBalance));
    // Zero is refused before the balance is looked at.
    assert_eq!(withdraw_of(0).withdraw(0, RENT_EXEMPT).err(), Some(ErrorCode::InvalidAmount));
}

#[test]
fn withdraw_then_close_returns_everything() {
    let w = withdraw_of(RENT_EXEMPT + DEPOSIT);
    let t = w.withdraw(WITHDRAW, RENT_EXEMPT).unwrap();
    let c = Close { user: user(), vault_state: state(), vault_lamports: w.vault_lamports - t.lamports };
    let rest = c.close().unwrap();
    assert_eq!(t.lamports + rest.lamports, RENT_EXEMPT + DEPOSIT);
    assert_eq!(t.signer_seeds, rest.signer_seeds);
}

#[test]
fn vault_seeds_are_laid_out_in_order() {
    let seeds = vault_seeds(&user(), 255);
    assert_eq!(seeds, vec![b"vault".to_vec(), vec![5u8; 32], vec![255]]);
    assert_eq!(VAULT_SEED.to_vec(), b"vault".to_vec());
    assert_eq!(STATE.to_vec(), b"state".to_vec());
    let w = withdraw_of(RENT_EXEMPT + DEPOSIT);
    assert_eq!(w.withdraw(WITHDRAW, RENT_EXEMPT).unwrap().signer_seeds, seeds);
}

#[test]
fn vault_error_codes() {
    assert_eq!(ErrorCode::InvalidAmount.code(), 6000);
    assert_eq!(ErrorCode::InsufficientBalance.code(), 6001);
}

#[test]
fn vault_seeds_differ_between_users() {
    let other = Address::new([6u8; 32]);
    assert_ne!(vault_seeds(&user(), 255), vault_seeds(&other, 255));
}
