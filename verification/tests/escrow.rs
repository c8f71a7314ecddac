use vault_escrow::address::{to_le_bytes, Address};
use vault_escrow::escrow::error::ErrorCode;
use vault_escrow::escrow::state::{signer_seeds, Escrow, ESCROW_SEED};
use vault_escrow::escrow::take::Take;
use vault_escrow::escrow::update::Update;

const DECIMALS: u8 = 6;
const DEPOSIT_A: u64 = 1_000;
const RECEIVE_B: u64 = 400;

const ERR_INVALID_AMOUNT: u32 = 6000;
const ERR_INSUFFICIENT_BALANCE: u32 = 6002;
const ERR_INVALID_TERMS: u32 = 6005;

fn maker() -> Address {
    Address::new([7u8; 32])
}

fn taker() -> Address {
    Address::new([9u8; 32])
}

fn escrow(seed: u64, receive: u64) -> Escrow {
    Escrow {
        seed,
        maker: maker(),
        mint_a: Address::new([1u8; 32]),
        mint_b: Address::new([2u8; 32]),
        receive,
        bump: 254,
    }
}

fn take_of(seed: u64, receive: u64, taker_b: u64) -> Take {
    Take {
        taker: taker(),
        maker: maker(),
        escrow: escrow(seed, receive),
        mint_a_decimals: DECIMALS,
        mint_b_decimals: DECIMALS,
        vault_amount: DEPOSIT_A,
        taker_ata_b_amount: taker_b,
    }
}

fn update_of(seed: u64) -> Update {
    Update { maker: maker(), escrow: escrow(seed, RECEIVE_B) }
}

#[test]
fn test_take() {
    let t = take_of(7, RECEIVE_B, RECEIVE_B);
    let plan = t.take().unwrap();
    let (taker_a, maker_b) = (0u64, 0u64);
    assert_eq!(
        t.taker_ata_b_amount - plan.payment,
        0,
        "taker should have paid exactly the receive amount"
    );
    assert_eq!(
        maker_b + plan.payment,
        RECEIVE_B,
        "maker should have received exactly the receive amount"
    );
    assert_eq!(
        taker_a + plan.release,
        DEPOSIT_A,
        "taker should receive exactly the deposit amount"
    );
    assert_eq!(
        t.vault_amount - plan.release,
        0,
        "vault should be emptied before it is closed"
    );
    assert_eq!(plan.payment_decimals, DECIMALS);
    assert_eq!(plan.release_decimals, DECIMALS);
    assert_eq!(plan.signer_seeds, signer_seeds(&maker(), 7, 254));
}

#[test]
fn test_take_insufficient_token_b_fails() {
    let t = take_of(7, RECEIVE_B + 1, RECEIVE_B);
    assert!(
        t.taker_ata_b_amount < t.escrow.receive,
        "taker must hold less than the required amount"
    );
    match t.take() {
        Err(e) => assert_eq!(e.code(), ERR_INSUFFICIENT_BALANCE),
        Ok(_) => panic!("take unexpectedly succeeded"),
    }
}

#[test]
fn test_take_twice_fails() {
    let t = take_of(3, RECEIVE_B, RECEIVE_B);
    let plan = t.take().unwrap();
    let after = Take {
        vault_amount: t.vault_amount - plan.release,
        taker_ata_b_amount: t.taker_ata_b_amount - plan.payment,
        ..t
    };
    assert!(after.take().is_err());
}

#[test]
fn test_take_by_maker_fails() {
    let mut t = take_of(5, RECEIVE_B, RECEIVE_B);
    t.taker = maker();
    assert!(t.take().is_err());
    assert_eq!(t.take().err(), Some(ErrorCode::Unauthorized));
}

#[test]
fn test_update() {
    let mut u = update_of(6);
    u.update(RECEIVE_B * 2).unwrap();
    assert_eq!(u.escrow.receive, RECEIVE_B * 2, "receive terms should update");
}

#[test]
fn test_update_same_terms_fails() {
    let mut u = update_of(11);
    match u.update(RECEIVE_B) {
        Err(e) => assert_eq!(e.code(), ERR_INVALID_TERMS),
        Ok(()) => panic!("update unexpectedly succeeded"),
    }
    assert_eq!(u.escrow.receive, RECEIVE_B);
}

#[test]
fn test_update_zero_fails() {
    let mut u = update_of(12);
    match u.update(0) {
        Err(e) => assert_eq!(e.code(), ERR_INVALID_AMOUNT),
        Ok(()) => panic!("update unexpectedly succeeded"),
    }
}

#[test]
fn take_with_empty_vault_reports_closed() {
    let mut t = take_of(1, RECEIVE_B, RECEIVE_B);
    t.vault_amount = 0;
    assert_eq!(t.take().err(), Some(ErrorCode::EscrowAlreadyClosed));
    assert_eq!(ErrorCode::EscrowAlreadyClosed.code(), 6004);
}

#[test]
fn take_by_maker_is_refused_before_the_vault_is_checked() {
    let mut t = take_of(1, RECEIVE_B, 0);
    t.taker = maker();
    t.vault_amount = 0;
    assert_eq!(t.take().err(), Some(ErrorCode::Unauthorized));
}

#[test]
fn take_with_exactly_the_asked_amount_succeeds() {
    let t = take_of(1, RECEIVE_B, RECEIVE_B);
    assert!(t.take().is_ok());
    let t = take_of(1, 0, 0);
    let plan = t.take().unwrap();
    assert_eq!(plan.payment, 0);
    assert_eq!(plan.release, DEPOSIT_A);
}

#[test]
fn take_after_update_pays_the_new_amount() {
    let mut u = update_of(2);
    u.update(250).unwrap();
    let mut t = take_of(2, RECEIVE_B, RECEIVE_B);
    t.escrow = u.escrow;
    let plan = t.take().unwrap();
    assert_eq!(plan.payment, 250);
    assert_eq!(plan.release, DEPOSIT_A);
}

#[test]
fn update_keeps_everything_but_the_amount() {
    let mut u = update_of(8);
    let before = u.escrow;
    u.update(1).unwrap();
    assert_eq!(u.escrow.seed, before.seed);
    assert_eq!(u.escrow.maker, before.maker);
    assert_eq!(u.escrow.mint_a, before.mint_a);
    assert_eq!(u.escrow.mint_b, before.mint_b);
    assert_eq!(u.escrow.bump, before.bump);
    assert_eq!(u.escrow.receive, 1);
    match u.update(1) {
        Err(e) => assert_eq!(e, ErrorCode::InvalidTerms),
        Ok(()) => panic!("repeated update unexpectedly succeeded"),
    }
}

#[test]
fn escrow_seeds_are_laid_out_in_order() {
    let seeds = signer_seeds(&maker(), 0x0102_0304_0506_0708, 253);
    assert_eq!(seeds.len(), 4);
    assert_eq!(seeds[0], b"escrow".to_vec());
    assert_eq!(seeds[0], ESCROW_SEED.to_vec());
    assert_eq!(seeds[1], vec![7u8; 32]);
    assert_eq!(seeds[2], vec![8, 7, 6, 5, 4, 3, 2, 1]);
    assert_eq!(seeds[3], vec![253]);
    assert_ne!(signer_seeds(&maker(), 1, 253), signer_seeds(&maker(), 2, 253));
}

#[test]
fn le_bytes_match_std() {
    for x in [0u64, 1, 255, 256, 0xdead_beef, u64::MAX, 0x0102_0304_0506_0708] {
        assert_eq!(to_le_bytes(x), x.to_le_bytes());
    }
}

#[test]
fn addresses_compare_by_every_byte() {
    let a = Address::new([3u8; 32]);
    let mut bytes = [3u8; 32];
    assert!(a.same_as(&Address::new(bytes)));
    bytes[31] = 4;
    assert!(!a.same_as(&Address::new(bytes)));
    assert!(a != Address::new(bytes));
}

#[test]
fn error_codes_and_messages() {
    let all = [
        ErrorCode::InvalidAmount,
        ErrorCode::Unauthorized,
        ErrorCode::InsufficientBalance,
        ErrorCode::InvalidMint,
        ErrorCode::EscrowAlreadyClosed,
        ErrorCode::InvalidTerms,
    ];
    for (i, e) in all.iter().enumerate() {
        assert_eq!(e.code(), 6000 + i as u32);
    }
    assert_eq!(ErrorCode::InvalidAmount.message(), "Amount must be greater than zero");
    assert_eq!(ErrorCode::Unauthorized.message(), "Unauthorized access to the escrow");
    assert_eq!(ErrorCode::InsufficientBalance.message(), "Token balance is insufficient");
    assert_eq!(ErrorCode::InvalidMint.message(), "Invalid token mint");
    assert_eq!(ErrorCode::EscrowAlreadyClosed.message(), "Escrow has already been closed");
    assert_eq!(ErrorCode::InvalidTerms.message(), "New escrow terms are not different");
}
