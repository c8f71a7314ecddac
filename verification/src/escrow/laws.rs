//! Properties that hold across the escrow's instructions.
use vstd::prelude::*;
use super::error::ErrorCode;
use crate::address::le_bytes;
use super::state::{escrow_signer_seeds, lemma_escrow_seeds_layout};
use super::take::{Take, TakePlanView, take_outcome};
use super::update::updated_escrow;

verus! {

/// The accounts of a take after its plan was carried out: the vault gave
/// up the release and the taker's token B account paid the payment.
pub open spec fn after_take(t: Take, p: TakePlanView) -> Take {
    Take {
        vault_amount: (t.vault_amount - p.release) as u64,
        taker_ata_b_amount: (t.taker_ata_b_amount - p.payment) as u64,
        ..t
    }
}

/// The maker can never take their own escrow.
pub proof fn lemma_maker_cannot_take(t: Take)
    requires
        t.taker.key() == t.escrow.maker.key(),
    ensures
        take_outcome(t) == Err::<TakePlanView, ErrorCode>(ErrorCode::Unauthorized),
{
}

/// A successful take pays the maker exactly the asked amount of token B in
/// token B's decimals, gives the taker the whole deposit of token A in token
/// A's decimals, and is signed by the escrow's own PDA: `b"escrow"`, the
/// maker's key bytes as they are, the seed's little-endian bytes, the bump.
pub proof fn lemma_take_exchanges_terms(t: Take)
    requires
        take_outcome(t) is Ok,
    ensures
        take_outcome(t)->Ok_0.payment == t.escrow.receive,
        take_outcome(t)->Ok_0.payment_decimals == t.mint_b_decimals,
        take_outcome(t)->Ok_0.release == t.vault_amount,
        take_outcome(t)->Ok_0.release_decimals == t.mint_a_decimals,
        take_outcome(t)->Ok_0.payment <= t.taker_ata_b_amount,
        take_outcome(t)->Ok_0.signer_seeds == seq![
            seq![101u8, 115u8, 99u8, 114u8, 111u8, 119u8],
            t.maker.bytes@,
            le_bytes(t.escrow.seed),
            seq![t.escrow.bump],
        ],
        take_outcome(t)->Ok_0.signer_seeds[2].len() == 8,
        t.escrow.seed == take_outcome(t)->Ok_0.signer_seeds[2][0]
            + 0x100 * take_outcome(t)->Ok_0.signer_seeds[2][1]
            + 0x1_0000 * take_outcome(t)->Ok_0.signer_seeds[2][2]
            + 0x100_0000 * take_outcome(t)->Ok_0.signer_seeds[2][3]
            + 0x1_0000_0000 * take_outcome(t)->Ok_0.signer_seeds[2][4]
            + 0x100_0000_0000 * take_outcome(t)->Ok_0.signer_seeds[2][5]
            + 0x1_0000_0000_0000 * take_outcome(t)->Ok_0.signer_seeds[2][6]
            + 0x100_0000_0000_0000 * take_outcome(t)->Ok_0.signer_seeds[2][7],
{
    lemma_escrow_seeds_layout(t.maker, t.escrow.seed, t.escrow.bump);
}

/// A take is refused for the maker as taker, then for an empty vault, then
/// for a taker holding less token B than asked, and for nothing else.
pub proof fn lemma_take_refusals(t: Take)
    ensures
        take_outcome(t) is Ok <==> (t.taker.bytes@ != t.escrow.maker.bytes@ && t.vault_amount > 0
            && t.taker_ata_b_amount >= t.escrow.receive),
        t.taker.bytes@ == t.escrow.maker.bytes@
            ==> take_outcome(t) == Err::<TakePlanView, ErrorCode>(ErrorCode::Unauthorized),
        t.taker.bytes@ != t.escrow.maker.bytes@ && t.vault_amount == 0
            ==> take_outcome(t) == Err::<TakePlanView, ErrorCode>(ErrorCode::EscrowAlreadyClosed),
        t.taker.bytes@ != t.escrow.maker.bytes@ && t.vault_amount > 0 && t.taker_ata_b_amount < t.escrow.receive
            ==> take_outcome(t) == Err::<TakePlanView, ErrorCode>(ErrorCode::InsufficientBalance),
{
}

/// An update is refused only for a zero amount or for the current terms;
/// any other amount, however large, becomes the new terms.
pub proof fn lemma_update_refusals(e: super::state::Escrow, receive: u64)
    ensures
        updated_escrow(e, receive) is Ok <==> (receive != 0 && receive != e.receive),
        receive == 0 ==> updated_escrow(e, receive)
            == Err::<super::state::Escrow, ErrorCode>(ErrorCode::InvalidAmount),
        receive != 0 && receive == e.receive ==> updated_escrow(e, receive)
            == Err::<super::state::Escrow, ErrorCode>(ErrorCode::InvalidTerms),
        updated_escrow(e, receive) is Ok ==> updated_escrow(e, receive)->Ok_0.receive == receive,
{
}

/// After a take the vault is empty, so taking the same escrow again is refused.
pub proof fn lemma_take_twice_fails(t: Take)
    requires
        take_outcome(t) is Ok,
    ensures
        after_take(t, take_outcome(t)->Ok_0).vault_amount == 0,
        take_outcome(after_take(t, take_outcome(t)->Ok_0))
            == Err::<TakePlanView, ErrorCode>(ErrorCode::EscrowAlreadyClosed),
{
}

/// Asking twice for the same new amount: the second update is refused.
pub proof fn lemma_update_same_terms_twice_fails(e: super::state::Escrow, receive: u64)
    requires
        updated_escrow(e, receive) is Ok,
    ensures
        updated_escrow(updated_escrow(e, receive)->Ok_0, receive)
            == Err::<super::state::Escrow, ErrorCode>(ErrorCode::InvalidTerms),
{
}

/// An update changes nothing but the asked amount: the escrow keeps its
/// seed, maker, mints and bump, and so the seeds with which its PDA signs.
pub proof fn lemma_update_keeps_identity(e: super::state::Escrow, receive: u64)
    requires
        updated_escrow(e, receive) is Ok,
    ensures
        updated_escrow(e, receive)->Ok_0.receive == receive,
        updated_escrow(e, receive)->Ok_0.seed == e.seed,
        updated_escrow(e, receive)->Ok_0.maker == e.maker,
        updated_escrow(e, receive)->Ok_0.mint_a == e.mint_a,
        updated_escrow(e, receive)->Ok_0.mint_b == e.mint_b,
        updated_escrow(e, receive)->Ok_0.bump == e.bump,
        escrow_signer_seeds(e.maker, updated_escrow(e, receive)->Ok_0.seed, updated_escrow(e, receive)->Ok_0.bump)
            == escrow_signer_seeds(e.maker, e.seed, e.bump),
{
}

/// A take after an update pays the updated amount and still releases the
/// unchanged deposit; it succeeds exactly when the taker is not the maker,
/// the vault holds a deposit, and the taker holds the new amount.
pub proof fn lemma_update_then_take(t: Take, receive: u64)
    requires
        updated_escrow(t.escrow, receive) is Ok,
    ensures
        ({
            let t2 = Take { escrow: updated_escrow(t.escrow, receive)->Ok_0, ..t };
            &&& (take_outcome(t2) is Ok <==> (t.taker.key() != t.escrow.maker.key()
                && t.vault_amount > 0 && t.taker_ata_b_amount >= receive))
            &&& (take_outcome(t2) is Ok ==> take_outcome(t2)->Ok_0.payment == receive
                && take_outcome(t2)->Ok_0.release == t.vault_amount)
        }),
{
}

} // verus!
