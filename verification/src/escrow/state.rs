//! The escrow's on-chain terms and the seeds of its PDA.
use vstd::prelude::*;
use vstd::slice::slice_to_vec;
use crate::address::{Address, le_bytes, lemma_le_bytes_injective, lemma_le_bytes_value, seed_views, to_le_bytes};

verus! {

/// The prefix of every escrow PDA's seeds (`b"escrow"`).
pub const ESCROW_SEED: [u8; 6] = [101, 115, 99, 114, 111, 119];

/// The terms of one escrow agreement.
#[derive(Clone, Copy, Debug)]
pub struct Escrow {
    /// Tells apart the escrows of one maker.
    pub seed: u64,
    /// The account that created the escrow and is paid in token B.
    pub maker: Address,
    /// The mint of the deposited token.
    pub mint_a: Address,
    /// The mint of the requested token.
    pub mint_b: Address,
    /// How much token B the maker wants.
    pub receive: u64,
    /// The bump of the escrow PDA.
    pub bump: u8,
}

/// The seeds with which the escrow PDA of `maker` and `seed` signs:
/// `["escrow", maker, seed as little-endian bytes, [bump]]`.
pub open spec fn escrow_signer_seeds(maker: Address, seed: u64, bump: u8) -> Seq<Seq<u8>> {
    seq![ESCROW_SEED@, maker.key(), le_bytes(seed), seq![bump]]
}

/// Builds the signer seeds of the escrow PDA of `maker` and `seed`.
pub fn signer_seeds(maker: &Address, seed: u64, bump: u8) -> (s: Vec<Vec<u8>>)
    ensures
        seed_views(s@) == escrow_signer_seeds(*maker, seed, bump),
        seed_views(s@) == seq![seq![101u8, 115u8, 99u8, 114u8, 111u8, 119u8], maker.bytes@, le_bytes(seed), seq![bump]],
{
    let prefix = slice_to_vec(&ESCROW_SEED);
    let key = slice_to_vec(&maker.bytes);
    let seed_bytes = to_le_bytes(seed);
    let seed_vec = slice_to_vec(&seed_bytes);
    let mut bump_vec: Vec<u8> = Vec::new();
    bump_vec.push(bump);
    let mut s: Vec<Vec<u8>> = Vec::new();
    s.push(prefix);
    s.push(key);
    s.push(seed_vec);
    s.push(bump_vec);
    assert(seed_views(s@) =~= escrow_signer_seeds(*maker, seed, bump));
    proof {
        lemma_escrow_seeds_layout(*maker, seed, bump);
    }
    s
}

/// The escrow PDA signs with `b"escrow"`, the maker's 32 key bytes as they
/// are, the seed's eight bytes least significant first, and the bump.
pub proof fn lemma_escrow_seeds_layout(maker: Address, seed: u64, bump: u8)
    ensures
        escrow_signer_seeds(maker, seed, bump).len() == 4,
        escrow_signer_seeds(maker, seed, bump)[0] == seq![101u8, 115u8, 99u8, 114u8, 111u8, 119u8],
        escrow_signer_seeds(maker, seed, bump)[1] == maker.bytes@,
        escrow_signer_seeds(maker, seed, bump)[2] == le_bytes(seed),
        escrow_signer_seeds(maker, seed, bump)[2].len() == 8,
        seed == escrow_signer_seeds(maker, seed, bump)[2][0]
            + 0x100 * escrow_signer_seeds(maker, seed, bump)[2][1]
            + 0x1_0000 * escrow_signer_seeds(maker, seed, bump)[2][2]
            + 0x100_0000 * escrow_signer_seeds(maker, seed, bump)[2][3]
            + 0x1_0000_0000 * escrow_signer_seeds(maker, seed, bump)[2][4]
            + 0x100_0000_0000 * escrow_signer_seeds(maker, seed, bump)[2][5]
            + 0x1_0000_0000_0000 * escrow_signer_seeds(maker, seed, bump)[2][6]
            + 0x100_0000_0000_0000 * escrow_signer_seeds(maker, seed, bump)[2][7],
        escrow_signer_seeds(maker, seed, bump)[3] == seq![bump],
        escrow_signer_seeds(maker, seed, bump) == seq![seq![101u8, 115u8, 99u8, 114u8, 111u8, 119u8], maker.bytes@, le_bytes(seed), seq![bump]],
{
    assert(ESCROW_SEED@ =~= seq![101u8, 115u8, 99u8, 114u8, 111u8, 119u8]);
    lemma_le_bytes_value(seed);
}

/// Distinct makers, seeds or bumps give distinct signer seeds: each escrow
/// of a maker is told apart by its seed.
pub proof fn lemma_escrow_seeds_distinct(m1: Address, s1: u64, b1: u8, m2: Address, s2: u64, b2: u8)
    requires
        escrow_signer_seeds(m1, s1, b1) == escrow_signer_seeds(m2, s2, b2),
    ensures
        m1.key() == m2.key(),
        s1 == s2,
        b1 == b2,
{
    let a = escrow_signer_seeds(m1, s1, b1);
    let b = escrow_signer_seeds(m2, s2, b2);
    assert(a[1] == b[1]);
    assert(a[2] == b[2]);
    assert(a[3] == b[3]);
    assert(a[3] == seq![b1]);
    assert(b[3] == seq![b2]);
    assert(seq![b1][0] == b1);
    assert(seq![b2][0] == b2);
    lemma_le_bytes_injective(s1, s2);
}

} // verus!
