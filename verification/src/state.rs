//! The persistent record of one pool, and the identifiers it is built from.

use vstd::prelude::*;
use vstd::bytes::spec_u64_to_le_bytes;
use vstd::bytes::u64_to_le_bytes;
use vstd::std_specs::cmp::PartialEqSpecImpl;

verus! {

/// A 32-byte ledger address. It names an asset (a mint) or a party.
#[derive(Clone, Copy, Debug, Eq, Hash)]
pub struct Pubkey {
    pub bytes: [u8; 32],
}

impl PartialEq for Pubkey {
    fn eq(&self, other: &Pubkey) -> (same: bool) {
        let mut i: usize = 0;
        while i < 32
            invariant
                i <= 32,
                forall|j: int| 0 <= j < i ==> self.bytes[j] == other.bytes[j],
            decreases 32 - i,
        {
            if self.bytes[i] != other.bytes[i] {
                return false;
            }
            i = i + 1;
        }
        assert(self.bytes =~= other.bytes);
        true
    }
}

impl PartialEqSpecImpl for Pubkey {
    open spec fn obeys_eq_spec() -> bool {
        true
    }

    open spec fn eq_spec(&self, other: &Pubkey) -> bool {
        *self == *other
    }
}

/// The record that describes one pool. It is written once, when the pool is
/// created; afterwards only `k` changes.
#[derive(Clone, Copy, Debug, PartialEq, Eq)]
pub struct Config {
    /// Tells apart several pools on the same pair of assets.
    pub seed: u64,
    /// Swap fee in basis points. Deposits and withdrawals do not read it.
    pub fee: u16,
    /// The asset held in the first reserve.
    pub mint_x: Pubkey,
    /// The asset held in the second reserve.
    pub mint_y: Pubkey,
    /// Salt of the share mint's derived address.
    pub lp_bump: u8,
    /// Salt of the pool's own derived address.
    pub bump: u8,
    /// The product of the two reserves; zero while the pool holds no liquidity.
    pub k: u128,
}

/// The product of two reserve balances, which always fits in 128 bits.
pub open spec fn spec_invariant_k(reserve_x: u64, reserve_y: u64) -> int {
    reserve_x * reserve_y
}

/// The product of two 64-bit balances fits in 128 bits.
pub proof fn lemma_product_fits(reserve_x: u64, reserve_y: u64)
    ensures
        0 <= spec_invariant_k(reserve_x, reserve_y) <= u128::MAX,
        spec_invariant_k(reserve_x, reserve_y) as u128 == reserve_x * reserve_y,
{
    assert(0 <= reserve_x * reserve_y <= 0xffff_ffff_ffff_ffff * 0xffff_ffff_ffff_ffff)
        by (nonlinear_arith)
        requires
            0 <= reserve_x <= 0xffff_ffff_ffff_ffff,
            0 <= reserve_y <= 0xffff_ffff_ffff_ffff,
    ;
}

/// Computes the invariant `k = reserve_x * reserve_y`.
pub fn invariant_k(reserve_x: u64, reserve_y: u64) -> (k: u128)
    ensures
        k == spec_invariant_k(reserve_x, reserve_y),
{
    proof {
        lemma_product_fits(reserve_x, reserve_y);
    }
    (reserve_x as u128) * (reserve_y as u128)
}

/// The tag that opens the seeds of every pool address: the ASCII bytes of `amm`.
pub open spec fn seed_tag() -> Seq<u8> {
    seq![0x61u8, 0x6du8, 0x6du8]
}

/// The seeds under which a pool signs for its reserves and its share mint: the
/// tag, the two asset identifiers, the pool's seed in little-endian order, and
/// the bump.
pub open spec fn spec_signer_seeds(mint_x: Pubkey, mint_y: Pubkey, seed: u64, bump: u8) -> Seq<
    Seq<u8>,
> {
    seq![seed_tag(), mint_x.bytes@, mint_y.bytes@, spec_u64_to_le_bytes(seed), seq![bump]]
}

fn key_bytes(key: &Pubkey) -> (out: Vec<u8>)
    ensures
        out@ == key.bytes@,
{
    let mut out: Vec<u8> = Vec::new();
    let mut i: usize = 0;
    while i < 32
        invariant
            i <= 32,
            out@.len() == i,
            forall|j: int| 0 <= j < i ==> out@[j] == key.bytes@[j],
        decreases 32 - i,
    {
        out.push(key.bytes[i]);
        i = i + 1;
    }
    assert(out@ =~= key.bytes@);
    out
}

/// What a list of byte strings holds: the bytes of each, in order.
pub open spec fn seeds_view(seeds: Seq<Vec<u8>>) -> Seq<Seq<u8>> {
    Seq::new(seeds.len(), |i: int| seeds[i]@)
}

/// Builds the pool's signer seeds, one byte string per seed.
pub fn signer_seeds(mint_x: &Pubkey, mint_y: &Pubkey, seed: u64, bump: u8) -> (seeds: Vec<Vec<u8>>)
    ensures
        seeds_view(seeds@) == spec_signer_seeds(*mint_x, *mint_y, seed, bump),
{
    let mut tag: Vec<u8> = Vec::new();
    tag.push(0x61);
    tag.push(0x6d);
    tag.push(0x6d);
    assert(tag@ =~= seed_tag());
    let mut last: Vec<u8> = Vec::new();
    last.push(bump);
    assert(last@ =~= seq![bump]);
    let mut seeds: Vec<Vec<u8>> = Vec::new();
    seeds.push(tag);
    seeds.push(key_bytes(mint_x));
    seeds.push(key_bytes(mint_y));
    seeds.push(u64_to_le_bytes(seed));
    seeds.push(last);
    assert(seeds_view(seeds@) =~= spec_signer_seeds(*mint_x, *mint_y, seed, bump));
    seeds
}

impl Config {
    /// The seeds under which this pool signs.
    pub open spec fn spec_signer_seeds(self) -> Seq<Seq<u8>> {
        spec_signer_seeds(self.mint_x, self.mint_y, self.seed, self.bump)
    }

    /// Builds the seeds under which this pool signs.
    pub fn signer_seeds(&self) -> (seeds: Vec<Vec<u8>>)
        ensures
            seeds_view(seeds@) == self.spec_signer_seeds(),
    {
        signer_seeds(&self.mint_x, &self.mint_y, self.seed, self.bump)
    }
}

} // verus!
