//! The byte layout of a pool's record: 92 bytes, every integer in
//! little-endian order.
//!
//! | bytes   | field     |
//! |---------|-----------|
//! | 0..8    | `seed`    |
//! | 8..10   | `fee`     |
//! | 10..42  | `mint_x`  |
//! | 42..74  | `mint_y`  |
//! | 74      | `lp_bump` |
//! | 75      | `bump`    |
//! | 76..92  | `k`       |

use vstd::prelude::*;
use vstd::bytes::lemma_auto_spec_u128_to_from_le_bytes;
use vstd::bytes::lemma_auto_spec_u16_to_from_le_bytes;
use vstd::bytes::lemma_auto_spec_u64_to_from_le_bytes;
use vstd::bytes::spec_u128_from_le_bytes;
use vstd::bytes::spec_u128_to_le_bytes;
use vstd::bytes::spec_u16_from_le_bytes;
use vstd::bytes::spec_u16_to_le_bytes;
use vstd::bytes::spec_u64_from_le_bytes;
use vstd::bytes::spec_u64_to_le_bytes;
use vstd::bytes::u128_from_le_bytes;
use vstd::bytes::u128_to_le_bytes;
use vstd::bytes::u16_from_le_bytes;
use vstd::bytes::u16_to_le_bytes;
use vstd::bytes::u64_from_le_bytes;
use vstd::bytes::u64_to_le_bytes;
use vstd::slice::slice_subrange;
use crate::state::Config;
use crate::state::Pubkey;

verus! {

/// Length in bytes of a stored pool record.
pub const CONFIG_LEN: usize = 92;

/// The bytes that store a pool record.
pub open spec fn spec_config_bytes(config: Config) -> Seq<u8> {
    spec_u64_to_le_bytes(config.seed) + spec_u16_to_le_bytes(config.fee) + config.mint_x.bytes@
        + config.mint_y.bytes@ + seq![config.lp_bump, config.bump] + spec_u128_to_le_bytes(
        config.k,
    )
}

/// A stored record is 92 bytes long, and its fields lie where the layout
/// puts them.
pub proof fn lemma_config_bytes_fields(config: Config)
    ensures
        spec_config_bytes(config).len() == 92,
        spec_config_bytes(config).subrange(0, 8) == spec_u64_to_le_bytes(config.seed),
        spec_config_bytes(config).subrange(8, 10) == spec_u16_to_le_bytes(config.fee),
        spec_config_bytes(config).subrange(10, 42) == config.mint_x.bytes@,
        spec_config_bytes(config).subrange(42, 74) == config.mint_y.bytes@,
        spec_config_bytes(config)[74] == config.lp_bump,
        spec_config_bytes(config)[75] == config.bump,
        spec_config_bytes(config).subrange(76, 92) == spec_u128_to_le_bytes(config.k),
{
    lemma_auto_spec_u64_to_from_le_bytes();
    lemma_auto_spec_u16_to_from_le_bytes();
    lemma_auto_spec_u128_to_from_le_bytes();
    let bytes = spec_config_bytes(config);
    assert(spec_u64_to_le_bytes(config.seed).len() == 8);
    assert(spec_u16_to_le_bytes(config.fee).len() == 2);
    assert(spec_u128_to_le_bytes(config.k).len() == 16);
    assert(config.mint_x.bytes@.len() == 32);
    assert(config.mint_y.bytes@.len() == 32);
    assert(bytes.subrange(0, 8) =~= spec_u64_to_le_bytes(config.seed));
    assert(bytes.subrange(8, 10) =~= spec_u16_to_le_bytes(config.fee));
    assert(bytes.subrange(10, 42) =~= config.mint_x.bytes@);
    assert(bytes.subrange(42, 74) =~= config.mint_y.bytes@);
    assert(bytes.subrange(76, 92) =~= spec_u128_to_le_bytes(config.k));
}

/// Storing loses nothing: two records with the same bytes are the same
/// record, so reading back what was stored gives the record that was stored.
pub proof fn lemma_config_bytes_lossless(a: Config, b: Config)
    requires
        spec_config_bytes(a) == spec_config_bytes(b),
    ensures
        a == b,
{
    lemma_config_bytes_fields(a);
    lemma_config_bytes_fields(b);
    lemma_auto_spec_u64_to_from_le_bytes();
    lemma_auto_spec_u16_to_from_le_bytes();
    lemma_auto_spec_u128_to_from_le_bytes();
    assert(spec_u64_from_le_bytes(spec_u64_to_le_bytes(a.seed)) == a.seed);
    assert(spec_u64_from_le_bytes(spec_u64_to_le_bytes(b.seed)) == b.seed);
    assert(spec_u16_from_le_bytes(spec_u16_to_le_bytes(a.fee)) == a.fee);
    assert(spec_u16_from_le_bytes(spec_u16_to_le_bytes(b.fee)) == b.fee);
    assert(spec_u128_from_le_bytes(spec_u128_to_le_bytes(a.k)) == a.k);
    assert(spec_u128_from_le_bytes(spec_u128_to_le_bytes(b.k)) == b.k);
    assert(a.mint_x.bytes =~= b.mint_x.bytes);
    assert(a.mint_y.bytes =~= b.mint_y.bytes);
}

fn push_all(out: &mut Vec<u8>, part: &[u8])
    ensures
        final(out)@ == old(out)@ + part@,
{
    let ghost before = out@;
    let mut i: usize = 0;
    while i < part.len()
        invariant
            i <= part@.len(),
            out@ == before + part@.subrange(0, i as int),
        decreases part@.len() - i,
    {
        out.push(part[i]);
        i = i + 1;
        assert(out@ =~= before + part@.subrange(0, i as int));
    }
    assert(part@.subrange(0, part@.len() as int) =~= part@);
}

fn read_key(bytes: &[u8], start: usize) -> (key: Pubkey)
    requires
        start + 32 <= bytes@.len(),
    ensures
        key.bytes@ == bytes@.subrange(start as int, start + 32),
{
    let mut key = Pubkey { bytes: [0u8; 32] };
    let len = bytes.len();
    let mut i: usize = 0;
    while i < 32
        invariant
            i <= 32,
            len == bytes@.len(),
            start + 32 <= len,
            forall|j: int| 0 <= j < i ==> key.bytes@[j] == bytes@[start + j],
        decreases 32 - i,
    {
        key.bytes[i] = bytes[start + i];
        i = i + 1;
    }
    assert(key.bytes@ =~= bytes@.subrange(start as int, start + 32));
    key
}

impl Config {
    /// Stores the record: its 92 bytes.
    pub fn to_bytes(&self) -> (bytes: Vec<u8>)
        ensures
            bytes@ == spec_config_bytes(*self),
            bytes@.len() == 92,
    {
        let mut out: Vec<u8> = u64_to_le_bytes(self.seed);
        let fee = u16_to_le_bytes(self.fee);
        push_all(&mut out, fee.as_slice());
        push_all(&mut out, self.mint_x.bytes.as_slice());
        push_all(&mut out, self.mint_y.bytes.as_slice());
        out.push(self.lp_bump);
        out.push(self.bump);
        let k = u128_to_le_bytes(self.k);
        push_all(&mut out, k.as_slice());
        proof {
            lemma_config_bytes_fields(*self);
            assert(out@ =~= spec_config_bytes(*self));
        }
        out
    }

    /// Reads a stored record back. It exists exactly for inputs of 92 bytes,
    /// and it is the record that these bytes store.
    pub fn from_bytes(bytes: &[u8]) -> (read: Option<Config>)
        ensures
            read is Some <==> bytes@.len() == 92,
            read matches Some(config) ==> spec_config_bytes(config) == bytes@,
    {
        if bytes.len() != CONFIG_LEN {
            return None;
        }
        let config = Config {
            seed: u64_from_le_bytes(slice_subrange(bytes, 0, 8)),
            fee: u16_from_le_bytes(slice_subrange(bytes, 8, 10)),
            mint_x: read_key(bytes, 10),
            mint_y: read_key(bytes, 42),
            lp_bump: bytes[74],
            bump: bytes[75],
            k: u128_from_le_bytes(slice_subrange(bytes, 76, 92)),
        };
        proof {
            lemma_auto_spec_u64_to_from_le_bytes();
            lemma_auto_spec_u16_to_from_le_bytes();
            lemma_auto_spec_u128_to_from_le_bytes();
            assert(spec_u64_to_le_bytes(config.seed) == bytes@.subrange(0, 8));
            assert(spec_u16_to_le_bytes(config.fee) == bytes@.subrange(8, 10));
            assert(spec_u128_to_le_bytes(config.k) == bytes@.subrange(76, 92));
            assert(spec_config_bytes(config) =~= bytes@);
        }
        Some(config)
    }
}

} // verus!
