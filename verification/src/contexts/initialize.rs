//! Creating a pool: its record, its two empty reserves and its share mint.

use vstd::prelude::*;
use crate::error::settled;
use crate::error::AmmError;
use crate::state::Config;
use crate::state::Pubkey;
use crate::token::Mint;
use crate::token::TokenAccount;

verus! {

/// Decimal places of every pool-share mint.
pub const LP_DECIMALS: u8 = 6;

/// The accounts of a pool's creation.
#[derive(Clone, Copy, Debug, PartialEq, Eq)]
pub struct Initialize {
    /// Who creates the pool.
    pub signer: Pubkey,
    /// The asset of the first reserve.
    pub mint_x: Mint,
    /// The asset of the second reserve.
    pub mint_y: Mint,
    /// The pool's record; `None` until the pool has been created.
    pub config: Option<Config>,
    /// The account that becomes the pool-share mint.
    pub mint_lp: Mint,
    /// The account that becomes the first reserve.
    pub vault_x: TokenAccount,
    /// The account that becomes the second reserve.
    pub vault_y: TokenAccount,
}

/// The salts of the addresses that a pool's creation derives.
#[derive(Clone, Copy, Debug, PartialEq, Eq)]
pub struct InitializeBumps {
    /// Salt of the pool's own address.
    pub config: u8,
    /// Salt of the share mint's address.
    pub mint_lp: u8,
}

impl Initialize {
    /// The record of a pool newly created on these accounts: the two assets
    /// are those of `mint_x` and `mint_y`, and `k` is zero.
    pub open spec fn new_config(self, seed: u64, fee: u16, bumps: InitializeBumps) -> Config {
        Config {
            seed,
            fee,
            mint_x: self.mint_x.key,
            mint_y: self.mint_y.key,
            lp_bump: bumps.mint_lp,
            bump: bumps.config,
            k: 0,
        }
    }

    /// The accounts after the pool's creation, or `AlreadyInitialized` when
    /// a record exists already. A created pool has the record of
    /// `new_config`, a share mint of six decimals without supply, and an
    /// empty reserve for each asset.
    pub open spec fn spec_initailize(self, seed: u64, fee: u16, bumps: InitializeBumps) -> Result<
        Initialize,
        AmmError,
    > {
        if self.config is Some {
            Err(AmmError::AlreadyInitialized)
        } else {
            Ok(
                Initialize {
                    signer: self.signer,
                    mint_x: self.mint_x,
                    mint_y: self.mint_y,
                    config: Some(self.new_config(seed, fee, bumps)),
                    mint_lp: Mint { key: self.mint_lp.key, decimals: LP_DECIMALS, supply: 0 },
                    vault_x: TokenAccount { mint: self.mint_x.key, amount: 0 },
                    vault_y: TokenAccount { mint: self.mint_y.key, amount: 0 },
                },
            )
        }
    }

    /// Creates the pool. Any `fee` is accepted. A second creation on the same
    /// accounts fails and changes nothing.
    pub fn initailize(&mut self, seed: u64, fee: u16, bumps: &InitializeBumps) -> (res: Result<
        (),
        AmmError,
    >)
        ensures
            match old(self).spec_initailize(seed, fee, *bumps) {
                Ok(next) => res is Ok && *final(self) == next,
                Err(e) => res == Err::<(), AmmError>(e) && *final(self) == *old(self),
            },
            res is Ok <==> old(self).config is None,
    {
        if self.config.is_some() {
            return Err(AmmError::AlreadyInitialized);
        }
        self.config = Some(
            Config {
                seed,
                fee,
                mint_x: self.mint_x.key,
                mint_y: self.mint_y.key,
                lp_bump: bumps.mint_lp,
                bump: bumps.config,
                k: 0,
            },
        );
        self.mint_lp = Mint { key: self.mint_lp.key, decimals: LP_DECIMALS, supply: 0 };
        self.vault_x = TokenAccount { mint: self.mint_x.key, amount: 0 };
        self.vault_y = TokenAccount { mint: self.mint_y.key, amount: 0 };
        Ok(())
    }
}

/// A newly created pool is in its bootstrap state: no shares, two empty
/// reserves that hold the pool's two assets, and `k` zero.
pub proof fn lemma_initialize_effect(accounts: Initialize, seed: u64, fee: u16, bumps: InitializeBumps)
    requires
        accounts.config is None,
    ensures
        accounts.spec_initailize(seed, fee, bumps) is Ok,
        ({
            let created = accounts.spec_initailize(seed, fee, bumps)->Ok_0;
            &&& created.config == Some(accounts.new_config(seed, fee, bumps))
            &&& created.config->Some_0.k == created.vault_x.amount * created.vault_y.amount
            &&& created.mint_lp.supply == 0
            &&& created.mint_lp.decimals == 6
            &&& created.vault_x.amount == 0
            &&& created.vault_y.amount == 0
            &&& created.vault_x.mint == created.config->Some_0.mint_x
            &&& created.vault_y.mint == created.config->Some_0.mint_y
        }),
{
}

/// Creating a pool twice fails the second time with `AlreadyInitialized`,
/// whatever the second call's arguments, and the accounts after the failed
/// call are the accounts after the first.
pub proof fn lemma_initialize_twice(
    accounts: Initialize,
    seed: u64,
    fee: u16,
    bumps: InitializeBumps,
    seed_again: u64,
    fee_again: u16,
    bumps_again: InitializeBumps,
)
    ensures
        ({
            let first = settled(accounts, accounts.spec_initailize(seed, fee, bumps));
            let second = first.spec_initailize(seed_again, fee_again, bumps_again);
            &&& second == Err::<Initialize, AmmError>(AmmError::AlreadyInitialized)
            &&& settled(first, second) == first
        }),
{
}

} // verus!
