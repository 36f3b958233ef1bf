//! Withdrawing liquidity: pool shares are burned and the two assets are paid
//! out of the reserves.

use vstd::prelude::*;
use crate::error::AmmError;
use crate::math::checked_add;
use crate::math::checked_div;
use crate::math::checked_mul;
use crate::math::checked_sub;
use crate::state::invariant_k;
use crate::state::lemma_product_fits;
use crate::state::spec_invariant_k;
use crate::state::Config;
use crate::state::Pubkey;
use crate::token::burn;
use crate::token::spec_burn;
use crate::token::spec_transfer;
use crate::token::transfer;
use crate::token::Mint;
use crate::token::TokenAccount;

verus! {

/// The accounts of a withdrawal.
#[derive(Clone, Copy, Debug, PartialEq, Eq)]
pub struct Withdraw {
    /// Who redeems the pool shares.
    pub taker: Pubkey,
    /// The asset of the first reserve.
    pub mint_x: Mint,
    /// The asset of the second reserve.
    pub mint_y: Mint,
    /// Where the taker receives the first asset.
    pub taker_ata_x: TokenAccount,
    /// Where the taker receives the second asset.
    pub taker_ata_y: TokenAccount,
    /// The pool-share mint; its supply is the pool's share supply.
    pub mint_lp: Mint,
    /// The first reserve.
    pub vault_x: TokenAccount,
    /// The second reserve.
    pub vault_y: TokenAccount,
    /// The taker's pool shares.
    pub taker_lp_ata: TokenAccount,
    /// The pool's record.
    pub config: Config,
}

/// The factor of a withdrawal: `(lp_supply + lp_amount) / lp_supply`, truncated.
pub open spec fn spec_withdraw_ratio(lp_supply: u64, lp_amount: u64) -> int {
    (lp_supply + lp_amount) / (lp_supply as int)
}

/// The amounts of the two assets that redeeming `lp_amount` shares pays out:
/// `min * ratio - min` for each of `min_x` and `min_y`. It fails with
/// `Overflow` when the pool has no shares, when `lp_supply + lp_amount`
/// leaves 64 bits, or when `min_x * ratio` or `min_y * ratio` does.
pub open spec fn spec_withdraw_amounts(lp_supply: u64, lp_amount: u64, min_x: u64, min_y: u64)
    -> Result<(u64, u64), AmmError> {
    let ratio = spec_withdraw_ratio(lp_supply, lp_amount);
    if lp_supply == 0 || lp_supply + lp_amount > u64::MAX {
        Err(AmmError::Overflow)
    } else if min_x * ratio > u64::MAX || min_y * ratio > u64::MAX {
        Err(AmmError::Overflow)
    } else {
        Ok(((min_x * ratio - min_x) as u64, (min_y * ratio - min_y) as u64))
    }
}

/// The ratio of a withdrawal from a pool with shares is at least one.
pub proof fn lemma_withdraw_ratio(lp_supply: u64, lp_amount: u64)
    requires
        lp_supply > 0,
    ensures
        spec_withdraw_ratio(lp_supply, lp_amount) == 1 + lp_amount / lp_supply,
        spec_withdraw_ratio(lp_supply, lp_amount) >= 1,
{
    let s = lp_supply as int;
    let a = lp_amount as int;
    assert((s + a) / s == 1 + a / s) by (nonlinear_arith)
        requires
            s > 0,
            a >= 0,
    ;
    assert(a / s >= 0) by (nonlinear_arith)
        requires
            s > 0,
            a >= 0,
    ;
}

/// Computes the amounts that a withdrawal pays out.
pub fn withdraw_amounts(lp_supply: u64, lp_amount: u64, min_x: u64, min_y: u64) -> (res: Result<
    (u64, u64),
    AmmError,
>)
    ensures
        res == spec_withdraw_amounts(lp_supply, lp_amount, min_x, min_y),
        lp_supply == 0 ==> res == Err::<(u64, u64), AmmError>(AmmError::Overflow),
{
    let total = checked_add(lp_supply, lp_amount)?;
    let ratio = checked_div(total, lp_supply)?;
    proof {
        lemma_withdraw_ratio(lp_supply, lp_amount);
    }
    let scaled_x = checked_mul(min_x, ratio)?;
    assert(min_x * ratio >= min_x) by (nonlinear_arith)
        requires
            ratio >= 1,
            min_x >= 0,
    ;
    let amount_x = checked_sub(scaled_x, min_x)?;
    let scaled_y = checked_mul(min_y, ratio)?;
    assert(min_y * ratio >= min_y) by (nonlinear_arith)
        requires
            ratio >= 1,
            min_y >= 0,
    ;
    let amount_y = checked_sub(scaled_y, min_y)?;
    Ok((amount_x, amount_y))
}

impl Withdraw {
    /// The accounts after `amount` tokens have left a reserve for the taker:
    /// the first reserve when `is_x`, else the second.
    pub open spec fn spec_withdraw_tokens(self, amount: u64, is_x: bool) -> Result<
        Withdraw,
        AmmError,
    > {
        if is_x {
            match spec_transfer(self.vault_x, self.taker_ata_x, self.mint_x, amount) {
                Ok((vault, taker)) => Ok(Withdraw { vault_x: vault, taker_ata_x: taker, ..self }),
                Err(e) => Err(e),
            }
        } else {
            match spec_transfer(self.vault_y, self.taker_ata_y, self.mint_y, amount) {
                Ok((vault, taker)) => Ok(Withdraw { vault_y: vault, taker_ata_y: taker, ..self }),
                Err(e) => Err(e),
            }
        }
    }

    /// The accounts after `amount` of the taker's pool shares have been burned.
    pub open spec fn spec_burn_lp_tokens(self, amount: u64) -> Result<Withdraw, AmmError> {
        match spec_burn(self.mint_lp, self.taker_lp_ata, amount) {
            Ok((mint, taker)) => Ok(Withdraw { mint_lp: mint, taker_lp_ata: taker, ..self }),
            Err(e) => Err(e),
        }
    }

    /// These accounts with the pool's `k` set to the product of the reserves.
    pub open spec fn with_k_refreshed(self) -> Withdraw {
        Withdraw {
            config: Config {
                k: spec_invariant_k(self.vault_x.amount, self.vault_y.amount) as u128,
                ..self.config
            },
            ..self
        }
    }

    /// The accounts after a whole withdrawal, or the failure that aborts it:
    /// the amounts are computed, both assets are paid out, the shares are
    /// burned, and `k` is refreshed.
    pub open spec fn spec_withdraw(self, lp_amount: u64, min_x: u64, min_y: u64) -> Result<
        Withdraw,
        AmmError,
    > {
        match spec_withdraw_amounts(self.mint_lp.supply, lp_amount, min_x, min_y) {
            Err(e) => Err(e),
            Ok((amount_x, amount_y)) => match self.spec_withdraw_tokens(amount_x, true) {
                Err(e) => Err(e),
                Ok(paid_x) => match paid_x.spec_withdraw_tokens(amount_y, false) {
                    Err(e) => Err(e),
                    Ok(paid_y) => match paid_y.spec_burn_lp_tokens(lp_amount) {
                        Err(e) => Err(e),
                        Ok(burned) => Ok(burned.with_k_refreshed()),
                    },
                },
            },
        }
    }

    /// Redeems `lp_amount` pool shares. `min_x` and `min_y` are the bases of
    /// the amounts paid out. On failure nothing has changed.
    pub fn withdraw(&mut self, lp_amount: u64, min_x: u64, min_y: u64) -> (res: Result<
        (),
        AmmError,
    >)
        ensures
            match old(self).spec_withdraw(lp_amount, min_x, min_y) {
                Ok(next) => res is Ok && *final(self) == next,
                Err(e) => res == Err::<(), AmmError>(e) && *final(self) == *old(self),
            },
            res is Err ==> *final(self) == *old(self),
            old(self).mint_lp.supply == 0 ==> res == Err::<(), AmmError>(AmmError::Overflow),
    {
        let (amount_x, amount_y) = withdraw_amounts(self.mint_lp.supply, lp_amount, min_x, min_y)?;
        let mut next = *self;
        next.withdraw_tokens(amount_x, true)?;
        next.withdraw_tokens(amount_y, false)?;
        next.burn_lp_tokens(lp_amount)?;
        next.config.k = invariant_k(next.vault_x.amount, next.vault_y.amount);
        *self = next;
        Ok(())
    }

    /// Pays `amount` tokens out of a reserve to the taker: out of the first
    /// reserve when `is_x`, else out of the second.
    pub fn withdraw_tokens(&mut self, amount: u64, is_x: bool) -> (res: Result<(), AmmError>)
        ensures
            match old(self).spec_withdraw_tokens(amount, is_x) {
                Ok(next) => res is Ok && *final(self) == next,
                Err(e) => res == Err::<(), AmmError>(e) && *final(self) == *old(self),
            },
    {
        if is_x {
            transfer(&mut self.vault_x, &mut self.taker_ata_x, &self.mint_x, amount)
        } else {
            transfer(&mut self.vault_y, &mut self.taker_ata_y, &self.mint_y, amount)
        }
    }

    /// Burns `amount` of the taker's pool shares.
    pub fn burn_lp_tokens(&mut self, amount: u64) -> (res: Result<(), AmmError>)
        ensures
            match old(self).spec_burn_lp_tokens(amount) {
                Ok(next) => res is Ok && *final(self) == next,
                Err(e) => res == Err::<(), AmmError>(e) && *final(self) == *old(self),
            },
    {
        burn(&mut self.mint_lp, &mut self.taker_lp_ata, amount)
    }
}


/// The amounts of a withdrawal in closed form: each is its base times
/// `lp_amount / lp_supply`, truncated.
pub proof fn lemma_withdraw_amounts_closed_form(
    lp_supply: u64,
    lp_amount: u64,
    min_x: u64,
    min_y: u64,
)
    ensures
        spec_withdraw_amounts(lp_supply, lp_amount, min_x, min_y) matches Ok(
            (amount_x, amount_y),
        ) ==> amount_x == min_x * (lp_amount / lp_supply) && amount_y == min_y * (lp_amount
            / lp_supply),
{
    if lp_supply > 0 {
        lemma_withdraw_ratio(lp_supply, lp_amount);
        let whole = (lp_amount / lp_supply) as int;
        assert(min_x * (1 + whole) - min_x == min_x * whole) by (nonlinear_arith);
        assert(min_y * (1 + whole) - min_y == min_y * whole) by (nonlinear_arith);
    }
}

/// Redeeming fewer shares than the pool has issued pays out nothing of either
/// asset, whatever the bases: the ratio truncates to one.
pub proof fn lemma_withdraw_below_supply_pays_nothing(
    lp_supply: u64,
    lp_amount: u64,
    min_x: u64,
    min_y: u64,
)
    requires
        lp_amount < lp_supply,
        lp_supply + lp_amount <= u64::MAX,
    ensures
        spec_withdraw_ratio(lp_supply, lp_amount) == 1,
        spec_withdraw_amounts(lp_supply, lp_amount, min_x, min_y) == Ok::<(u64, u64), AmmError>(
            (0, 0),
        ),
{
    lemma_withdraw_ratio(lp_supply, lp_amount);
    let s = lp_supply as int;
    let a = lp_amount as int;
    assert(a / s == 0) by (nonlinear_arith)
        requires
            0 <= a < s,
    ;
    assert(min_x * 1 == min_x) by (nonlinear_arith);
    assert(min_y * 1 == min_y) by (nonlinear_arith);
}

/// A withdrawal fails with `Overflow` exactly when its amounts cannot be
/// computed: the pool has no shares, or `lp_supply + lp_amount`, or one of
/// the two scaled bases, leaves 64 bits.
pub proof fn lemma_withdraw_overflows_iff(pre: Withdraw, lp_amount: u64, min_x: u64, min_y: u64)
    ensures
        pre.spec_withdraw(lp_amount, min_x, min_y) == Err::<Withdraw, AmmError>(
            AmmError::Overflow,
        ) <==> spec_withdraw_amounts(pre.mint_lp.supply, lp_amount, min_x, min_y) is Err,
        spec_withdraw_amounts(pre.mint_lp.supply, lp_amount, min_x, min_y) is Err <==> {
            ||| pre.mint_lp.supply == 0
            ||| pre.mint_lp.supply + lp_amount > u64::MAX
            ||| min_x * spec_withdraw_ratio(pre.mint_lp.supply, lp_amount) > u64::MAX
            ||| min_y * spec_withdraw_ratio(pre.mint_lp.supply, lp_amount) > u64::MAX
        },
{
}

/// When a withdrawal goes through: the amounts can be computed, every
/// account holds the asset it is used for, the reserves can pay both
/// amounts, the taker holds the shares to burn, and no balance would leave
/// 64 bits.
pub open spec fn withdraw_accepted(pre: Withdraw, lp_amount: u64, min_x: u64, min_y: u64) -> bool {
    &&& spec_withdraw_amounts(pre.mint_lp.supply, lp_amount, min_x, min_y) matches Ok(
        (amount_x, amount_y),
    )
    &&& pre.vault_x.mint == pre.mint_x.key
    &&& pre.taker_ata_x.mint == pre.mint_x.key
    &&& pre.vault_y.mint == pre.mint_y.key
    &&& pre.taker_ata_y.mint == pre.mint_y.key
    &&& pre.taker_lp_ata.mint == pre.mint_lp.key
    &&& amount_x <= pre.vault_x.amount
    &&& amount_y <= pre.vault_y.amount
    &&& pre.taker_ata_x.amount + amount_x <= u64::MAX
    &&& pre.taker_ata_y.amount + amount_y <= u64::MAX
    &&& lp_amount <= pre.taker_lp_ata.amount
    &&& lp_amount <= pre.mint_lp.supply
}

/// A withdrawal succeeds exactly when `withdraw_accepted` holds of it.
pub proof fn lemma_withdraw_succeeds_iff(pre: Withdraw, lp_amount: u64, min_x: u64, min_y: u64)
    ensures
        pre.spec_withdraw(lp_amount, min_x, min_y) is Ok <==> withdraw_accepted(
            pre,
            lp_amount,
            min_x,
            min_y,
        ),
{
}

/// What a successful withdrawal changes. With `(amount_x, amount_y)` the
/// amounts of `spec_withdraw_amounts`: the reserves pay exactly these
/// amounts and the taker receives them; share supply and taker's shares both
/// shrink by `lp_amount`; `k` is the product of the new reserves; nothing
/// else changes.
pub proof fn lemma_withdraw_effect(pre: Withdraw, lp_amount: u64, min_x: u64, min_y: u64)
    requires
        pre.spec_withdraw(lp_amount, min_x, min_y) is Ok,
    ensures
        spec_withdraw_amounts(pre.mint_lp.supply, lp_amount, min_x, min_y) is Ok,
        ({
            let post = pre.spec_withdraw(lp_amount, min_x, min_y)->Ok_0;
            let (amount_x, amount_y) = spec_withdraw_amounts(
                pre.mint_lp.supply,
                lp_amount,
                min_x,
                min_y,
            )->Ok_0;
            &&& post.vault_x.amount == pre.vault_x.amount - amount_x
            &&& post.vault_y.amount == pre.vault_y.amount - amount_y
            &&& post.taker_ata_x.amount == pre.taker_ata_x.amount + amount_x
            &&& post.taker_ata_y.amount == pre.taker_ata_y.amount + amount_y
            &&& post.mint_lp.supply == pre.mint_lp.supply - lp_amount
            &&& post.taker_lp_ata.amount == pre.taker_lp_ata.amount - lp_amount
            &&& post.config.k == post.vault_x.amount * post.vault_y.amount
            &&& post == (Withdraw {
                taker_ata_x: TokenAccount { amount: post.taker_ata_x.amount, ..pre.taker_ata_x },
                taker_ata_y: TokenAccount { amount: post.taker_ata_y.amount, ..pre.taker_ata_y },
                vault_x: TokenAccount { amount: post.vault_x.amount, ..pre.vault_x },
                vault_y: TokenAccount { amount: post.vault_y.amount, ..pre.vault_y },
                mint_lp: Mint { supply: post.mint_lp.supply, ..pre.mint_lp },
                taker_lp_ata: TokenAccount { amount: post.taker_lp_ata.amount, ..pre.taker_lp_ata },
                config: Config { k: post.config.k, ..pre.config },
                ..pre
            })
        }),
{
    let post = pre.spec_withdraw(lp_amount, min_x, min_y)->Ok_0;
    lemma_product_fits(post.vault_x.amount, post.vault_y.amount);
}

} // verus!
