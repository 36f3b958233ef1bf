//! Depositing liquidity: the maker pays both assets into the reserves and
//! receives newly minted pool shares.

use vstd::prelude::*;
use crate::error::AmmError;
use crate::math::checked_div;
use crate::math::checked_mul;
use crate::state::invariant_k;
use crate::state::lemma_product_fits;
use crate::state::spec_invariant_k;
use crate::state::Config;
use crate::state::Pubkey;
use crate::token::mint_to;
use crate::token::spec_mint_to;
use crate::token::spec_transfer;
use crate::token::transfer;
use crate::token::Mint;
use crate::token::TokenAccount;

verus! {

/// The accounts of a deposit.
#[derive(Clone, Copy, Debug, PartialEq, Eq)]
pub struct Deposit {
    /// Who deposits.
    pub maker: Pubkey,
    /// The asset of the first reserve.
    pub mint_x: Mint,
    /// The asset of the second reserve.
    pub mint_y: Mint,
    /// Where the maker pays the first asset from.
    pub maker_ata_x: TokenAccount,
    /// Where the maker pays the second asset from.
    pub maker_ata_y: TokenAccount,
    /// The pool-share mint; its supply is the pool's share supply.
    pub mint_lp: Mint,
    /// The first reserve.
    pub vault_x: TokenAccount,
    /// The second reserve.
    pub vault_y: TokenAccount,
    /// Where the maker receives pool shares.
    pub maker_lp_ata: TokenAccount,
    /// The pool's record.
    pub config: Config,
}

/// A pool that no deposit has reached yet: no shares and two empty reserves.
pub open spec fn is_bootstrap(lp_supply: u64, reserve_x: u64, reserve_y: u64) -> bool {
    lp_supply == 0 && reserve_x == 0 && reserve_y == 0
}

/// The amounts of the two assets that a deposit takes, given the most that
/// the maker offers of each.
///
/// Into a pool in its bootstrap state both maxima are taken as they are.
/// Otherwise the price is `ratio = reserve_x / reserve_y`, truncated, and the
/// deposit is `(max_x, max_x / ratio)` if that stays within `max_y`, else
/// `(max_y / ratio, max_y)`. It fails with `Overflow` when the price is zero
/// or undefined, that is when `reserve_y` is zero or exceeds `reserve_x`.
pub open spec fn spec_deposit_amounts(
    lp_supply: u64,
    reserve_x: u64,
    reserve_y: u64,
    max_x: u64,
    max_y: u64,
) -> Result<(u64, u64), AmmError> {
    if is_bootstrap(lp_supply, reserve_x, reserve_y) {
        Ok((max_x, max_y))
    } else if reserve_y == 0 || reserve_x < reserve_y {
        Err(AmmError::Overflow)
    } else {
        let ratio = reserve_x / reserve_y;
        if max_x / ratio <= max_y {
            Ok((max_x, max_x / ratio))
        } else {
            Ok((max_y / ratio, max_y))
        }
    }
}

/// The pool shares minted for a deposit: the product of the two amounts, or
/// `Overflow` when it does not fit in 64 bits.
pub open spec fn spec_lp_tokens(amount_x: u64, amount_y: u64) -> Result<u64, AmmError> {
    if amount_x * amount_y <= u64::MAX {
        Ok((amount_x * amount_y) as u64)
    } else {
        Err(AmmError::Overflow)
    }
}

/// Computes the amounts that a deposit takes. Neither exceeds the maximum
/// that the maker offered.
pub fn deposit_amounts(lp_supply: u64, reserve_x: u64, reserve_y: u64, max_x: u64, max_y: u64) -> (res:
    Result<(u64, u64), AmmError>)
    ensures
        res == spec_deposit_amounts(lp_supply, reserve_x, reserve_y, max_x, max_y),
        res matches Ok((amount_x, amount_y)) ==> amount_x <= max_x && amount_y <= max_y,
{
    if lp_supply == 0 && reserve_x == 0 && reserve_y == 0 {
        return Ok((max_x, max_y));
    }
    let ratio = checked_div(reserve_x, reserve_y)?;
    assert(ratio == 0 <==> reserve_x < reserve_y) by (nonlinear_arith)
        requires
            reserve_y > 0,
            ratio == reserve_x as int / reserve_y as int,
    ;
    let dy = checked_div(max_x, ratio)?;
    assert(dy <= max_x) by (nonlinear_arith)
        requires
            ratio >= 1,
            dy == max_x as int / ratio as int,
    ;
    if dy <= max_y {
        Ok((max_x, dy))
    } else {
        let dx = checked_div(max_y, ratio)?;
        assert(dx <= max_y) by (nonlinear_arith)
            requires
                ratio >= 1,
                dx == max_y as int / ratio as int,
        ;
        Ok((dx, max_y))
    }
}

/// Computes the pool shares minted for a deposit of `amount_x` and `amount_y`.
pub fn lp_tokens(amount_x: u64, amount_y: u64) -> (res: Result<u64, AmmError>)
    ensures
        res == spec_lp_tokens(amount_x, amount_y),
{
    checked_mul(amount_x, amount_y)
}

impl Deposit {
    /// The accounts after the maker has paid `amount` tokens into a reserve:
    /// into the first reserve when `is_x`, else into the second.
    pub open spec fn spec_deposit_tokens(self, amount: u64, is_x: bool) -> Result<
        Deposit,
        AmmError,
    > {
        if is_x {
            match spec_transfer(self.maker_ata_x, self.vault_x, self.mint_x, amount) {
                Ok((maker, vault)) => Ok(Deposit { maker_ata_x: maker, vault_x: vault, ..self }),
                Err(e) => Err(e),
            }
        } else {
            match spec_transfer(self.maker_ata_y, self.vault_y, self.mint_y, amount) {
                Ok((maker, vault)) => Ok(Deposit { maker_ata_y: maker, vault_y: vault, ..self }),
                Err(e) => Err(e),
            }
        }
    }

    /// The accounts after the shares for a deposit of `amount_x` and
    /// `amount_y` have been minted to the maker.
    pub open spec fn spec_mint_lp_tokens(self, amount_x: u64, amount_y: u64) -> Result<
        Deposit,
        AmmError,
    > {
        match spec_lp_tokens(amount_x, amount_y) {
            Err(e) => Err(e),
            Ok(amount) => match spec_mint_to(self.mint_lp, self.maker_lp_ata, amount) {
                Ok((mint, maker)) => Ok(Deposit { mint_lp: mint, maker_lp_ata: maker, ..self }),
                Err(e) => Err(e),
            },
        }
    }

    /// These accounts with the pool's `k` set to the product of the reserves.
    pub open spec fn with_k_refreshed(self) -> Deposit {
        Deposit {
            config: Config {
                k: spec_invariant_k(self.vault_x.amount, self.vault_y.amount) as u128,
                ..self.config
            },
            ..self
        }
    }

    /// The accounts after a whole deposit, or the failure that aborts it: the
    /// amounts are computed, both assets are paid in, the shares are minted,
    /// and `k` is refreshed.
    pub open spec fn spec_deposit(self, max_x: u64, max_y: u64) -> Result<Deposit, AmmError> {
        match spec_deposit_amounts(
            self.mint_lp.supply,
            self.vault_x.amount,
            self.vault_y.amount,
            max_x,
            max_y,
        ) {
            Err(e) => Err(e),
            Ok((amount_x, amount_y)) => match self.spec_deposit_tokens(amount_x, true) {
                Err(e) => Err(e),
                Ok(paid_x) => match paid_x.spec_deposit_tokens(amount_y, false) {
                    Err(e) => Err(e),
                    Ok(paid_y) => match paid_y.spec_mint_lp_tokens(amount_x, amount_y) {
                        Err(e) => Err(e),
                        Ok(minted) => Ok(minted.with_k_refreshed()),
                    },
                },
            },
        }
    }

    /// Deposits at most `max_x` of the first asset and at most `max_y` of the
    /// second, and mints the pool shares for it. On failure nothing has
    /// changed.
    pub fn deposit(&mut self, max_x: u64, max_y: u64) -> (res: Result<(), AmmError>)
        ensures
            match old(self).spec_deposit(max_x, max_y) {
                Ok(next) => res is Ok && *final(self) == next,
                Err(e) => res == Err::<(), AmmError>(e) && *final(self) == *old(self),
            },
            res is Err ==> *final(self) == *old(self),
    {
        let (amount_x, amount_y) = deposit_amounts(
            self.mint_lp.supply,
            self.vault_x.amount,
            self.vault_y.amount,
            max_x,
            max_y,
        )?;
        let mut next = *self;
        next.deposit_tokens(amount_x, true)?;
        next.deposit_tokens(amount_y, false)?;
        next.mint_lp_tokens(amount_x, amount_y)?;
        next.config.k = invariant_k(next.vault_x.amount, next.vault_y.amount);
        *self = next;
        Ok(())
    }

    /// Pays `amount` tokens from the maker into a reserve: into the first
    /// reserve when `is_x`, else into the second.
    pub fn deposit_tokens(&mut self, amount: u64, is_x: bool) -> (res: Result<(), AmmError>)
        ensures
            match old(self).spec_deposit_tokens(amount, is_x) {
                Ok(next) => res is Ok && *final(self) == next,
                Err(e) => res == Err::<(), AmmError>(e) && *final(self) == *old(self),
            },
    {
        if is_x {
            transfer(&mut self.maker_ata_x, &mut self.vault_x, &self.mint_x, amount)
        } else {
            transfer(&mut self.maker_ata_y, &mut self.vault_y, &self.mint_y, amount)
        }
    }

    /// Mints the pool shares for a deposit of `amount_x` and `amount_y` to
    /// the maker: `amount_x * amount_y` of them.
    pub fn mint_lp_tokens(&mut self, amount_x: u64, amount_y: u64) -> (res: Result<(), AmmError>)
        ensures
            match old(self).spec_mint_lp_tokens(amount_x, amount_y) {
                Ok(next) => res is Ok && *final(self) == next,
                Err(e) => res == Err::<(), AmmError>(e) && *final(self) == *old(self),
            },
    {
        let amount = lp_tokens(amount_x, amount_y)?;
        mint_to(&mut self.mint_lp, &mut self.maker_lp_ata, amount)
    }
}


/// The price of the first asset in units of the second, as the pool computes
/// it: `reserve_x / reserve_y`, truncated.
pub open spec fn spec_price(reserve_x: int, reserve_y: int) -> int {
    reserve_x / reserve_y
}

/// Whether a deposit into a seeded pool leaves the truncated price as it was.
///
/// With `ratio` the price before and `rest = reserve_x % reserve_y`: a deposit
/// of `(max_x, max_x / ratio)` keeps the price when the two remainders
/// together stay below the new second reserve; a deposit of
/// `(max_y / ratio, max_y)` keeps it when `ratio * max_y` is covered by
/// `rest + max_y / ratio`.
pub open spec fn price_stable(reserve_x: u64, reserve_y: u64, max_x: u64, max_y: u64) -> bool {
    let ratio = reserve_x / reserve_y;
    let rest = reserve_x % reserve_y;
    if max_x / ratio <= max_y {
        rest + max_x % ratio < reserve_y + max_x / ratio
    } else {
        ratio * max_y <= rest + max_y / ratio
    }
}

proof fn lemma_quotient_bounds(n: int, d: int, q: int)
    by (nonlinear_arith)
    requires
        d > 0,
    ensures
        (n / d == q) <==> (q * d <= n && n < (q + 1) * d),
{
}

proof fn lemma_div_mod_parts(n: int, d: int)
    by (nonlinear_arith)
    requires
        n >= 0,
        d > 0,
    ensures
        n == (n / d) * d + n % d,
        0 <= n % d < d,
        0 <= n / d <= n,
{
}

/// A deposit into a seeded pool keeps the truncated price
/// `reserve_x / reserve_y` exactly when `price_stable` holds of it.
pub proof fn lemma_deposit_price(
    lp_supply: u64,
    reserve_x: u64,
    reserve_y: u64,
    max_x: u64,
    max_y: u64,
)
    requires
        reserve_x > 0,
        reserve_y > 0,
        spec_deposit_amounts(lp_supply, reserve_x, reserve_y, max_x, max_y) is Ok,
    ensures
        ({
            let (amount_x, amount_y) = spec_deposit_amounts(
                lp_supply,
                reserve_x,
                reserve_y,
                max_x,
                max_y,
            )->Ok_0;
            spec_price(reserve_x + amount_x, reserve_y + amount_y) == spec_price(
                reserve_x as int,
                reserve_y as int,
            ) <==> price_stable(reserve_x, reserve_y, max_x, max_y)
        }),
{
    let (amount_x, amount_y) = spec_deposit_amounts(
        lp_supply,
        reserve_x,
        reserve_y,
        max_x,
        max_y,
    )->Ok_0;
    let ratio = (reserve_x / reserve_y) as int;
    let rest = (reserve_x % reserve_y) as int;
    lemma_div_mod_parts(reserve_x as int, reserve_y as int);
    assert(ratio >= 1) by {
        lemma_quotient_bounds(reserve_x as int, reserve_y as int, 0);
    }
    let n = reserve_x + amount_x;
    let d = reserve_y + amount_y;
    lemma_quotient_bounds(n, d, ratio);
    if max_x / (ratio as u64) <= max_y {
        lemma_div_mod_parts(max_x as int, ratio);
        let dy = max_x as int / ratio;
        let t = max_x as int % ratio;
        assert(n == ratio * d + (rest + t)) by (nonlinear_arith)
            requires
                n == reserve_x + max_x,
                d == reserve_y + dy,
                reserve_x == ratio * reserve_y + rest,
                max_x == dy * ratio + t,
        ;
        assert((ratio + 1) * d == ratio * d + d) by (nonlinear_arith);
    } else {
        lemma_div_mod_parts(max_y as int, ratio);
        let dx = max_y as int / ratio;
        assert(n == ratio * reserve_y + rest + dx);
        assert(ratio * d == ratio * reserve_y + ratio * max_y) by (nonlinear_arith)
            requires
                d == reserve_y + max_y,
        ;
        assert((ratio + 1) * d == ratio * d + d) by (nonlinear_arith);
        assert(ratio * max_y >= max_y) by (nonlinear_arith)
            requires
                ratio >= 1,
                max_y >= 0,
        ;
    }
}

/// A successful deposit into a pool with two non-empty reserves leaves the
/// truncated price `reserve_x / reserve_y` as it was, whenever `price_stable`
/// holds of it.
pub proof fn lemma_deposit_keeps_price(pre: Deposit, max_x: u64, max_y: u64)
    requires
        pre.vault_x.amount > 0,
        pre.vault_y.amount > 0,
        pre.spec_deposit(max_x, max_y) is Ok,
        price_stable(pre.vault_x.amount, pre.vault_y.amount, max_x, max_y),
    ensures
        ({
            let post = pre.spec_deposit(max_x, max_y)->Ok_0;
            post.vault_x.amount / post.vault_y.amount == pre.vault_x.amount / pre.vault_y.amount
        }),
{
    lemma_deposit_effect(pre, max_x, max_y);
    lemma_deposit_price(pre.mint_lp.supply, pre.vault_x.amount, pre.vault_y.amount, max_x, max_y);
}

/// What a successful deposit changes. With `(amount_x, amount_y)` the amounts
/// of `spec_deposit_amounts`, neither above its maximum: the maker pays
/// exactly these amounts and the reserves receive them; share supply and
/// maker's shares both grow by `amount_x * amount_y`; `k` is the product of
/// the new reserves; nothing else changes.
pub proof fn lemma_deposit_effect(pre: Deposit, max_x: u64, max_y: u64)
    requires
        pre.spec_deposit(max_x, max_y) is Ok,
    ensures
        spec_deposit_amounts(
            pre.mint_lp.supply,
            pre.vault_x.amount,
            pre.vault_y.amount,
            max_x,
            max_y,
        ) is Ok,
        ({
            let post = pre.spec_deposit(max_x, max_y)->Ok_0;
            let (amount_x, amount_y) = spec_deposit_amounts(
                pre.mint_lp.supply,
                pre.vault_x.amount,
                pre.vault_y.amount,
                max_x,
                max_y,
            )->Ok_0;
            &&& amount_x <= max_x
            &&& amount_y <= max_y
            &&& post.maker_ata_x.amount == pre.maker_ata_x.amount - amount_x
            &&& post.maker_ata_y.amount == pre.maker_ata_y.amount - amount_y
            &&& post.vault_x.amount == pre.vault_x.amount + amount_x
            &&& post.vault_y.amount == pre.vault_y.amount + amount_y
            &&& post.mint_lp.supply == pre.mint_lp.supply + amount_x * amount_y
            &&& post.maker_lp_ata.amount == pre.maker_lp_ata.amount + amount_x * amount_y
            &&& post.config.k == post.vault_x.amount * post.vault_y.amount
            &&& post == (Deposit {
                maker_ata_x: TokenAccount { amount: post.maker_ata_x.amount, ..pre.maker_ata_x },
                maker_ata_y: TokenAccount { amount: post.maker_ata_y.amount, ..pre.maker_ata_y },
                vault_x: TokenAccount { amount: post.vault_x.amount, ..pre.vault_x },
                vault_y: TokenAccount { amount: post.vault_y.amount, ..pre.vault_y },
                mint_lp: Mint { supply: post.mint_lp.supply, ..pre.mint_lp },
                maker_lp_ata: TokenAccount { amount: post.maker_lp_ata.amount, ..pre.maker_lp_ata },
                config: Config { k: post.config.k, ..pre.config },
                ..pre
            })
        }),
{
    let (amount_x, amount_y) = spec_deposit_amounts(
        pre.mint_lp.supply,
        pre.vault_x.amount,
        pre.vault_y.amount,
        max_x,
        max_y,
    )->Ok_0;
    lemma_deposit_amounts_within_maxima(
        pre.mint_lp.supply,
        pre.vault_x.amount,
        pre.vault_y.amount,
        max_x,
        max_y,
    );
    let post = pre.spec_deposit(max_x, max_y)->Ok_0;
    lemma_product_fits(post.vault_x.amount, post.vault_y.amount);
}

/// The amounts of a deposit never exceed the maxima that the maker offered.
pub proof fn lemma_deposit_amounts_within_maxima(
    lp_supply: u64,
    reserve_x: u64,
    reserve_y: u64,
    max_x: u64,
    max_y: u64,
)
    ensures
        spec_deposit_amounts(lp_supply, reserve_x, reserve_y, max_x, max_y) matches Ok(
            (amount_x, amount_y),
        ) ==> amount_x <= max_x && amount_y <= max_y,
{
    if !is_bootstrap(lp_supply, reserve_x, reserve_y) && reserve_y != 0 && reserve_x >= reserve_y {
        let ratio = (reserve_x / reserve_y) as int;
        assert(ratio >= 1) by {
            lemma_quotient_bounds(reserve_x as int, reserve_y as int, 0);
        }
        lemma_div_mod_parts(max_x as int, ratio);
        lemma_div_mod_parts(max_y as int, ratio);
    }
}

/// When a deposit goes through: the amounts can be computed, every account
/// holds the asset it is used for, the maker can pay both amounts, the
/// product of the amounts fits in 64 bits, and no balance or supply would
/// leave 64 bits.
pub open spec fn deposit_accepted(pre: Deposit, max_x: u64, max_y: u64) -> bool {
    &&& spec_deposit_amounts(
        pre.mint_lp.supply,
        pre.vault_x.amount,
        pre.vault_y.amount,
        max_x,
        max_y,
    ) matches Ok((amount_x, amount_y))
    &&& pre.maker_ata_x.mint == pre.mint_x.key
    &&& pre.vault_x.mint == pre.mint_x.key
    &&& pre.maker_ata_y.mint == pre.mint_y.key
    &&& pre.vault_y.mint == pre.mint_y.key
    &&& pre.maker_lp_ata.mint == pre.mint_lp.key
    &&& amount_x <= pre.maker_ata_x.amount
    &&& amount_y <= pre.maker_ata_y.amount
    &&& pre.vault_x.amount + amount_x <= u64::MAX
    &&& pre.vault_y.amount + amount_y <= u64::MAX
    &&& amount_x * amount_y <= u64::MAX
    &&& pre.mint_lp.supply + amount_x * amount_y <= u64::MAX
    &&& pre.maker_lp_ata.amount + amount_x * amount_y <= u64::MAX
}

/// A deposit succeeds exactly when `deposit_accepted` holds of it.
pub proof fn lemma_deposit_succeeds_iff(pre: Deposit, max_x: u64, max_y: u64)
    ensures
        pre.spec_deposit(max_x, max_y) is Ok <==> deposit_accepted(pre, max_x, max_y),
{
}

/// A deposit fails with `Overflow` exactly when its amounts cannot be
/// computed, or when both payments would go through and the product of the
/// amounts does not fit in 64 bits.
pub proof fn lemma_deposit_overflows_iff(pre: Deposit, max_x: u64, max_y: u64)
    ensures
        pre.spec_deposit(max_x, max_y) == Err::<Deposit, AmmError>(AmmError::Overflow) <==> {
            match spec_deposit_amounts(
                pre.mint_lp.supply,
                pre.vault_x.amount,
                pre.vault_y.amount,
                max_x,
                max_y,
            ) {
                Err(_) => true,
                Ok((amount_x, amount_y)) => {
                    &&& spec_transfer(pre.maker_ata_x, pre.vault_x, pre.mint_x, amount_x) is Ok
                    &&& spec_transfer(pre.maker_ata_y, pre.vault_y, pre.mint_y, amount_y) is Ok
                    &&& amount_x * amount_y > u64::MAX
                },
            }
        },
{
}

} // verus!
