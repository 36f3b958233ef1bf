//! The token ledger as the pool sees it: mints, token accounts, and the three
//! operations that move, create and destroy tokens.
//!
//! Each operation either takes full effect or changes nothing.

use vstd::prelude::*;
use crate::error::AmmError;
use crate::state::Pubkey;

verus! {

/// A fungible asset and its total supply.
#[derive(Clone, Copy, Debug, PartialEq, Eq)]
pub struct Mint {
    /// The asset's identifier.
    pub key: Pubkey,
    /// Number of decimal places of one token.
    pub decimals: u8,
    /// Tokens of this asset in existence.
    pub supply: u64,
}

/// A balance of one asset.
#[derive(Clone, Copy, Debug, PartialEq, Eq)]
pub struct TokenAccount {
    /// The asset that this account holds.
    pub mint: Pubkey,
    /// Tokens held.
    pub amount: u64,
}

impl TokenAccount {
    /// This account with `amount` more tokens.
    pub open spec fn credited(self, amount: u64) -> TokenAccount {
        TokenAccount { mint: self.mint, amount: (self.amount + amount) as u64 }
    }

    /// This account with `amount` fewer tokens.
    pub open spec fn debited(self, amount: u64) -> TokenAccount {
        TokenAccount { mint: self.mint, amount: (self.amount - amount) as u64 }
    }
}

impl Mint {
    /// This mint with `amount` more tokens in existence.
    pub open spec fn grown(self, amount: u64) -> Mint {
        Mint { key: self.key, decimals: self.decimals, supply: (self.supply + amount) as u64 }
    }

    /// This mint with `amount` fewer tokens in existence.
    pub open spec fn shrunk(self, amount: u64) -> Mint {
        Mint { key: self.key, decimals: self.decimals, supply: (self.supply - amount) as u64 }
    }
}

/// What a transfer of `amount` tokens of `mint` does to the paying and the
/// receiving account. It is rejected with `AssetMismatch` unless both
/// accounts hold `mint`, and with `TransferError` when the payer holds less
/// than `amount` or the receiver's balance would leave 64 bits.
pub open spec fn spec_transfer(
    from: TokenAccount,
    to: TokenAccount,
    mint: Mint,
    amount: u64,
) -> Result<(TokenAccount, TokenAccount), AmmError> {
    if from.mint != mint.key || to.mint != mint.key {
        Err(AmmError::AssetMismatch)
    } else if from.amount < amount || to.amount + amount > u64::MAX {
        Err(AmmError::TransferError)
    } else {
        Ok((from.debited(amount), to.credited(amount)))
    }
}

/// What minting `amount` new tokens into `to` does to the mint and the
/// account. It is rejected with `AssetMismatch` unless `to` holds `mint`, and
/// with `MintError` when the supply or the balance would leave 64 bits.
pub open spec fn spec_mint_to(mint: Mint, to: TokenAccount, amount: u64) -> Result<
    (Mint, TokenAccount),
    AmmError,
> {
    if to.mint != mint.key {
        Err(AmmError::AssetMismatch)
    } else if mint.supply + amount > u64::MAX || to.amount + amount > u64::MAX {
        Err(AmmError::MintError)
    } else {
        Ok((mint.grown(amount), to.credited(amount)))
    }
}

/// What burning `amount` tokens out of `from` does to the mint and the
/// account. It is rejected with `AssetMismatch` unless `from` holds `mint`,
/// and with `BurnError` when the account or the supply holds less than
/// `amount`.
pub open spec fn spec_burn(mint: Mint, from: TokenAccount, amount: u64) -> Result<
    (Mint, TokenAccount),
    AmmError,
> {
    if from.mint != mint.key {
        Err(AmmError::AssetMismatch)
    } else if from.amount < amount || mint.supply < amount {
        Err(AmmError::BurnError)
    } else {
        Ok((mint.shrunk(amount), from.debited(amount)))
    }
}

/// Moves exactly `amount` tokens of `mint` from `from` to `to`.
pub fn transfer(
    from: &mut TokenAccount,
    to: &mut TokenAccount,
    mint: &Mint,
    amount: u64,
) -> (res: Result<(), AmmError>)
    ensures
        match spec_transfer(*old(from), *old(to), *mint, amount) {
            Ok((paid, received)) => res is Ok && *final(from) == paid && *final(to) == received,
            Err(e) => res == Err::<(), AmmError>(e) && *final(from) == *old(from) && *final(to)
                == *old(to),
        },
{
    if from.mint != mint.key || to.mint != mint.key {
        return Err(AmmError::AssetMismatch);
    }
    if from.amount < amount || to.amount > u64::MAX - amount {
        return Err(AmmError::TransferError);
    }
    from.amount = from.amount - amount;
    to.amount = to.amount + amount;
    Ok(())
}

/// Creates `amount` new tokens of `mint` in `to`.
pub fn mint_to(mint: &mut Mint, to: &mut TokenAccount, amount: u64) -> (res: Result<(), AmmError>)
    ensures
        match spec_mint_to(*old(mint), *old(to), amount) {
            Ok((grown, received)) => res is Ok && *final(mint) == grown && *final(to) == received,
            Err(e) => res == Err::<(), AmmError>(e) && *final(mint) == *old(mint) && *final(to)
                == *old(to),
        },
{
    if to.mint != mint.key {
        return Err(AmmError::AssetMismatch);
    }
    if mint.supply > u64::MAX - amount || to.amount > u64::MAX - amount {
        return Err(AmmError::MintError);
    }
    mint.supply = mint.supply + amount;
    to.amount = to.amount + amount;
    Ok(())
}

/// Destroys `amount` tokens of `mint` held in `from`.
pub fn burn(mint: &mut Mint, from: &mut TokenAccount, amount: u64) -> (res: Result<(), AmmError>)
    ensures
        match spec_burn(*old(mint), *old(from), amount) {
            Ok((shrunk, paid)) => res is Ok && *final(mint) == shrunk && *final(from) == paid,
            Err(e) => res == Err::<(), AmmError>(e) && *final(mint) == *old(mint) && *final(from)
                == *old(from),
        },
{
    if from.mint != mint.key {
        return Err(AmmError::AssetMismatch);
    }
    if from.amount < amount || mint.supply < amount {
        return Err(AmmError::BurnError);
    }
    mint.supply = mint.supply - amount;
    from.amount = from.amount - amount;
    Ok(())
}

} // verus!
