//! Constant-product liquidity pool: the share-minting deposit, the
//! share-burning withdrawal, and the overflow-checked arithmetic under both.

use vstd::prelude::*;

pub mod contexts;
pub mod error;
pub mod layout;
pub mod math;
pub mod state;
pub mod token;

pub use crate::contexts::deposit::Deposit;
pub use crate::contexts::initialize::Initialize;
pub use crate::contexts::initialize::InitializeBumps;
pub use crate::contexts::swap::Swap;
pub use crate::contexts::withdraw::Withdraw;
pub use crate::error::AmmError;
pub use crate::state::Config;
pub use crate::state::Pubkey;
pub use crate::token::Mint;
pub use crate::token::TokenAccount;

verus! {

/// Creates a pool on `accounts`.
pub fn initialize(accounts: &mut Initialize, bumps: &InitializeBumps, seed: u64, fee: u16) -> (res:
    Result<(), AmmError>)
    ensures
        match old(accounts).spec_initailize(seed, fee, *bumps) {
            Ok(next) => res is Ok && *final(accounts) == next,
            Err(e) => res == Err::<(), AmmError>(e) && *final(accounts) == *old(accounts),
        },
{
    accounts.initailize(seed, fee, bumps)
}

/// Deposits liquidity into the pool and mints pool shares for it.
pub fn deposit(accounts: &mut Deposit, max_x: u64, max_y: u64) -> (res: Result<(), AmmError>)
    ensures
        match old(accounts).spec_deposit(max_x, max_y) {
            Ok(next) => res is Ok && *final(accounts) == next,
            Err(e) => res == Err::<(), AmmError>(e) && *final(accounts) == *old(accounts),
        },
{
    accounts.deposit(max_x, max_y)
}

/// Burns pool shares and pays liquidity out of the pool.
pub fn withdraw(accounts: &mut Withdraw, amount: u64, min_x: u64, min_y: u64) -> (res: Result<
    (),
    AmmError,
>)
    ensures
        match old(accounts).spec_withdraw(amount, min_x, min_y) {
            Ok(next) => res is Ok && *final(accounts) == next,
            Err(e) => res == Err::<(), AmmError>(e) && *final(accounts) == *old(accounts),
        },
{
    accounts.withdraw(amount, min_x, min_y)
}

/// Accepts a swap and changes nothing.
pub fn swap(accounts: &mut Swap, amount: u64, min_receive: u64, is_x: bool) -> (res: Result<
    (),
    AmmError,
>)
    ensures
        res is Ok,
        *final(accounts) == *old(accounts),
{
    Ok(())
}

} // verus!
