//! The failures of a pool operation.

use vstd::prelude::*;

verus! {

/// Why a pool operation was aborted. Every failure aborts the whole call and
/// leaves the state as it was before the call.
#[derive(Clone, Copy, Debug, PartialEq, Eq, Structural)]
pub enum AmmError {
    /// A checked arithmetic operation left its integer domain, or divided by zero.
    Overflow,
    /// A pool configuration already exists where a new one was to be created.
    AlreadyInitialized,
    /// A token account does not hold the asset that the operation names.
    AssetMismatch,
    /// The token ledger rejected a transfer.
    TransferError,
    /// The token ledger rejected a mint.
    MintError,
    /// The token ledger rejected a burn.
    BurnError,
}

/// The state that a call leaves behind: the new state where the call
/// succeeded, the state before the call where it failed.
pub open spec fn settled<T>(before: T, outcome: Result<T, AmmError>) -> T {
    match outcome {
        Ok(after) => after,
        Err(_) => before,
    }
}

} // verus!
