//! Swapping one asset for the other. The operation is declared and accepted,
//! and moves nothing.

use vstd::prelude::*;
use crate::state::Pubkey;

verus! {

/// The accounts of a swap.
#[derive(Clone, Copy, Debug, PartialEq, Eq)]
pub struct Swap {
    /// Who swaps.
    pub signer: Pubkey,
}

} // verus!
