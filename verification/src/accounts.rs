use vstd::prelude::*;
use crate::pool::AssetId;

verus! {

/// Snapshot of the externally owned accounts touched by a deposit, read at
/// the start of the operation and valid only for its duration.
///
/// `to_a` / `to_b` are the pool's reserve accounts for assets A and B:
/// each carries the asset identity it holds and its current balance.
/// `mint_c` is the identity of the liquidity-share asset account that will
/// mint the caller's shares. `now` is the current time reference supplied
/// by the environment.
#[derive(Clone, Copy, PartialEq, Eq, Structural, Debug)]
pub struct AddLiquidity {
    /// Asset identity held by the pool's reserve-A account.
    pub to_a_mint: AssetId,
    /// Current balance of the pool's reserve-A account.
    pub to_a_amount: u64,
    /// Asset identity held by the pool's reserve-B account.
    pub to_b_mint: AssetId,
    /// Current balance of the pool's reserve-B account.
    pub to_b_amount: u64,
    /// Identity of the liquidity-share asset to mint from.
    pub mint_c: AssetId,
    /// Current time reference, for the deadline check.
    pub now: i64,
}

/// Snapshot of the externally owned accounts touched by a withdrawal; same
/// reading as [`AddLiquidity`], with `from_a` / `from_b` the pool's reserve
/// accounts the withdrawal pays out of.
#[derive(Clone, Copy, PartialEq, Eq, Structural, Debug)]
pub struct RemoveLiquidity {
    /// Asset identity held by the pool's reserve-A account.
    pub from_a_mint: AssetId,
    /// Current balance of the pool's reserve-A account.
    pub from_a_amount: u64,
    /// Asset identity held by the pool's reserve-B account.
    pub from_b_mint: AssetId,
    /// Current balance of the pool's reserve-B account.
    pub from_b_amount: u64,
    /// Identity of the liquidity-share asset to burn from.
    pub mint_c: AssetId,
    /// Current time reference, for the deadline check.
    pub now: i64,
}

} // verus!
