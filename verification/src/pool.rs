use vstd::prelude::*;

verus! {

/// An opaque identifier issued by the hosting ledger: an asset kind, an
/// account, or an authority. The core only ever compares identifiers for
/// equality; it never looks inside one.
#[derive(Clone, Copy, PartialEq, Eq, Structural, Debug)]
pub struct AssetId {
    pub id: u64,
}

/// One trading pair's pool record.
///
/// The record holds the identities of the pair and of the liquidity-share
/// asset, and the outstanding share supply. The reserve balances themselves
/// are NOT stored here: they live in externally owned asset accounts and are
/// read fresh as inputs to every operation.
///
/// `total_supply_c == 0` is the pool's uninitialized/empty state; the first
/// deposit fixes the initial exchange rate. `input_price` and `output_price`
/// are an advisory quote cache, never authoritative state.
#[derive(Clone, Copy, PartialEq, Eq, Structural, Debug)]
pub struct Exchange {
    /// Identity of the creating authority; opaque, never interpreted.
    pub factory: AssetId,
    /// Identity of reserve asset A. Immutable after creation.
    pub token_a: AssetId,
    /// Identity of reserve asset B. Immutable after creation.
    pub token_b: AssetId,
    /// Identity of the liquidity-share asset this pool mints. Immutable.
    pub token_c: AssetId,
    /// Total outstanding liquidity shares.
    pub total_supply_c: u64,
    /// Last exact-input quote computed for this pool. Advisory only.
    pub input_price: u64,
    /// Last exact-output quote computed for this pool. Advisory only.
    pub output_price: u64,
}

/// Creates the pool record for a new trading pair. The pool starts empty:
/// no shares are outstanding until the seeding deposit.
pub fn create(
    factory: AssetId,
    token_a: AssetId,
    token_b: AssetId,
    token_c: AssetId,
) -> (exchange: Exchange)
    ensures
        exchange == (Exchange {
            factory,
            token_a,
            token_b,
            token_c,
            total_supply_c: 0,
            input_price: 0,
            output_price: 0,
        }),
{
    Exchange {
        factory,
        token_a,
        token_b,
        token_c,
        total_supply_c: 0,
        input_price: 0,
        output_price: 0,
    }
}

} // verus!
