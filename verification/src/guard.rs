use vstd::prelude::*;
use crate::accounts::AddLiquidity;
use crate::accounts::RemoveLiquidity;
use crate::error::ErrorCode;
use crate::pool::Exchange;

verus! {

/// The deadline check accepts a deadline at or after the current time;
/// only a deadline strictly in the past is rejected.
pub open spec fn deadline_ok(now: i64, deadline: i64) -> bool {
    now <= deadline
}

/// Every asset leg a deposit touches matches the pool record: the reserve-A
/// account holds `token_a`, the reserve-B account holds `token_b`, and the
/// share mint is `token_c`.
pub open spec fn add_tokens_ok(exchange: Exchange, accounts: AddLiquidity) -> bool {
    &&& accounts.to_a_mint == exchange.token_a
    &&& accounts.to_b_mint == exchange.token_b
    &&& accounts.mint_c == exchange.token_c
}

/// Every asset leg a withdrawal touches matches the pool record.
pub open spec fn remove_tokens_ok(exchange: Exchange, accounts: RemoveLiquidity) -> bool {
    &&& accounts.from_a_mint == exchange.token_a
    &&& accounts.from_b_mint == exchange.token_b
    &&& accounts.mint_c == exchange.token_c
}

/// Deadline guard for a deposit: fails with `ExpiredDeadline` exactly when
/// the deadline lies strictly before the snapshot's current time.
pub fn add_future_deadline(accounts: &AddLiquidity, deadline: i64) -> (r: Result<(), ErrorCode>)
    ensures
        r == (if deadline_ok(accounts.now, deadline) {
            Ok::<(), ErrorCode>(())
        } else {
            Err::<(), ErrorCode>(ErrorCode::ExpiredDeadline)
        }),
{
    if !(accounts.now <= deadline) {
        return Err(ErrorCode::ExpiredDeadline);
    }
    Ok(())
}

/// Deadline guard for a withdrawal; same rule as [`add_future_deadline`].
pub fn remove_future_deadline(accounts: &RemoveLiquidity, deadline: i64) -> (r: Result<
    (),
    ErrorCode,
>)
    ensures
        r == (if deadline_ok(accounts.now, deadline) {
            Ok::<(), ErrorCode>(())
        } else {
            Err::<(), ErrorCode>(ErrorCode::ExpiredDeadline)
        }),
{
    if !(accounts.now <= deadline) {
        return Err(ErrorCode::ExpiredDeadline);
    }
    Ok(())
}

/// Asset-identity guard for a deposit: fails with `AssetMismatch` exactly
/// when some touched leg does not hold the asset the pool record names.
pub fn add_correct_tokens(exchange: &Exchange, accounts: &AddLiquidity) -> (r: Result<
    (),
    ErrorCode,
>)
    ensures
        r == (if add_tokens_ok(*exchange, *accounts) {
            Ok::<(), ErrorCode>(())
        } else {
            Err::<(), ErrorCode>(ErrorCode::AssetMismatch)
        }),
{
    if !(accounts.to_a_mint == exchange.token_a) {
        return Err(ErrorCode::AssetMismatch);
    }
    if !(accounts.to_b_mint == exchange.token_b) {
        return Err(ErrorCode::AssetMismatch);
    }
    if !(accounts.mint_c == exchange.token_c) {
        return Err(ErrorCode::AssetMismatch);
    }
    Ok(())
}

/// Asset-identity guard for a withdrawal; same rule as
/// [`add_correct_tokens`].
pub fn remove_correct_tokens(exchange: &Exchange, accounts: &RemoveLiquidity) -> (r: Result<
    (),
    ErrorCode,
>)
    ensures
        r == (if remove_tokens_ok(*exchange, *accounts) {
            Ok::<(), ErrorCode>(())
        } else {
            Err::<(), ErrorCode>(ErrorCode::AssetMismatch)
        }),
{
    if !(accounts.from_a_mint == exchange.token_a) {
        return Err(ErrorCode::AssetMismatch);
    }
    if !(accounts.from_b_mint == exchange.token_b) {
        return Err(ErrorCode::AssetMismatch);
    }
    if !(accounts.mint_c == exchange.token_c) {
        return Err(ErrorCode::AssetMismatch);
    }
    Ok(())
}

} // verus!
