use vstd::prelude::*;
use vstd::arithmetic::div_mod::lemma_div_multiples_vanish;
use vstd::arithmetic::div_mod::lemma_fundamental_div_mod;
use vstd::arithmetic::mul::lemma_mul_is_commutative;
use vstd::arithmetic::mul::lemma_mul_is_distributive_add;
use crate::accounts::AddLiquidity;
use crate::accounts::RemoveLiquidity;
use crate::error::ErrorCode;
use crate::guard::add_correct_tokens;
use crate::guard::add_future_deadline;
use crate::guard::add_tokens_ok;
use crate::guard::deadline_ok;
use crate::guard::remove_correct_tokens;
use crate::guard::remove_future_deadline;
use crate::guard::remove_tokens_ok;
use crate::pool::Exchange;

verus! {

/// The ledger calls a validated deposit asks for: transfer `amount_a` of
/// asset A and `amount_b` of asset B from the caller into the pool's
/// reserves, and mint `liquidity_minted` shares of asset C to the caller.
/// The share supply on the pool record is already updated when this is
/// handed out; the three ledger calls must then all happen or the caller
/// must surface `LedgerCallFailed`.
#[derive(Clone, Copy, PartialEq, Eq, Structural, Debug)]
pub struct AddOutcome {
    /// Amount of asset A to transfer into the reserve.
    pub amount_a: u64,
    /// Amount of asset B to transfer into the reserve.
    pub amount_b: u64,
    /// Number of liquidity shares to mint to the caller.
    pub liquidity_minted: u64,
}

/// The ledger calls a validated withdrawal asks for: burn `amount_c`
/// shares of asset C from the caller, and transfer `amount_a` of asset A
/// and `amount_b` of asset B out of the pool's reserves to the caller.
#[derive(Clone, Copy, PartialEq, Eq, Structural, Debug)]
pub struct RemoveOutcome {
    /// Amount of asset A to transfer out of the reserve.
    pub amount_a: u64,
    /// Amount of asset B to transfer out of the reserve.
    pub amount_b: u64,
    /// Number of liquidity shares to burn from the caller.
    pub amount_c: u64,
}

/// Everything a deposit does, for every input: the updated pool record and
/// the ledger calls on success, and which error comes on which inputs.
///
/// The checks run in this order, and the first failure wins:
/// 1. a deadline strictly in the past fails with `ExpiredDeadline`;
/// 2. an asset leg that does not match the pool record fails with
///    `AssetMismatch`;
/// 3. an empty pool accepts the deposit as the seeding deposit: exactly
///    `max_amount_a` of A and `amount_b` of B go in, and `amount_b` shares
///    are minted — the first depositor alone fixes the exchange rate;
/// 4. otherwise the A contribution follows the current A:B reserve ratio,
///    `amount_a = amount_b * reserve_a / reserve_b`, and the shares follow
///    the share of reserve A contributed,
///    `liquidity_minted = amount_b * total_supply_c / reserve_a`, both
///    floored; `amount_a` over the caller's `max_amount_a`, or fewer shares
///    than `min_liquidity_c`, fails with `SlippageExceeded`;
/// 5. a mint or an updated supply that does not fit the 64-bit width
///    amounts are moved in fails with `ArithmeticOverflow`.
pub open spec fn add_liquidity_spec(
    exchange: Exchange,
    accounts: AddLiquidity,
    max_amount_a: u64,
    amount_b: u64,
    min_liquidity_c: u64,
    deadline: i64,
) -> Result<(Exchange, AddOutcome), ErrorCode> {
    if !deadline_ok(accounts.now, deadline) {
        Err(ErrorCode::ExpiredDeadline)
    } else if !add_tokens_ok(exchange, accounts) {
        Err(ErrorCode::AssetMismatch)
    } else if exchange.total_supply_c == 0 {
        Ok(
            (
                Exchange { total_supply_c: amount_b, ..exchange },
                AddOutcome { amount_a: max_amount_a, amount_b, liquidity_minted: amount_b },
            ),
        )
    } else {
        let amount_a = (amount_b * accounts.to_a_amount) / (accounts.to_b_amount as int);
        let minted = (amount_b * exchange.total_supply_c) / (accounts.to_a_amount as int);
        if amount_a > max_amount_a || minted < min_liquidity_c {
            Err(ErrorCode::SlippageExceeded)
        } else if minted > u64::MAX || exchange.total_supply_c + minted > u64::MAX {
            Err(ErrorCode::ArithmeticOverflow)
        } else {
            Ok(
                (
                    Exchange {
                        total_supply_c: (exchange.total_supply_c + minted) as u64,
                        ..exchange
                    },
                    AddOutcome {
                        amount_a: amount_a as u64,
                        amount_b,
                        liquidity_minted: minted as u64,
                    },
                ),
            )
        }
    }
}

/// Everything a withdrawal does, for every input; same reading as
/// [`add_liquidity_spec`].
///
/// The checks run in this order, and the first failure wins:
/// 1. a deadline strictly in the past fails with `ExpiredDeadline`;
/// 2. an asset leg that does not match the pool record fails with
///    `AssetMismatch`;
/// 3. a pool with no outstanding shares fails with `EmptyPool`;
/// 4. the payouts are the burned share of each reserve,
///    `amount_a = amount_c * reserve_a / total_supply_c` and likewise for
///    B, both floored; a payout under the caller's `min_amount_a` or
///    `min_amount_b` fails with `SlippageExceeded`;
/// 5. a payout that does not fit the 64-bit width amounts are moved in, or
///    burning more shares than are outstanding, fails with
///    `ArithmeticOverflow`.
pub open spec fn remove_liquidity_spec(
    exchange: Exchange,
    accounts: RemoveLiquidity,
    amount_c: u64,
    min_amount_a: u64,
    min_amount_b: u64,
    deadline: i64,
) -> Result<(Exchange, RemoveOutcome), ErrorCode> {
    if !deadline_ok(accounts.now, deadline) {
        Err(ErrorCode::ExpiredDeadline)
    } else if !remove_tokens_ok(exchange, accounts) {
        Err(ErrorCode::AssetMismatch)
    } else if exchange.total_supply_c == 0 {
        Err(ErrorCode::EmptyPool)
    } else {
        let amount_a = (amount_c * accounts.from_a_amount) / (exchange.total_supply_c as int);
        let amount_b = (amount_c * accounts.from_b_amount) / (exchange.total_supply_c as int);
        if amount_a < min_amount_a || amount_b < min_amount_b {
            Err(ErrorCode::SlippageExceeded)
        } else if amount_a > u64::MAX || amount_b > u64::MAX || amount_c
            > exchange.total_supply_c {
            Err(ErrorCode::ArithmeticOverflow)
        } else {
            Ok(
                (
                    Exchange {
                        total_supply_c: (exchange.total_supply_c - amount_c) as u64,
                        ..exchange
                    },
                    RemoveOutcome { amount_a: amount_a as u64, amount_b: amount_b as u64, amount_c },
                ),
            )
        }
    }
}

/// Deposits A and B at the current reserve ratio and mints C shares.
///
/// On success the pool record's share supply is updated and the returned
/// [`AddOutcome`] lists the ledger calls the caller must now drive; on any
/// error the record is exactly as it was and no ledger call is owed.
/// All intermediate arithmetic runs at 128-bit width, so the proportional
/// amounts are computed exactly and floored once.
///
/// A deposit into a live pool must state a positive `min_liquidity_c`, and
/// a live pool's reserve snapshot has both reserves positive — a pool with
/// outstanding shares was seeded through this interface, and both deposits
/// are positive by the preconditions below.
pub fn add_liquidity(
    exchange: &mut Exchange,
    accounts: &AddLiquidity,
    max_amount_a: u64,
    amount_b: u64,
    min_liquidity_c: u64,
    deadline: i64,
) -> (r: Result<AddOutcome, ErrorCode>)
    requires
        max_amount_a > 0,
        amount_b > 0,
        old(exchange).total_supply_c > 0 ==> min_liquidity_c > 0,
        old(exchange).total_supply_c > 0 ==> accounts.to_a_amount > 0 && accounts.to_b_amount > 0,
    ensures
        match r {
            Ok(outcome) => add_liquidity_spec(
                *old(exchange),
                *accounts,
                max_amount_a,
                amount_b,
                min_liquidity_c,
                deadline,
            ) == Ok::<(Exchange, AddOutcome), ErrorCode>((*final(exchange), outcome)),
            Err(e) => add_liquidity_spec(
                *old(exchange),
                *accounts,
                max_amount_a,
                amount_b,
                min_liquidity_c,
                deadline,
            ) == Err::<(Exchange, AddOutcome), ErrorCode>(e) && *final(exchange) == *old(exchange),
        },
        deadline < accounts.now ==> r == Err::<AddOutcome, ErrorCode>(ErrorCode::ExpiredDeadline)
            && *final(exchange) == *old(exchange),
        deadline_ok(accounts.now, deadline) && !add_tokens_ok(*old(exchange), *accounts) ==> r
            == Err::<AddOutcome, ErrorCode>(ErrorCode::AssetMismatch) && *final(exchange) == *old(
            exchange,
        ),
        deadline_ok(accounts.now, deadline) && add_tokens_ok(*old(exchange), *accounts) && old(
            exchange,
        ).total_supply_c == 0 ==> r == Ok::<AddOutcome, ErrorCode>(
            AddOutcome { amount_a: max_amount_a, amount_b, liquidity_minted: amount_b },
        ) && *final(exchange) == (Exchange { total_supply_c: amount_b, ..*old(exchange) }),
        (*final(exchange)).factory == (*old(exchange)).factory,
        (*final(exchange)).token_a == (*old(exchange)).token_a,
        (*final(exchange)).token_b == (*old(exchange)).token_b,
        (*final(exchange)).token_c == (*old(exchange)).token_c,
{
    match add_future_deadline(accounts, deadline) {
        Ok(()) => (),
        Err(e) => {
            return Err(e);
        },
    }
    match add_correct_tokens(&*exchange, accounts) {
        Ok(()) => (),
        Err(e) => {
            return Err(e);
        },
    }
    if exchange.total_supply_c == 0 {
        exchange.total_supply_c = amount_b;
        return Ok(AddOutcome { amount_a: max_amount_a, amount_b, liquidity_minted: amount_b });
    }
    let supply = exchange.total_supply_c;
    proof {
        assert(amount_b * accounts.to_a_amount <= u128::MAX) by (nonlinear_arith);
        assert(amount_b * supply <= u128::MAX) by (nonlinear_arith);
    }
    let amount_a_wide: u128 = (amount_b as u128) * (accounts.to_a_amount as u128) / (
    accounts.to_b_amount as u128);
    let minted_wide: u128 = (amount_b as u128) * (supply as u128) / (accounts.to_a_amount as u128);
    if amount_a_wide > (max_amount_a as u128) || minted_wide < (min_liquidity_c as u128) {
        return Err(ErrorCode::SlippageExceeded);
    }
    if minted_wide > (u64::MAX as u128) {
        return Err(ErrorCode::ArithmeticOverflow);
    }
    let minted: u64 = minted_wide as u64;
    let new_supply: u64 = match supply.checked_add(minted) {
        Some(s) => s,
        None => {
            return Err(ErrorCode::ArithmeticOverflow);
        },
    };
    exchange.total_supply_c = new_supply;
    Ok(AddOutcome { amount_a: amount_a_wide as u64, amount_b, liquidity_minted: minted })
}

/// Burns C shares to withdraw A and B at the current reserve ratio.
///
/// On success the pool record's share supply is updated and the returned
/// [`RemoveOutcome`] lists the ledger calls the caller must now drive; on
/// any error the record is exactly as it was and no ledger call is owed.
/// Zero-minimum withdrawals are disallowed by construction, as is burning
/// zero shares.
pub fn remove_liquidity(
    exchange: &mut Exchange,
    accounts: &RemoveLiquidity,
    amount_c: u64,
    min_amount_a: u64,
    min_amount_b: u64,
    deadline: i64,
) -> (r: Result<RemoveOutcome, ErrorCode>)
    requires
        amount_c > 0,
        min_amount_a > 0,
        min_amount_b > 0,
    ensures
        match r {
            Ok(outcome) => remove_liquidity_spec(
                *old(exchange),
                *accounts,
                amount_c,
                min_amount_a,
                min_amount_b,
                deadline,
            ) == Ok::<(Exchange, RemoveOutcome), ErrorCode>((*final(exchange), outcome)),
            Err(e) => remove_liquidity_spec(
                *old(exchange),
                *accounts,
                amount_c,
                min_amount_a,
                min_amount_b,
                deadline,
            ) == Err::<(Exchange, RemoveOutcome), ErrorCode>(e) && *final(exchange) == *old(
                exchange,
            ),
        },
        deadline < accounts.now ==> r == Err::<RemoveOutcome, ErrorCode>(ErrorCode::ExpiredDeadline)
            && *final(exchange) == *old(exchange),
        deadline_ok(accounts.now, deadline) && !remove_tokens_ok(*old(exchange), *accounts) ==> r
            == Err::<RemoveOutcome, ErrorCode>(ErrorCode::AssetMismatch) && *final(exchange)
            == *old(exchange),
        deadline_ok(accounts.now, deadline) && remove_tokens_ok(*old(exchange), *accounts) && old(
            exchange,
        ).total_supply_c == 0 ==> r == Err::<RemoveOutcome, ErrorCode>(ErrorCode::EmptyPool)
            && *final(exchange) == *old(exchange),
        (*final(exchange)).factory == (*old(exchange)).factory,
        (*final(exchange)).token_a == (*old(exchange)).token_a,
        (*final(exchange)).token_b == (*old(exchange)).token_b,
        (*final(exchange)).token_c == (*old(exchange)).token_c,
{
    match remove_future_deadline(accounts, deadline) {
        Ok(()) => (),
        Err(e) => {
            return Err(e);
        },
    }
    match remove_correct_tokens(&*exchange, accounts) {
        Ok(()) => (),
        Err(e) => {
            return Err(e);
        },
    }
    if exchange.total_supply_c == 0 {
        return Err(ErrorCode::EmptyPool);
    }
    let supply = exchange.total_supply_c;
    proof {
        assert(amount_c * accounts.from_a_amount <= u128::MAX) by (nonlinear_arith);
        assert(amount_c * accounts.from_b_amount <= u128::MAX) by (nonlinear_arith);
    }
    let amount_a_wide: u128 = (amount_c as u128) * (accounts.from_a_amount as u128) / (
    supply as u128);
    let amount_b_wide: u128 = (amount_c as u128) * (accounts.from_b_amount as u128) / (
    supply as u128);
    if amount_a_wide < (min_amount_a as u128) || amount_b_wide < (min_amount_b as u128) {
        return Err(ErrorCode::SlippageExceeded);
    }
    if amount_a_wide > (u64::MAX as u128) || amount_b_wide > (u64::MAX as u128) || amount_c
        > supply {
        return Err(ErrorCode::ArithmeticOverflow);
    }
    exchange.total_supply_c = supply - amount_c;
    Ok(
        RemoveOutcome {
            amount_a: amount_a_wide as u64,
            amount_b: amount_b_wide as u64,
            amount_c,
        },
    )
}

/// Law: burning what a deposit minted restores the share supply exactly.
///
/// For any successful deposit, seeding or proportional, followed by any
/// successful withdrawal of exactly the shares that deposit minted, the
/// pool's `total_supply_c` returns to its value before the deposit.
pub proof fn lemma_supply_round_trip(
    exchange: Exchange,
    accounts: AddLiquidity,
    max_amount_a: u64,
    amount_b: u64,
    min_liquidity_c: u64,
    deadline: i64,
    pool1: Exchange,
    out1: AddOutcome,
    accounts2: RemoveLiquidity,
    min_amount_a: u64,
    min_amount_b: u64,
    deadline2: i64,
    pool2: Exchange,
    out2: RemoveOutcome,
)
    requires
        add_liquidity_spec(exchange, accounts, max_amount_a, amount_b, min_liquidity_c, deadline)
            == Ok::<(Exchange, AddOutcome), ErrorCode>((pool1, out1)),
        remove_liquidity_spec(
            pool1,
            accounts2,
            out1.liquidity_minted,
            min_amount_a,
            min_amount_b,
            deadline2,
        ) == Ok::<(Exchange, RemoveOutcome), ErrorCode>((pool2, out2)),
    ensures
        pool2.total_supply_c == exchange.total_supply_c,
{
}

/// Law: a seeding deposit rolls back exactly.
///
/// Deposit into an empty pool with empty reserve accounts, then withdraw
/// the very shares that deposit minted: the withdrawal pays back exactly
/// the deposited amounts — floor division loses nothing here — and the
/// pool is empty again.
pub proof fn lemma_seed_round_trip(
    exchange: Exchange,
    accounts: AddLiquidity,
    max_amount_a: u64,
    amount_b: u64,
    min_liquidity_c: u64,
    deadline: i64,
    pool1: Exchange,
    out1: AddOutcome,
    accounts2: RemoveLiquidity,
    min_amount_a: u64,
    min_amount_b: u64,
    deadline2: i64,
    pool2: Exchange,
    out2: RemoveOutcome,
)
    requires
        exchange.total_supply_c == 0,
        accounts.to_a_amount == 0,
        accounts.to_b_amount == 0,
        add_liquidity_spec(exchange, accounts, max_amount_a, amount_b, min_liquidity_c, deadline)
            == Ok::<(Exchange, AddOutcome), ErrorCode>((pool1, out1)),
        accounts2.from_a_amount == max_amount_a,
        accounts2.from_b_amount == amount_b,
        remove_liquidity_spec(
            pool1,
            accounts2,
            out1.liquidity_minted,
            min_amount_a,
            min_amount_b,
            deadline2,
        ) == Ok::<(Exchange, RemoveOutcome), ErrorCode>((pool2, out2)),
    ensures
        out2.amount_a == max_amount_a,
        out2.amount_b == amount_b,
        out2.amount_c == out1.liquidity_minted,
        pool2.total_supply_c == 0,
{
    let minted = out1.liquidity_minted as int;
    assert(minted == amount_b);
    assert(pool1.total_supply_c == amount_b);
    assert(minted > 0);
    lemma_mul_is_commutative(minted, max_amount_a as int);
    lemma_div_multiples_vanish(max_amount_a as int, minted);
    lemma_mul_is_commutative(minted, amount_b as int);
    lemma_div_multiples_vanish(amount_b as int, minted);
}

/// Law: in a balanced pool, an evenly dividing deposit rolls back exactly.
///
/// With both reserves equal and the mint `amount_b * total_supply_c /
/// reserve_a` dividing evenly, a deposit followed by a withdrawal of the
/// shares it minted — against the reserves the deposit grew — pays back
/// exactly the deposited amounts and restores the share supply.
pub proof fn lemma_balanced_round_trip(
    exchange: Exchange,
    accounts: AddLiquidity,
    max_amount_a: u64,
    amount_b: u64,
    min_liquidity_c: u64,
    deadline: i64,
    pool1: Exchange,
    out1: AddOutcome,
    accounts2: RemoveLiquidity,
    min_amount_a: u64,
    min_amount_b: u64,
    deadline2: i64,
    pool2: Exchange,
    out2: RemoveOutcome,
)
    requires
        exchange.total_supply_c > 0,
        accounts.to_a_amount == accounts.to_b_amount,
        accounts.to_a_amount > 0,
        (amount_b * exchange.total_supply_c) % (accounts.to_a_amount as int) == 0,
        add_liquidity_spec(exchange, accounts, max_amount_a, amount_b, min_liquidity_c, deadline)
            == Ok::<(Exchange, AddOutcome), ErrorCode>((pool1, out1)),
        accounts2.from_a_amount == accounts.to_a_amount + out1.amount_a,
        accounts2.from_b_amount == accounts.to_b_amount + out1.amount_b,
        remove_liquidity_spec(
            pool1,
            accounts2,
            out1.liquidity_minted,
            min_amount_a,
            min_amount_b,
            deadline2,
        ) == Ok::<(Exchange, RemoveOutcome), ErrorCode>((pool2, out2)),
    ensures
        out1.amount_a == amount_b,
        out2.amount_a == out1.amount_a,
        out2.amount_b == out1.amount_b,
        pool2.total_supply_c == exchange.total_supply_c,
{
    let reserve = accounts.to_a_amount as int;
    let supply = exchange.total_supply_c as int;
    let b = amount_b as int;
    // the A leg of the deposit matches the B leg: b * reserve / reserve == b
    lemma_mul_is_commutative(b, reserve);
    lemma_div_multiples_vanish(b, reserve);
    assert(out1.amount_a == b);
    // the mint divides evenly: minted * reserve == b * supply
    let minted = (b * supply) / reserve;
    lemma_fundamental_div_mod(b * supply, reserve);
    assert(minted * reserve == b * supply) by {
        lemma_mul_is_commutative(reserve, minted);
    }
    assert(out1.liquidity_minted == minted);
    assert(pool1.total_supply_c == supply + minted);
    // the withdrawal's payout: minted * (reserve + b) == b * (supply + minted)
    lemma_mul_is_distributive_add(minted, reserve, b);
    lemma_mul_is_distributive_add(b, supply, minted);
    assert(minted * b == b * minted) by {
        lemma_mul_is_commutative(minted, b);
    }
    assert(minted * (reserve + b) == b * (supply + minted));
    lemma_mul_is_commutative(b, supply + minted);
    lemma_div_multiples_vanish(b, supply + minted);
    assert((minted * (reserve + b)) / (supply + minted) == b);
}

} // verus!
