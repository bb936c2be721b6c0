use exchange::ErrorCode;
use exchange::AssetId;
use exchange::Exchange;
use exchange::accounts::AddLiquidity;
use exchange::accounts::RemoveLiquidity;
use exchange::create;
use exchange::manager::AddOutcome;
use exchange::manager::RemoveOutcome;
use exchange::manager::add_liquidity;
use exchange::manager::remove_liquidity;

fn id(n: u64) -> AssetId {
    AssetId { id: n }
}

fn pool() -> Exchange {
    create(id(9), id(1), id(2), id(3))
}

fn add_accounts(reserve_a: u64, reserve_b: u64, now: i64) -> AddLiquidity {
    AddLiquidity {
        to_a_mint: id(1),
        to_a_amount: reserve_a,
        to_b_mint: id(2),
        to_b_amount: reserve_b,
        mint_c: id(3),
        now,
    }
}

fn remove_accounts(reserve_a: u64, reserve_b: u64, now: i64) -> RemoveLiquidity {
    RemoveLiquidity {
        from_a_mint: id(1),
        from_a_amount: reserve_a,
        from_b_mint: id(2),
        from_b_amount: reserve_b,
        mint_c: id(3),
        now,
    }
}

#[test]
fn seeding_deposit_sets_the_rate() {
    let mut pool = pool();
    let r = add_liquidity(&mut pool, &add_accounts(0, 0, 10), 100, 50, 0, 20);
    assert_eq!(
        r,
        Ok(AddOutcome { amount_a: 100, amount_b: 50, liquidity_minted: 50 })
    );
    assert_eq!(pool.total_supply_c, 50);
    // the ledger then moves exactly the outcome's amounts into the reserves,
    // which were empty, so reserve A ends at 100 and reserve B at 50
}

#[test]
fn proportional_deposit_follows_reserve_a() {
    // seeded pool: reserve A = 100, reserve B = 50, 50 shares outstanding
    let mut pool = pool();
    pool.total_supply_c = 50;
    let r = add_liquidity(&mut pool, &add_accounts(100, 50, 10), 110, 25, 1, 20);
    // amount_a = 25 * 100 / 50; liquidity_minted = 25 * 50 / 100, floored
    assert_eq!(
        r,
        Ok(AddOutcome { amount_a: 50, amount_b: 25, liquidity_minted: 12 })
    );
    assert_eq!(pool.total_supply_c, 62);
}

#[test]
fn proportional_deposit_rejects_tight_maximum() {
    let mut pool = pool();
    pool.total_supply_c = 50;
    let r = add_liquidity(&mut pool, &add_accounts(100, 50, 10), 49, 25, 1, 20);
    assert_eq!(r, Err(ErrorCode::SlippageExceeded));
    assert_eq!(pool.total_supply_c, 50);
}

#[test]
fn proportional_deposit_rejects_short_mint() {
    let mut pool = pool();
    pool.total_supply_c = 50;
    // only 12 shares would be minted
    let r = add_liquidity(&mut pool, &add_accounts(100, 50, 10), 110, 25, 13, 20);
    assert_eq!(r, Err(ErrorCode::SlippageExceeded));
    assert_eq!(pool.total_supply_c, 50);
}

#[test]
fn deposit_rejects_oversized_mint() {
    let mut pool = pool();
    pool.total_supply_c = u64::MAX;
    // liquidity_minted = 2 * u64::MAX / 1 does not fit the transfer width
    let r = add_liquidity(&mut pool, &add_accounts(1, 1, 10), u64::MAX, 2, 1, 20);
    assert_eq!(r, Err(ErrorCode::ArithmeticOverflow));
    assert_eq!(pool.total_supply_c, u64::MAX);
}

#[test]
fn deposit_rejects_supply_overflow() {
    let mut pool = pool();
    pool.total_supply_c = u64::MAX - 1;
    // one more share would be minted than the supply field can count
    let r = add_liquidity(&mut pool, &add_accounts(1, 1, 10), u64::MAX, 1, 1, 20);
    assert_eq!(r, Err(ErrorCode::ArithmeticOverflow));
    assert_eq!(pool.total_supply_c, u64::MAX - 1);
}

#[test]
fn deposit_deadline_in_the_past_fails() {
    let mut pool = pool();
    let r = add_liquidity(&mut pool, &add_accounts(0, 0, 10), 100, 50, 0, 9);
    assert_eq!(r, Err(ErrorCode::ExpiredDeadline));
    assert_eq!(pool, create(id(9), id(1), id(2), id(3)));
}

#[test]
fn deposit_deadline_at_now_is_accepted() {
    let mut pool = pool();
    let r = add_liquidity(&mut pool, &add_accounts(0, 0, 10), 100, 50, 0, 10);
    assert!(r.is_ok());
}

#[test]
fn deposit_wrong_reserve_asset_fails() {
    let mut pool = pool();
    let mut accounts = add_accounts(0, 0, 10);
    accounts.to_a_mint = id(77);
    let r = add_liquidity(&mut pool, &accounts, 100, 50, 0, 20);
    assert_eq!(r, Err(ErrorCode::AssetMismatch));
    assert_eq!(pool, create(id(9), id(1), id(2), id(3)));
}

#[test]
fn deposit_wrong_share_asset_fails() {
    let mut pool = pool();
    let mut accounts = add_accounts(0, 0, 10);
    accounts.mint_c = id(77);
    let r = add_liquidity(&mut pool, &accounts, 100, 50, 0, 20);
    assert_eq!(r, Err(ErrorCode::AssetMismatch));
}

#[test]
fn seed_then_withdraw_returns_the_deposit_exactly() {
    let mut pool = pool();
    let minted = add_liquidity(&mut pool, &add_accounts(0, 0, 10), 100, 50, 0, 20)
        .unwrap()
        .liquidity_minted;
    assert_eq!(minted, 50);
    // the reserves now hold exactly the seeded amounts
    let r = remove_liquidity(&mut pool, &remove_accounts(100, 50, 11), minted, 1, 1, 20);
    assert_eq!(
        r,
        Ok(RemoveOutcome { amount_a: 100, amount_b: 50, amount_c: 50 })
    );
    assert_eq!(pool.total_supply_c, 0);
}

#[test]
fn balanced_round_trip_returns_the_deposit() {
    // balanced reserves of 100 and an evenly dividing mint: 2 * 50 / 100 = 1
    let mut pool = pool();
    pool.total_supply_c = 50;
    let deposited = add_liquidity(&mut pool, &add_accounts(100, 100, 10), 5, 2, 1, 20).unwrap();
    assert_eq!(
        deposited,
        AddOutcome { amount_a: 2, amount_b: 2, liquidity_minted: 1 }
    );
    let returned = remove_liquidity(
        &mut pool,
        &remove_accounts(102, 102, 11),
        deposited.liquidity_minted,
        1,
        1,
        20,
    )
    .unwrap();
    assert_eq!(returned.amount_a, deposited.amount_a);
    assert_eq!(returned.amount_b, deposited.amount_b);
    assert_eq!(pool.total_supply_c, 50);
}

#[test]
fn withdrawal_pays_the_burned_share() {
    let mut pool = pool();
    pool.total_supply_c = 50;
    // burn 10 of 50 shares against reserves of 100 and 60
    let r = remove_liquidity(&mut pool, &remove_accounts(100, 60, 10), 10, 1, 1, 20);
    assert_eq!(
        r,
        Ok(RemoveOutcome { amount_a: 20, amount_b: 12, amount_c: 10 })
    );
    assert_eq!(pool.total_supply_c, 40);
}

#[test]
fn withdrawal_from_empty_pool_fails() {
    let mut pool = pool();
    let r = remove_liquidity(&mut pool, &remove_accounts(0, 0, 10), 1, 1, 1, 20);
    assert_eq!(r, Err(ErrorCode::EmptyPool));
    assert_eq!(pool, create(id(9), id(1), id(2), id(3)));
}

#[test]
fn withdrawal_deadline_in_the_past_fails() {
    let mut pool = pool();
    pool.total_supply_c = 50;
    let r = remove_liquidity(&mut pool, &remove_accounts(100, 50, 10), 10, 1, 1, 9);
    assert_eq!(r, Err(ErrorCode::ExpiredDeadline));
    assert_eq!(pool.total_supply_c, 50);
}

#[test]
fn withdrawal_wrong_reserve_asset_fails() {
    let mut pool = pool();
    pool.total_supply_c = 50;
    let mut accounts = remove_accounts(100, 50, 10);
    accounts.from_b_mint = id(77);
    let r = remove_liquidity(&mut pool, &accounts, 10, 1, 1, 20);
    assert_eq!(r, Err(ErrorCode::AssetMismatch));
    assert_eq!(pool.total_supply_c, 50);
}

#[test]
fn withdrawal_under_minimum_fails() {
    let mut pool = pool();
    pool.total_supply_c = 50;
    // burning 10 of 50 shares pays 20 of A
    let r = remove_liquidity(&mut pool, &remove_accounts(100, 50, 10), 10, 21, 1, 20);
    assert_eq!(r, Err(ErrorCode::SlippageExceeded));
    assert_eq!(pool.total_supply_c, 50);
}

#[test]
fn withdrawal_of_more_than_the_supply_fails() {
    let mut pool = pool();
    pool.total_supply_c = 5;
    let r = remove_liquidity(&mut pool, &remove_accounts(1, 1, 10), 10, 1, 1, 20);
    assert_eq!(r, Err(ErrorCode::ArithmeticOverflow));
    assert_eq!(pool.total_supply_c, 5);
}

#[test]
fn create_fixes_the_pair() {
    let pool = create(id(9), id(1), id(2), id(3));
    assert_eq!(pool.factory, id(9));
    assert_eq!(pool.token_a, id(1));
    assert_eq!(pool.token_b, id(2));
    assert_eq!(pool.token_c, id(3));
    assert_eq!(pool.total_supply_c, 0);
}
