use exchange::ErrorCode;
use exchange::AssetId;
use exchange::accounts::AddLiquidity;
use exchange::accounts::RemoveLiquidity;
use exchange::manager::AddOutcome;
use exchange::registry::Registry;

fn id(n: u64) -> AssetId {
    AssetId { id: n }
}

fn add_accounts(reserve_a: u64, reserve_b: u64, now: i64) -> AddLiquidity {
    AddLiquidity {
        to_a_mint: id(1),
        to_a_amount: reserve_a,
        to_b_mint: id(2),
        to_b_amount: reserve_b,
        mint_c: id(3),
        now,
    }
}

fn remove_accounts(reserve_a: u64, reserve_b: u64, now: i64) -> RemoveLiquidity {
    RemoveLiquidity {
        from_a_mint: id(1),
        from_a_amount: reserve_a,
        from_b_mint: id(2),
        from_b_amount: reserve_b,
        mint_c: id(3),
        now,
    }
}

#[test]
fn fresh_registry_is_empty() {
    let registry = Registry::new();
    assert!(!registry.contains(id(42)));
    assert_eq!(registry.get(id(42)), None);
}

#[test]
fn created_pool_is_registered() {
    let mut registry = Registry::new();
    if !registry.contains(id(42)) {
        registry.create_pool(id(42), id(9), id(1), id(2), id(3));
    }
    assert!(registry.contains(id(42)));
    let pool = registry.get(id(42)).unwrap();
    assert_eq!(pool.token_a, id(1));
    assert_eq!(pool.token_b, id(2));
    assert_eq!(pool.token_c, id(3));
    assert_eq!(pool.total_supply_c, 0);
    assert!(!registry.contains(id(43)));
}

#[test]
fn registry_routes_operations_to_the_keyed_pool() {
    let mut registry = Registry::new();
    registry.create_pool(id(42), id(9), id(1), id(2), id(3));
    registry.create_pool(id(43), id(9), id(4), id(5), id(6));

    let r = registry.add_liquidity(id(42), &add_accounts(0, 0, 10), 100, 50, 0, 20);
    assert_eq!(
        r,
        Ok(AddOutcome { amount_a: 100, amount_b: 50, liquidity_minted: 50 })
    );
    assert_eq!(registry.get(id(42)).unwrap().total_supply_c, 50);
    // the other pool is untouched
    assert_eq!(registry.get(id(43)).unwrap().total_supply_c, 0);

    let r = registry.remove_liquidity(id(42), &remove_accounts(100, 50, 11), 20, 1, 1, 20);
    assert!(r.is_ok());
    assert_eq!(registry.get(id(42)).unwrap().total_supply_c, 30);
}

#[test]
fn registry_surfaces_operation_errors_unchanged() {
    let mut registry = Registry::new();
    registry.create_pool(id(42), id(9), id(1), id(2), id(3));
    let r = registry.remove_liquidity(id(42), &remove_accounts(0, 0, 10), 1, 1, 1, 20);
    assert_eq!(r, Err(ErrorCode::EmptyPool));
    assert_eq!(registry.get(id(42)).unwrap().total_supply_c, 0);
}
