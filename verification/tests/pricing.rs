use exchange::ErrorCode;
use exchange::price::quote_exact_input;
use exchange::price::quote_exact_output;
use exchange::price::get_input_price;
use exchange::price::get_output_price;
use exchange::AssetId;
use exchange::create;

fn id(n: u64) -> AssetId {
    AssetId { id: n }
}

#[test]
fn exact_input_matches_closed_form() {
    // (1000 * 97 * 10000) / (10000 * 10000 + 1000 * 97), floored once at the end
    assert_eq!(quote_exact_input(1000, 10000, 10000), Ok(9));
}

#[test]
fn exact_input_small_trade() {
    // (10 * 97 * 500) / (1000 * 10000 + 10 * 97) = 485000 / 10000970, floored
    assert_eq!(quote_exact_input(10, 1000, 500), Ok(0));
    // (100000 * 97 * 500) / (1000 * 10000 + 100000 * 97)
    let expected = (100000u128 * 97 * 500) / (1000u128 * 10000 + 100000u128 * 97);
    assert_eq!(quote_exact_input(100000, 1000, 500), Ok(expected as u64));
}

#[test]
fn exact_input_rejects_empty_reserves() {
    assert_eq!(quote_exact_input(1000, 0, 10000), Err(ErrorCode::EmptyReserve));
    assert_eq!(quote_exact_input(1000, 10000, 0), Err(ErrorCode::EmptyReserve));
}

#[test]
fn exact_input_rejects_oversized_product() {
    assert_eq!(
        quote_exact_input(u64::MAX, 1, u64::MAX),
        Err(ErrorCode::ArithmeticOverflow)
    );
}

#[test]
fn exact_output_matches_closed_form() {
    // (1000 * 10000 * 10000) / ((10000 - 1000) * 97), floored once at the end
    assert_eq!(quote_exact_output(1000, 10000, 10000), Ok(114547));
}

#[test]
fn exact_output_rejects_empty_reserves() {
    assert_eq!(quote_exact_output(1000, 0, 10000), Err(ErrorCode::EmptyReserve));
    assert_eq!(quote_exact_output(1000, 10000, 0), Err(ErrorCode::EmptyReserve));
}

#[test]
fn exact_output_rejects_draining_the_reserve() {
    assert_eq!(
        quote_exact_output(10000, 10000, 10000),
        Err(ErrorCode::InsufficientReserve)
    );
    assert_eq!(
        quote_exact_output(10001, 10000, 10000),
        Err(ErrorCode::InsufficientReserve)
    );
}

#[test]
fn exact_output_rejects_unpayable_quote() {
    // one unit shy of the whole reserve: the quoted input amount outgrows u64
    assert_eq!(
        quote_exact_output(u64::MAX - 1, u64::MAX, u64::MAX),
        Err(ErrorCode::ArithmeticOverflow)
    );
}

#[test]
fn input_price_is_cached_on_the_record() {
    let mut pool = create(id(9), id(1), id(2), id(3));
    assert_eq!(get_input_price(&mut pool, 1000, 10000, 10000), Ok(9));
    assert_eq!(pool.input_price, 9);
    assert_eq!(pool.output_price, 0);
    assert_eq!(pool.total_supply_c, 0);
}

#[test]
fn output_price_is_cached_on_the_record() {
    let mut pool = create(id(9), id(1), id(2), id(3));
    assert_eq!(get_output_price(&mut pool, 1000, 10000, 10000), Ok(114547));
    assert_eq!(pool.output_price, 114547);
    assert_eq!(pool.input_price, 0);
}

#[test]
fn failed_quote_leaves_the_record_unchanged() {
    let mut pool = create(id(9), id(1), id(2), id(3));
    assert_eq!(
        get_input_price(&mut pool, 1000, 0, 10000),
        Err(ErrorCode::EmptyReserve)
    );
    assert_eq!(pool, create(id(9), id(1), id(2), id(3)));
}
