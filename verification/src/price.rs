use vstd::prelude::*;
use vstd::arithmetic::div_mod::lemma_multiply_divide_lt;
use vstd::arithmetic::mul::lemma_mul_nonnegative;
use vstd::arithmetic::mul::lemma_mul_strict_inequality;
use crate::error::ErrorCode;
use crate::pool::Exchange;

verus! {

/// Numerator of the fixed-point fee multiplier applied to the input amount.
///
/// The curve charges the fee by scaling the amount being sold to
/// `amount * FEE_NUM / FEE_DEN` before it meets the reserves. The whole
/// quote is evaluated as one exact rational and floored once, at the final
/// division; no intermediate result is ever truncated, so every conforming
/// implementation produces bit-identical quotes.
pub const FEE_NUM: u64 = 97;

/// Denominator of the fixed-point fee multiplier; see [`FEE_NUM`].
pub const FEE_DEN: u64 = 10000;

/// The exact-input quote on the constant-product curve, as a mathematical
/// integer: the amount bought for `input_amount` sold, with the fee scaling
/// applied to the input leg and a single final floor division.
pub open spec fn quote_input_value(
    input_amount: int,
    input_reserve: int,
    output_reserve: int,
) -> int {
    (input_amount * FEE_NUM * output_reserve) / (input_reserve * FEE_DEN + input_amount * FEE_NUM)
}

/// The exact-output quote, the inverse direction of [`quote_input_value`]:
/// the amount that must be sold so that `output_amount` is bought, again
/// with a single final floor division.
pub open spec fn quote_output_value(
    output_amount: int,
    input_reserve: int,
    output_reserve: int,
) -> int {
    (output_amount * input_reserve * FEE_DEN) / ((output_reserve - output_amount) * FEE_NUM)
}

/// Everything `quote_exact_input` returns, for every input: which error
/// comes on which inputs, and the exact quote otherwise. The widened
/// product `input_amount * FEE_NUM * output_reserve` is the one
/// intermediate that can outgrow the 128-bit evaluation width.
pub open spec fn quote_exact_input_spec(
    input_amount: u64,
    input_reserve: u64,
    output_reserve: u64,
) -> Result<u64, ErrorCode> {
    if input_reserve == 0 || output_reserve == 0 {
        Err(ErrorCode::EmptyReserve)
    } else if input_amount * FEE_NUM * output_reserve > u128::MAX {
        Err(ErrorCode::ArithmeticOverflow)
    } else {
        Ok(
            quote_input_value(
                input_amount as int,
                input_reserve as int,
                output_reserve as int,
            ) as u64,
        )
    }
}

/// An exact-input quote never reaches the output reserve: the fee-scaled
/// input is strictly smaller than the denominator it joins, so the floor
/// of the quotient stays below `output_reserve`.
pub proof fn lemma_quote_input_fits(input_amount: int, input_reserve: int, output_reserve: int)
    requires
        0 <= input_amount,
        0 < input_reserve,
        0 < output_reserve,
    ensures
        0 <= quote_input_value(input_amount, input_reserve, output_reserve) < output_reserve,
{
    let with_fee = input_amount * FEE_NUM;
    let numerator = with_fee * output_reserve;
    let denominator = input_reserve * FEE_DEN + with_fee;
    lemma_mul_nonnegative(input_amount, FEE_NUM as int);
    assert(FEE_DEN <= input_reserve * FEE_DEN) by (nonlinear_arith)
        requires
            1 <= input_reserve,
    ;
    lemma_mul_strict_inequality(with_fee, denominator, output_reserve);
    lemma_multiply_divide_lt(numerator, denominator, output_reserve);
    lemma_mul_nonnegative(with_fee, output_reserve);
    assert(0 <= numerator / denominator) by (nonlinear_arith)
        requires
            0 <= numerator,
            0 < denominator,
    ;
}

/// Quote for selling an exact input amount: how much of the output asset
/// the constant-product curve pays out, after the fee is taken off the
/// input leg. Pure: reserves are passed in as the caller's snapshot.
pub fn quote_exact_input(input_amount: u64, input_reserve: u64, output_reserve: u64) -> (r:
    Result<u64, ErrorCode>)
    ensures
        r == quote_exact_input_spec(input_amount, input_reserve, output_reserve),
{
    if input_reserve == 0 || output_reserve == 0 {
        return Err(ErrorCode::EmptyReserve);
    }
    proof {
        assert(input_amount * FEE_NUM <= u128::MAX) by (nonlinear_arith);
    }
    let with_fee: u128 = (input_amount as u128) * (FEE_NUM as u128);
    let numerator: u128 = match with_fee.checked_mul(output_reserve as u128) {
        Some(n) => n,
        None => {
            return Err(ErrorCode::ArithmeticOverflow);
        },
    };
    proof {
        assert(input_reserve * FEE_DEN + with_fee <= u128::MAX) by (nonlinear_arith)
            requires
                with_fee <= u64::MAX * FEE_NUM,
        ;
    }
    let denominator: u128 = (input_reserve as u128) * (FEE_DEN as u128) + with_fee;
    let quote: u128 = numerator / denominator;
    proof {
        lemma_quote_input_fits(input_amount as int, input_reserve as int, output_reserve as int);
    }
    Ok(quote as u64)
}

/// Everything `quote_exact_output` returns, for every input. Beyond the
/// guards, the quote itself can fail twice over: the widened numerator
/// `output_amount * input_reserve * FEE_DEN` can outgrow the 128-bit
/// evaluation width, and the quoted input amount can outgrow the 64-bit
/// width amounts are moved in.
pub open spec fn quote_exact_output_spec(
    output_amount: u64,
    input_reserve: u64,
    output_reserve: u64,
) -> Result<u64, ErrorCode> {
    if input_reserve == 0 || output_reserve == 0 {
        Err(ErrorCode::EmptyReserve)
    } else if output_amount >= output_reserve {
        Err(ErrorCode::InsufficientReserve)
    } else if output_amount * input_reserve * FEE_DEN > u128::MAX {
        Err(ErrorCode::ArithmeticOverflow)
    } else if quote_output_value(
        output_amount as int,
        input_reserve as int,
        output_reserve as int,
    ) > u64::MAX {
        Err(ErrorCode::ArithmeticOverflow)
    } else {
        Ok(
            quote_output_value(
                output_amount as int,
                input_reserve as int,
                output_reserve as int,
            ) as u64,
        )
    }
}

/// Quote for buying an exact output amount: how much of the input asset
/// must be sold so the curve pays out `output_amount`. Asking for the whole
/// output reserve (or more) is rejected: the curve can never empty a
/// reserve completely.
pub fn quote_exact_output(output_amount: u64, input_reserve: u64, output_reserve: u64) -> (r:
    Result<u64, ErrorCode>)
    ensures
        r == quote_exact_output_spec(output_amount, input_reserve, output_reserve),
{
    if input_reserve == 0 || output_reserve == 0 {
        return Err(ErrorCode::EmptyReserve);
    }
    if output_amount >= output_reserve {
        return Err(ErrorCode::InsufficientReserve);
    }
    proof {
        assert(output_amount * input_reserve <= u128::MAX) by (nonlinear_arith);
    }
    let product: u128 = (output_amount as u128) * (input_reserve as u128);
    let numerator: u128 = match product.checked_mul(FEE_DEN as u128) {
        Some(n) => n,
        None => {
            return Err(ErrorCode::ArithmeticOverflow);
        },
    };
    proof {
        assert((output_reserve - output_amount) * FEE_NUM <= u128::MAX) by (nonlinear_arith)
            requires
                output_amount < output_reserve,
        ;
    }
    let denominator: u128 = ((output_reserve - output_amount) as u128) * (FEE_NUM as u128);
    let quote: u128 = numerator / denominator;
    if quote > (u64::MAX as u128) {
        return Err(ErrorCode::ArithmeticOverflow);
    }
    Ok(quote as u64)
}

/// Computes the exact-input quote for a pool and caches it in the record's
/// advisory `input_price` field; on any failure the record is untouched.
pub fn get_input_price(
    exchange: &mut Exchange,
    input_amount: u64,
    input_reserve: u64,
    output_reserve: u64,
) -> (r: Result<u64, ErrorCode>)
    ensures
        r == quote_exact_input_spec(input_amount, input_reserve, output_reserve),
        match r {
            Ok(quote) => *final(exchange) == (Exchange { input_price: quote, ..*old(exchange) }),
            Err(_) => *final(exchange) == *old(exchange),
        },
{
    match quote_exact_input(input_amount, input_reserve, output_reserve) {
        Ok(quote) => {
            exchange.input_price = quote;
            Ok(quote)
        },
        Err(e) => Err(e),
    }
}

/// Computes the exact-output quote for a pool and caches it in the record's
/// advisory `output_price` field; on any failure the record is untouched.
pub fn get_output_price(
    exchange: &mut Exchange,
    output_amount: u64,
    input_reserve: u64,
    output_reserve: u64,
) -> (r: Result<u64, ErrorCode>)
    ensures
        r == quote_exact_output_spec(output_amount, input_reserve, output_reserve),
        match r {
            Ok(quote) => *final(exchange) == (Exchange { output_price: quote, ..*old(exchange) }),
            Err(_) => *final(exchange) == *old(exchange),
        },
{
    match quote_exact_output(output_amount, input_reserve, output_reserve) {
        Ok(quote) => {
            exchange.output_price = quote;
            Ok(quote)
        },
        Err(e) => Err(e),
    }
}

} // verus!
