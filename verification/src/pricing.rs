//! Fixed-point arithmetic of a route: expected and minimum outputs of a hop,
//! realized slippage, and the profit gate.
//!
//! Rates are scaled by 1000 and shares by 10000 (basis points). Every
//! specification is stated over unbounded integers; the executable
//! functions compute the same values without overflow.

use vstd::prelude::*;
use vstd::arithmetic::div_mod::{
    lemma_fundamental_div_mod, lemma_fundamental_div_mod_converse, lemma_mod_bound,
};
use crate::types::{ArbitrageError, ArbitrageExecuted};

verus! {

/// The output that `input_amount` is expected to fetch at `expected_rate`,
/// rounded down.
pub open spec fn expected_output_exact(input_amount: u64, expected_rate: u64) -> int {
    input_amount * expected_rate / 1000
}

/// The least output acceptable for a hop, rounded down after all
/// multiplications. It is negative where the tolerance exceeds 10000.
pub open spec fn min_output_exact(
    input_amount: u64,
    expected_rate: u64,
    max_slippage_bps: u16,
) -> int {
    input_amount * expected_rate * (10000 - max_slippage_bps) / 10000000
}

/// The minimum output as an amount: `None` where no amount reaches it,
/// zero where every amount does.
pub open spec fn min_output_spec(
    input_amount: u64,
    expected_rate: u64,
    max_slippage_bps: u16,
) -> Option<u64> {
    let exact = min_output_exact(input_amount, expected_rate, max_slippage_bps);
    if exact > u64::MAX {
        None
    } else if exact < 0 {
        Some(0u64)
    } else {
        Some(exact as u64)
    }
}

/// The shortfall of `actual` against `expected` in basis points of
/// `expected`, rounded down; zero where nothing was expected or nothing is
/// missing.
pub open spec fn slippage_bps_spec(expected: int, actual: int) -> int {
    if expected <= 0 || actual >= expected {
        0
    } else {
        (expected - actual) * 10000 / expected
    }
}

/// The gain from `start_balance` to `final_balance`, zero where the balance
/// fell.
pub open spec fn profit_spec(start_balance: u64, final_balance: u64) -> u64 {
    if final_balance >= start_balance {
        (final_balance - start_balance) as u64
    } else {
        0
    }
}

/// The gain in basis points of a nonzero starting balance, rounded down.
pub open spec fn profit_bps_spec(start_balance: u64, final_balance: u64) -> int {
    profit_spec(start_balance, final_balance) * 10000 / (start_balance as int)
}

/// What the profit gate makes of the balances read before and after the
/// hops.
pub open spec fn settlement_spec(
    start_balance: u64,
    final_balance: u64,
    min_profit_bps: u16,
    steps: u8,
) -> Result<ArbitrageExecuted, ArbitrageError> {
    if start_balance == 0 {
        Err(ArbitrageError::DivisionByZeroBalance)
    } else if profit_bps_spec(start_balance, final_balance) < min_profit_bps {
        Err(ArbitrageError::InsufficientProfit)
    } else {
        Ok(
            ArbitrageExecuted {
                start_amount: start_balance,
                final_amount: final_balance,
                profit: profit_spec(start_balance, final_balance),
                profit_bps: profit_bps_spec(start_balance, final_balance) as u128,
                steps,
            },
        )
    }
}

/// The product of two amounts fits in 128 bits.
proof fn lemma_product_fits(a: u64, b: u64)
    ensures
        a * b <= 0xffff_ffff_ffff_ffff * 0xffff_ffff_ffff_ffff,
        0 <= a * b,
{
    assert(a * b <= 0xffff_ffff_ffff_ffff * 0xffff_ffff_ffff_ffff && 0 <= a * b)
        by (nonlinear_arith)
        requires
            0 <= a <= 0xffff_ffff_ffff_ffff,
            0 <= b <= 0xffff_ffff_ffff_ffff,
    ;
}

/// Computes the output that `input_amount` is expected to fetch at
/// `expected_rate`; `None` where it exceeds every amount.
pub fn expected_output(input_amount: u64, expected_rate: u64) -> (quote: Option<u64>)
    ensures
        match quote {
            Some(q) => q == expected_output_exact(input_amount, expected_rate),
            None => expected_output_exact(input_amount, expected_rate) > u64::MAX,
        },
{
    proof {
        lemma_product_fits(input_amount, expected_rate);
    }
    let product: u128 = (input_amount as u128) * (expected_rate as u128);
    let exact: u128 = product / 1000;
    if exact > u64::MAX as u128 {
        None
    } else {
        Some(exact as u64)
    }
}

/// Computes the least output acceptable for a hop of `input_amount` at
/// `expected_rate` under a tolerance of `max_slippage_bps`.
pub fn min_output(input_amount: u64, expected_rate: u64, max_slippage_bps: u16) -> (minimum:
    Option<u64>)
    ensures
        minimum == min_output_spec(input_amount, expected_rate, max_slippage_bps),
{
    proof {
        lemma_product_fits(input_amount, expected_rate);
    }
    let product: u128 = (input_amount as u128) * (expected_rate as u128);
    if max_slippage_bps >= 10000 {
        proof {
            let share: int = 10000 - max_slippage_bps;
            assert(product * share <= 0) by (nonlinear_arith)
                requires
                    product >= 0,
                    share <= 0,
            ;
        }
        return Some(0);
    }
    let share: u128 = (10000 - max_slippage_bps) as u128;
    // The product times the share may exceed 128 bits, so the product is
    // split at the divisor: each part times the share fits.
    let whole: u128 = product / 10_000_000;
    let rest: u128 = product % 10_000_000;
    proof {
        assert(whole * share <= 34028236692093846346337460743176 * 10000 && rest * share
            <= 9999999 * 10000 && product * share == (whole * share) * 10000000 + rest * share)
            by (nonlinear_arith)
            requires
                0 <= whole <= 34028236692093846346337460743176,
                0 <= rest <= 9999999,
                0 < share <= 10000,
                product == whole * 10000000 + rest,
        ;
    }
    let exact: u128 = whole * share + (rest * share) / 10_000_000;
    if exact > u64::MAX as u128 {
        None
    } else {
        Some(exact as u64)
    }
}

/// A shortfall of `expected - actual` out of `expected` is 10000 basis
/// points less the share that `actual` covers, rounded up.
proof fn lemma_shortfall_share(expected: int, actual: int)
    requires
        0 <= actual < expected,
    ensures
        0 <= (actual * 10000 + expected - 1) / expected <= 10000,
        (expected - actual) * 10000 / expected == 10000 - (actual * 10000 + expected - 1)
            / expected,
{
    let covered = actual * 10000 + expected - 1;
    let share = covered / expected;
    let rest = covered % expected;
    lemma_fundamental_div_mod(covered, expected);
    lemma_mod_bound(covered, expected);
    assert(covered == expected * share + rest);
    assert(0 <= share <= 10000) by (nonlinear_arith)
        requires
            covered == expected * share + rest,
            0 <= rest < expected,
            0 <= covered <= expected * 10000 + expected - 10001,
    ;
    assert((expected - actual) * 10000 == (10000 - share) * expected + (expected - 1 - rest))
        by (nonlinear_arith)
        requires
            actual * 10000 + expected - 1 == expected * share + rest,
    ;
    lemma_fundamental_div_mod_converse(
        (expected - actual) * 10000,
        expected,
        10000 - share,
        expected - 1 - rest,
    );
}

/// Computes the shortfall of `actual` against an `expected` that may exceed
/// every amount, up to the largest output that two amounts can be expected
/// to fetch.
fn shortfall_bps(expected: u128, actual: u64) -> (bps: u16)
    requires
        expected <= 0xffff_ffff_ffff_ffff * 0xffff_ffff_ffff_ffff / 1000,
    ensures
        bps == slippage_bps_spec(expected as int, actual as int),
        bps <= 10000,
{
    if expected == 0 || actual as u128 >= expected {
        return 0;
    }
    proof {
        lemma_shortfall_share(expected as int, actual as int);
    }
    let covered: u128 = (actual as u128) * 10000 + (expected - 1);
    let share: u128 = covered / expected;
    (10000 - share) as u16
}

/// Computes the shortfall of `actual` against `expected` in basis points.
pub fn calculate_slippage(expected: u64, actual: u64) -> (bps: u16)
    ensures
        bps == slippage_bps_spec(expected as int, actual as int),
        bps <= 10000,
{
    shortfall_bps(expected as u128, actual)
}

/// Computes the shortfall of `actual` against the output that
/// `input_amount` is expected to fetch at `expected_rate`, in basis points.
pub fn realized_slippage(input_amount: u64, expected_rate: u64, actual: u64) -> (bps: u16)
    ensures
        bps == slippage_bps_spec(expected_output_exact(input_amount, expected_rate), actual as int),
        bps <= 10000,
{
    proof {
        lemma_product_fits(input_amount, expected_rate);
    }
    let product: u128 = (input_amount as u128) * (expected_rate as u128);
    shortfall_bps(product / 1000, actual)
}

/// Applies the profit gate to the balances read before and after the hops.
pub fn settle(start_balance: u64, final_balance: u64, min_profit_bps: u16, steps: u8) -> (settled:
    Result<ArbitrageExecuted, ArbitrageError>)
    ensures
        settled == settlement_spec(start_balance, final_balance, min_profit_bps, steps),
        start_balance == 0 ==> settled matches Err(ArbitrageError::DivisionByZeroBalance),
        start_balance > 0 && profit_bps_spec(start_balance, final_balance) < min_profit_bps
            ==> settled matches Err(ArbitrageError::InsufficientProfit),
        start_balance > 0 && profit_bps_spec(start_balance, final_balance) >= min_profit_bps
            ==> settled is Ok,
{
    if start_balance == 0 {
        return Err(ArbitrageError::DivisionByZeroBalance);
    }
    let profit: u64 = final_balance.saturating_sub(start_balance);
    let profit_bps: u128 = (profit as u128) * 10000 / (start_balance as u128);
    if profit_bps < min_profit_bps as u128 {
        return Err(ArbitrageError::InsufficientProfit);
    }
    Ok(
        ArbitrageExecuted {
            start_amount: start_balance,
            final_amount: final_balance,
            profit,
            profit_bps,
            steps,
        },
    )
}

} // verus!
