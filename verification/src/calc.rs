//! Fee, rounding and slippage arithmetic shared by the PumpSwap quoting functions.

use vstd::prelude::*;

verus! {

/// Number of basis points in one whole (100%).
pub const BASIS_POINTS_DENOMINATOR: u64 = 10_000;

/// `a / b` rounded up.
pub open spec fn spec_ceil_div(a: int, b: int) -> int {
    (a + b - 1) / b
}

/// Fee charged on `amount` at `fee_basis_points`, rounded up.
pub open spec fn spec_compute_fee(amount: int, fee_basis_points: int) -> int {
    spec_ceil_div(amount * fee_basis_points, 10_000)
}

/// Amount raised by `basis_points` of slippage (rounded down).
pub open spec fn spec_slippage_buy(amount: int, basis_points: int) -> int {
    amount + amount * basis_points / 10_000
}

/// Amount lowered by `basis_points` of slippage, never below 1 when it would vanish.
pub open spec fn spec_slippage_sell(amount: int, basis_points: int) -> int {
    if amount <= basis_points / 10_000 {
        1
    } else {
        amount - amount * basis_points / 10_000
    }
}

/// Ceiling division: the least `q` with `q * b >= a`.
pub fn ceil_div(a: u128, b: u128) -> (r: u128)
    requires
        b > 0,
        a + b - 1 <= u128::MAX,
    ensures
        r == spec_ceil_div(a as int, b as int),
        r * b >= a,
        a > 0 ==> (r - 1) * b < a,
{
    let r = (a + (b - 1)) / b;
    proof {
        lemma_ceil_div_bounds(a as int, b as int);
    }
    r
}

/// The ceiling quotient is the least multiple count covering `a`.
pub proof fn lemma_ceil_div_bounds(a: int, b: int)
    requires
        a >= 0,
        b > 0,
    ensures
        spec_ceil_div(a, b) * b >= a,
        a > 0 ==> (spec_ceil_div(a, b) - 1) * b < a,
        spec_ceil_div(a, b) >= 0,
{
    let q = (a + b - 1) / b;
    let r = (a + b - 1) % b;
    assert(a + b - 1 == q * b + r && 0 <= r < b) by (nonlinear_arith)
        requires
            b > 0,
            q == (a + b - 1) / b,
            r == (a + b - 1) % b,
    ;
    assert(q * b >= a) by (nonlinear_arith)
        requires
            a + b - 1 == q * b + r,
            r < b,
    ;
    assert(a > 0 ==> (q - 1) * b < a) by (nonlinear_arith)
        requires
            a + b - 1 == q * b + r,
            0 <= r,
            b > 0,
    ;
    assert(q >= 0) by (nonlinear_arith)
        requires
            a >= 0,
            b > 0,
            q == (a + b - 1) / b,
    ;
}

/// Transaction fee on `amount` at `fee_basis_points` (1 bp = 0.01%), rounded up.
pub fn compute_fee(amount: u128, fee_basis_points: u128) -> (r: u128)
    requires
        amount * fee_basis_points + 9_999 <= u128::MAX,
    ensures
        r == spec_compute_fee(amount as int, fee_basis_points as int),
        r * 10_000 >= amount * fee_basis_points,
{
    proof {
        assert(0 <= amount * fee_basis_points) by (nonlinear_arith);
    }
    ceil_div(amount * fee_basis_points, 10_000)
}

/// Amount to offer when buying: `amount` plus `basis_points` of slippage.
pub fn calculate_with_slippage_buy(amount: u64, basis_points: u64) -> (r: u64)
    requires
        amount * basis_points <= u64::MAX,
        spec_slippage_buy(amount as int, basis_points as int) <= u64::MAX,
    ensures
        r == spec_slippage_buy(amount as int, basis_points as int),
        r >= amount,
{
    amount + (amount * basis_points / 10_000)
}

/// Minimum to accept when selling: `amount` minus `basis_points` of slippage,
/// or 1 when the slippage would consume the whole amount.
pub fn calculate_with_slippage_sell(amount: u64, basis_points: u64) -> (r: u64)
    requires
        amount * basis_points <= u64::MAX,
        amount <= basis_points / 10_000 || amount * basis_points / 10_000 <= amount,
    ensures
        r == spec_slippage_sell(amount as int, basis_points as int),
        amount > basis_points / 10_000 ==> r <= amount,
{
    if amount <= basis_points / 10_000 {
        1
    } else {
        amount - (amount * basis_points / 10_000)
    }
}

} // verus!
