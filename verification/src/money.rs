//! Fixed-point money and rate arithmetic.
//!
//! A monetary amount is an `i64` in the caller's smallest currency unit.  A
//! rate is an `i64` scaled by [`RATE_SCALE`]: `10_000` stands for the factor
//! `1.0` (so `10_200` is 2% yearly growth, and a tax rate of `25.75%` is
//! `2_575`).  Multiplying an amount by a rate divides by the scale and
//! floors; amounts that would leave `[0, MONEY_CAP]` saturate at the cap.
//! These two rounding rules are the whole of the numeric model: every spec
//! function below states them exactly.

use vstd::prelude::*;

verus! {

use vstd::arithmetic::div_mod::{lemma_div_is_ordered, lemma_div_multiples_vanish, lemma_div_pos_is_pos};
use vstd::arithmetic::mul::lemma_mul_inequality;

/// The fixed-point scale of rates: this value stands for the factor `1.0`.
pub const RATE_SCALE: i64 = 10_000;

/// The largest representable monetary amount.  Amounts saturate here.
pub const MONEY_CAP: i64 = 1_000_000_000_000;

/// The largest accepted rate: the factor `100.0`.
pub const RATE_CAP: i64 = 1_000_000;

/// The exact meaning of scaling an amount by a rate: multiply, then divide
/// by the scale, flooring.
pub open spec fn mul_rate_spec(amount: int, rate: int) -> int {
    amount * rate / (RATE_SCALE as int)
}

/// Saturation at the largest representable amount.
pub open spec fn cap_spec(x: int) -> int {
    if x > MONEY_CAP { MONEY_CAP as int } else { x }
}

/// Negative amounts clamp to zero where a contribution or a tax portion is owed.
pub open spec fn clamp0_spec(x: int) -> int {
    if x < 0 { 0 } else { x }
}

/// The smaller of two mathematical integers.
pub open spec fn min_spec(a: int, b: int) -> int {
    if a < b { a } else { b }
}

/// Indexing an amount by `periods` periods of compounding at `rate`:
/// one saturating fixed-point multiplication per period, and the amount
/// itself for zero periods.
pub open spec fn index_spec(amount: int, rate: int, periods: nat) -> int
    decreases periods,
{
    if periods == 0 {
        amount
    } else {
        cap_spec(mul_rate_spec(index_spec(amount, rate, (periods - 1) as nat), rate))
    }
}

/// Scaling a non-negative amount by a bounded rate stays within simple
/// linear bounds.
pub proof fn lemma_mul_rate_bounds(amount: int, rate: int)
    requires
        0 <= amount,
        0 <= rate <= RATE_CAP,
    ensures
        0 <= mul_rate_spec(amount, rate) <= 100 * amount,
        rate <= RATE_SCALE ==> mul_rate_spec(amount, rate) <= amount,
{
    lemma_mul_inequality(rate, RATE_CAP as int, amount);
    lemma_div_is_ordered(amount * rate, amount * RATE_CAP, RATE_SCALE as int);
    lemma_div_multiples_vanish(100 * amount, RATE_SCALE as int);
    lemma_div_pos_is_pos(amount * rate, RATE_SCALE as int);
    vstd::arithmetic::mul::lemma_mul_nonnegative(amount, rate);
    assert(amount * RATE_CAP == (RATE_SCALE as int) * (100 * amount)) by (nonlinear_arith);
    if rate <= RATE_SCALE {
        lemma_mul_inequality(rate, RATE_SCALE as int, amount);
        lemma_div_is_ordered(amount * rate, amount * RATE_SCALE, RATE_SCALE as int);
        lemma_div_multiples_vanish(amount, RATE_SCALE as int);
        assert(amount * (RATE_SCALE as int) == (RATE_SCALE as int) * amount) by (nonlinear_arith);
    }
}

/// Scaling is monotone in the amount.
pub proof fn lemma_mul_rate_monotonic(amount1: int, amount2: int, rate: int)
    requires
        0 <= amount1 <= amount2,
        0 <= rate,
    ensures
        mul_rate_spec(amount1, rate) <= mul_rate_spec(amount2, rate),
{
    lemma_mul_inequality(amount1, amount2, rate);
    lemma_div_is_ordered(amount1 * rate, amount2 * rate, RATE_SCALE as int);
}

/// Indexing keeps an amount within `[0, MONEY_CAP]`.
pub proof fn lemma_index_bounds(amount: int, rate: int, periods: nat)
    requires
        0 <= amount <= MONEY_CAP,
        0 <= rate <= RATE_CAP,
    ensures
        0 <= index_spec(amount, rate, periods) <= MONEY_CAP,
    decreases periods,
{
    if periods > 0 {
        lemma_index_bounds(amount, rate, (periods - 1) as nat);
        lemma_mul_rate_bounds(index_spec(amount, rate, (periods - 1) as nat), rate);
    }
}

/// Indexing is monotone in the amount.
pub proof fn lemma_index_monotonic(amount1: int, amount2: int, rate: int, periods: nat)
    requires
        0 <= amount1 <= amount2 <= MONEY_CAP,
        0 <= rate <= RATE_CAP,
    ensures
        index_spec(amount1, rate, periods) <= index_spec(amount2, rate, periods),
    decreases periods,
{
    if periods > 0 {
        lemma_index_monotonic(amount1, amount2, rate, (periods - 1) as nat);
        lemma_index_bounds(amount1, rate, (periods - 1) as nat);
        lemma_mul_rate_monotonic(
            index_spec(amount1, rate, (periods - 1) as nat),
            index_spec(amount2, rate, (periods - 1) as nat),
            rate,
        );
    }
}

/// Scale a non-negative amount by a rate, flooring.
pub fn mul_rate(amount: i64, rate: i64) -> (r: i64)
    requires
        0 <= amount <= MONEY_CAP,
        0 <= rate <= RATE_CAP,
    ensures
        r == mul_rate_spec(amount as int, rate as int),
        0 <= r <= 100 * amount,
        rate <= RATE_SCALE ==> r <= amount,
{
    proof {
        lemma_mul_inequality(rate as int, RATE_CAP as int, amount as int);
        lemma_div_is_ordered(amount * rate, amount * RATE_CAP, RATE_SCALE as int);
        lemma_div_multiples_vanish(100 * amount, RATE_SCALE as int);
        lemma_div_pos_is_pos(amount * rate, RATE_SCALE as int);
        vstd::arithmetic::mul::lemma_mul_nonnegative(amount as int, rate as int);
        if rate <= RATE_SCALE {
            lemma_mul_inequality(rate as int, RATE_SCALE as int, amount as int);
            lemma_div_is_ordered(amount * rate, amount * RATE_SCALE, RATE_SCALE as int);
            lemma_div_multiples_vanish(amount as int, RATE_SCALE as int);
        }
    }
    (((amount as u64) * (rate as u64)) / (RATE_SCALE as u64)) as i64
}

/// Saturate an amount at [`MONEY_CAP`].
pub fn cap_money(x: i64) -> (r: i64)
    ensures
        r == cap_spec(x as int),
{
    if x > MONEY_CAP { MONEY_CAP } else { x }
}

/// Clamp a shortfall to zero.
pub fn clamp0(x: i64) -> (r: i64)
    ensures
        r == clamp0_spec(x as int),
{
    if x < 0 { 0 } else { x }
}

/// Compound `amount` by `rate` for `periods` periods.
///
/// Indexing with zero elapsed periods reproduces the amount unchanged, for
/// every amount and rate.
pub fn index(amount: i64, rate: i64, periods: u32) -> (r: i64)
    requires
        0 <= amount <= MONEY_CAP,
        0 <= rate <= RATE_CAP,
    ensures
        r == index_spec(amount as int, rate as int, periods as nat),
        periods == 0 ==> r == amount,
        0 <= r <= MONEY_CAP,
{
    let mut r: i64 = amount;
    let mut i: u32 = 0;
    while i < periods
        invariant
            0 <= i <= periods,
            0 <= r <= MONEY_CAP,
            0 <= amount <= MONEY_CAP,
            0 <= rate <= RATE_CAP,
            r == index_spec(amount as int, rate as int, i as nat),
        decreases periods - i,
    {
        r = cap_money(mul_rate(r, rate));
        i = i + 1;
    }
    r
}

} // verus!
