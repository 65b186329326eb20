//! The compounding growth model.
//!
//! Annual mode applies one period of growth plus the period's contribution.
//! Sub-annual mode splits a year into `n` pay periods: the equivalent
//! per-period growth factor is the fixed-point `n`-th root of the annual
//! factor, extracted by a capped Newton iteration and then pinned exactly
//! to the floor root, and each of the `n` period steps adds one period of
//! growth plus an equal share of the annual contribution.

use vstd::prelude::*;

verus! {

use crate::Error;
use crate::money::{cap_spec, mul_rate_spec, cap_money, MONEY_CAP, RATE_CAP, RATE_SCALE};
use crate::accounting::{return_on_investment_spec, return_on_investment};
use vstd::arithmetic::div_mod::{lemma_div_is_ordered, lemma_div_multiples_vanish, lemma_div_pos_is_pos};
use vstd::arithmetic::mul::{lemma_mul_inequality, lemma_mul_nonnegative, lemma_mul_upper_bound};

/// The Newton iteration gives up after this many strictly-shrinking steps.
pub const NEWTON_MAX_STEPS: u64 = 10_000;

/// Saturation bound for the scratch powers inside the Newton step.
pub const POW_SAT: i64 = 1_000_000_000_000;

/// Fixed-point power: `pow_fp(x, k)` is `x^k` in `RATE_SCALE` units, with
/// every intermediate product floored by the scale, exactly as the
/// executable per-period compounding floors.
pub open spec fn pow_fp(x: int, k: nat) -> int
    decreases k,
{
    if k == 0 {
        RATE_SCALE as int
    } else {
        pow_fp(x, (k - 1) as nat) * x / (RATE_SCALE as int)
    }
}

/// `r` is the floor fixed-point `n`-th root of `num`: its power stays at or
/// below `num` and the next value's power exceeds it.
pub open spec fn root_prop(r: int, n: nat, num: int) -> bool {
    &&& 0 <= r
    &&& pow_fp(r, n) <= num
    &&& pow_fp(r + 1, n) > num
}

/// The floor fixed-point `n`-th root of `num`.
pub open spec fn fp_root(n: nat, num: int) -> int {
    choose|r: int| root_prop(r, n, num)
}

/// Fixed-point powers of a non-negative base are non-negative.
pub proof fn lemma_pow_fp_nonneg(x: int, k: nat)
    requires
        0 <= x,
    ensures
        0 <= pow_fp(x, k),
    decreases k,
{
    if k > 0 {
        lemma_pow_fp_nonneg(x, (k - 1) as nat);
        lemma_mul_nonnegative(pow_fp(x, (k - 1) as nat), x);
        lemma_div_pos_is_pos(pow_fp(x, (k - 1) as nat) * x, RATE_SCALE as int);
    }
}

/// Fixed-point power is monotone in the base.
pub proof fn lemma_pow_fp_monotonic(x: int, y: int, k: nat)
    requires
        0 <= x <= y,
    ensures
        pow_fp(x, k) <= pow_fp(y, k),
    decreases k,
{
    if k > 0 {
        let px = pow_fp(x, (k - 1) as nat);
        let py = pow_fp(y, (k - 1) as nat);
        lemma_pow_fp_monotonic(x, y, (k - 1) as nat);
        lemma_pow_fp_nonneg(x, (k - 1) as nat);
        lemma_mul_upper_bound(px, py, x, y);
        lemma_div_is_ordered(px * x, py * y, RATE_SCALE as int);
    }
}

/// For a base at or above the scale, one more power never shrinks.
pub proof fn lemma_pow_fp_step_up(x: int, k: nat)
    requires
        RATE_SCALE <= x,
    ensures
        pow_fp(x, k) <= pow_fp(x, (k + 1) as nat),
{
    let p = pow_fp(x, k);
    lemma_pow_fp_nonneg(x, k);
    lemma_mul_inequality(RATE_SCALE as int, x, p);
    lemma_div_is_ordered(p * (RATE_SCALE as int), p * x, RATE_SCALE as int);
    lemma_div_multiples_vanish(p, RATE_SCALE as int);
    assert(p * (RATE_SCALE as int) == (RATE_SCALE as int) * p) by (nonlinear_arith);
}

/// For a base at or above the scale, fixed-point power is monotone in the
/// exponent.
pub proof fn lemma_pow_fp_mono_k(x: int, k1: nat, k2: nat)
    requires
        RATE_SCALE <= x,
        k1 <= k2,
    ensures
        pow_fp(x, k1) <= pow_fp(x, k2),
    decreases k2 - k1,
{
    if k1 < k2 {
        lemma_pow_fp_step_up(x, k1);
        lemma_pow_fp_mono_k(x, (k1 + 1) as nat, k2);
    }
}

/// The first fixed-point power is the base itself.
pub proof fn lemma_pow_fp_one(x: int)
    ensures
        pow_fp(x, 1) == x,
{
    lemma_div_multiples_vanish(x, RATE_SCALE as int);
    assert(pow_fp(x, 0) * x == (RATE_SCALE as int) * x);
}

/// A base at or above the scale is a lower bound on its own positive powers.
pub proof fn lemma_pow_fp_ge_self(x: int, k: nat)
    requires
        RATE_SCALE <= x,
        1 <= k,
    ensures
        x <= pow_fp(x, k),
{
    lemma_pow_fp_one(x);
    lemma_pow_fp_mono_k(x, 1, k);
}

/// The floor root is unique: any two values satisfying the root property
/// for the same exponent and radicand coincide.
pub proof fn lemma_root_unique(n: nat, num: int, r1: int, r2: int)
    requires
        root_prop(r1, n, num),
        root_prop(r2, n, num),
    ensures
        r1 == r2,
{
    if r1 < r2 {
        lemma_pow_fp_monotonic(r1 + 1, r2, n);
    }
    if r2 < r1 {
        lemma_pow_fp_monotonic(r2 + 1, r1, n);
    }
}

/// Any value satisfying the root property is the floor root.
pub proof fn lemma_root_is_fp_root(n: nat, num: int, r: int)
    requires
        root_prop(r, n, num),
    ensures
        fp_root(n, num) == r,
{
    assert(root_prop(fp_root(n, num), n, num)) by {
        assert(exists|x: int| root_prop(x, n, num));
    }
    lemma_root_unique(n, num, fp_root(n, num), r);
}

/// A value whose power stays at or below the radicand is itself bounded by
/// the larger of the scale and the radicand.
pub proof fn lemma_root_bound(x: int, n: nat, num: int)
    requires
        0 <= x,
        1 <= n,
        0 <= num,
        pow_fp(x, n) <= num,
    ensures
        x <= RATE_SCALE || x <= num,
{
    if x > RATE_SCALE {
        lemma_pow_fp_ge_self(x, n);
    }
}

/// Decide whether `pow_fp(x, n) > num` without ever building a large
/// power: below the scale the powers only shrink, and at or above the
/// scale they only grow, so the loop can stop as soon as the running
/// power exceeds `num`.
fn pow_fp_gt(x: i64, n: u32, num: i64) -> (b: bool)
    requires
        1 <= n,
        0 <= x <= RATE_CAP + 1,
        0 <= num <= RATE_CAP,
    ensures
        b == (pow_fp(x as int, n as nat) > num),
{
    if x < RATE_SCALE {
        let mut acc: i64 = RATE_SCALE;
        let mut k: u32 = 0;
        while k < n
            invariant
                0 <= k <= n,
                0 <= x < RATE_SCALE,
                0 <= acc <= RATE_SCALE,
                acc == pow_fp(x as int, k as nat),
            decreases n - k,
        {
            proof {
                lemma_mul_nonnegative(acc as int, x as int);
                lemma_div_pos_is_pos(acc * x, RATE_SCALE as int);
                lemma_mul_upper_bound(acc as int, RATE_SCALE as int, x as int, RATE_SCALE as int);
                lemma_div_is_ordered(acc * x, (RATE_SCALE as int) * RATE_SCALE, RATE_SCALE as int);
                lemma_div_multiples_vanish(RATE_SCALE as int, RATE_SCALE as int);
            }
            acc = (((acc as u64) * (x as u64)) / (RATE_SCALE as u64)) as i64;
            k = k + 1;
        }
        acc > num
    } else {
        if num < RATE_SCALE {
            proof {
                lemma_pow_fp_mono_k(x as int, 0, n as nat);
            }
            return true;
        }
        let mut acc: i64 = RATE_SCALE;
        let mut k: u32 = 0;
        while k < n
            invariant
                0 <= k <= n,
                RATE_SCALE <= x <= RATE_CAP + 1,
                RATE_SCALE <= num <= RATE_CAP,
                0 <= acc <= num,
                acc == pow_fp(x as int, k as nat),
            decreases n - k,
        {
            proof {
                lemma_mul_nonnegative(acc as int, x as int);
                lemma_div_pos_is_pos(acc * x, RATE_SCALE as int);
                lemma_mul_upper_bound(acc as int, RATE_CAP as int, x as int, RATE_CAP as int + 1);
            }
            acc = (((acc as u64) * (x as u64)) / (RATE_SCALE as u64)) as i64;
            k = k + 1;
            if acc > num {
                proof {
                    lemma_pow_fp_mono_k(x as int, k as nat, n as nat);
                }
                return true;
            }
        }
        acc > num
    }
}

/// Scratch power for the Newton step: like `pow_fp` but saturating at
/// `POW_SAT`, so it can always be computed.
pub open spec fn pow_sat(x: int, k: nat) -> int
    decreases k,
{
    if k == 0 {
        RATE_SCALE as int
    } else {
        let q = pow_sat(x, (k - 1) as nat) * x / (RATE_SCALE as int);
        if q > POW_SAT {
            POW_SAT as int
        } else {
            q
        }
    }
}

/// Compute the saturating scratch power.
fn pow_sat_exec(x: i64, k: u32) -> (r: i64)
    requires
        0 <= x <= RATE_CAP,
    ensures
        r == pow_sat(x as int, k as nat),
        0 <= r <= POW_SAT,
{
    let mut acc: i64 = RATE_SCALE;
    let mut j: u32 = 0;
    while j < k
        invariant
            0 <= j <= k,
            0 <= x <= RATE_CAP,
            0 <= acc <= POW_SAT,
            acc == pow_sat(x as int, j as nat),
        decreases k - j,
    {
        proof {
            lemma_mul_nonnegative(acc as int, x as int);
            lemma_div_pos_is_pos(acc * x, RATE_SCALE as int);
            lemma_mul_upper_bound(acc as int, POW_SAT as int, x as int, RATE_CAP as int);
        }
        let q: i64 = (((acc as u64) * (x as u64)) / (RATE_SCALE as u64)) as i64;
        acc = if q > POW_SAT { POW_SAT } else { q };
        j = j + 1;
    }
    acc
}

/// One Newton step toward the fixed-point `n`-th root of `num`, with the
/// divisor power saturated and the result clamped into `[1, RATE_CAP]`.
pub open spec fn newton_step(x: int, n: nat, num: int) -> int {
    let q = pow_sat(x, (n - 1) as nat);
    let t = if q <= 0 {
        RATE_CAP as int
    } else {
        let d = num * (RATE_SCALE as int) / q;
        if d > RATE_CAP {
            RATE_CAP as int
        } else {
            d
        }
    };
    let x1 = ((n - 1) * x + t) / (n as int);
    if x1 < 1 {
        1
    } else {
        x1
    }
}

/// The Newton step keeps its iterate inside `[1, RATE_CAP]`.
proof fn lemma_newton_step_range(x: int, n: nat, num: int)
    requires
        1 <= n,
        1 <= x <= RATE_CAP,
        0 <= num <= RATE_CAP,
    ensures
        1 <= newton_step(x, n, num) <= RATE_CAP,
{
    let q = pow_sat(x, (n - 1) as nat);
    let t = if q <= 0 {
        RATE_CAP as int
    } else {
        let d = num * (RATE_SCALE as int) / q;
        if d > RATE_CAP {
            RATE_CAP as int
        } else {
            d
        }
    };
    if q > 0 {
        lemma_mul_nonnegative(num, RATE_SCALE as int);
        lemma_div_pos_is_pos(num * (RATE_SCALE as int), q);
    }
    assert(0 <= t <= RATE_CAP);
    let s = (n - 1) * x + t;
    lemma_mul_nonnegative(n - 1, x);
    lemma_div_pos_is_pos(s, n as int);
    lemma_mul_inequality(x, RATE_CAP as int, n - 1);
    assert((n - 1) * x == x * (n - 1)) by (nonlinear_arith);
    assert((RATE_CAP as int) * (n - 1) == (n - 1) * (RATE_CAP as int)) by (nonlinear_arith);
    assert(s <= n * (RATE_CAP as int)) by {
        assert((n - 1) * (RATE_CAP as int) + RATE_CAP == n * (RATE_CAP as int)) by (nonlinear_arith);
    }
    lemma_div_is_ordered(s, n * (RATE_CAP as int), n as int);
    lemma_div_multiples_vanish(RATE_CAP as int, n as int);
}

/// Run the Newton step while it strictly shrinks the iterate, with `fuel`
/// steps allowed; the settled iterate if the fuel suffices.
pub open spec fn newton_settle(x: int, n: nat, num: int, fuel: nat) -> Option<int>
    decreases fuel,
{
    if fuel == 0 {
        None
    } else {
        let x1 = newton_step(x, n, num);
        if x1 >= x {
            Some(x)
        } else {
            newton_settle(x1, n, num, (fuel - 1) as nat)
        }
    }
}

/// The iterate the Newton iteration starts from: `num / n`, floored, and
/// at least 1.
pub open spec fn newton_init(n: nat, num: int) -> int {
    let x0 = num / (n as int);
    if x0 < 1 {
        1
    } else {
        x0
    }
}

/// Compute one Newton step.
fn newton_step_exec(x: i64, n: u32, num: i64) -> (r: i64)
    requires
        1 <= n,
        1 <= x <= RATE_CAP,
        0 <= num <= RATE_CAP,
    ensures
        r == newton_step(x as int, n as nat, num as int),
        1 <= r <= RATE_CAP,
{
    proof {
        lemma_newton_step_range(x as int, n as nat, num as int);
    }
    let q: i64 = pow_sat_exec(x, n - 1);
    let t: i64 = if q <= 0 {
        RATE_CAP
    } else {
        proof {
            lemma_mul_nonnegative(num as int, RATE_SCALE as int);
            lemma_div_pos_is_pos(num * (RATE_SCALE as int), q as int);
        }
        let d: i64 = (((num as u64) * (RATE_SCALE as u64)) / (q as u64)) as i64;
        if d > RATE_CAP {
            RATE_CAP
        } else {
            d
        }
    };
    proof {
        lemma_mul_nonnegative((n - 1) as int, x as int);
        lemma_mul_upper_bound((n - 1) as int, u32::MAX as int, x as int, RATE_CAP as int);
    }
    let numerator: i64 = ((n - 1) as i64) * x + t;
    let x1: i64 = (((numerator as u64)) / (n as u64)) as i64;
    if x1 < 1 {
        1
    } else {
        x1
    }
}

/// The zero base has zero positive powers.
proof fn lemma_pow_fp_zero(k: nat)
    requires
        1 <= k,
    ensures
        pow_fp(0, k) == 0,
    decreases k,
{
    if k > 1 {
        lemma_pow_fp_zero((k - 1) as nat);
    }
    assert(pow_fp(0, (k - 1) as nat) * 0 == 0) by (nonlinear_arith);
}

/// With exponent 1 the Newton iteration settles on its first step.
proof fn lemma_newton_one_settles(num: int)
    requires
        0 <= num <= RATE_CAP,
    ensures
        newton_settle(newton_init(1, num), 1, num, NEWTON_MAX_STEPS as nat)
            == Some(newton_init(1, num)),
{
    let init = newton_init(1, num);
    lemma_div_multiples_vanish(num, 1);
    assert(1 * num == num) by (nonlinear_arith);
    assert(init == if num < 1 { 1int } else { num });
    assert(pow_sat(init, 0) == RATE_SCALE as int);
    lemma_div_multiples_vanish(num, RATE_SCALE as int);
    assert(num * (RATE_SCALE as int) == (RATE_SCALE as int) * num) by (nonlinear_arith);
    assert(num * (RATE_SCALE as int) / (RATE_SCALE as int) == num);
    assert((1 - 1) * init + num == num) by (nonlinear_arith);
    assert(newton_step(init, 1, num) == init);
}

/// Extract the fixed-point `n`-th root of `num`.
///
/// The Newton iteration starts at `num / n` and runs while it strictly
/// shrinks, giving up with an arithmetic error after `NEWTON_MAX_STEPS`
/// steps; the settled iterate is then walked to the exact floor root, the
/// unique `r` with `pow_fp(r, n) <= num < pow_fp(r + 1, n)`.  With one
/// period the root is the radicand itself.
pub fn nth_root(n: u32, num: i64) -> (r: Result<i64, Error>)
    requires
        1 <= n,
        0 <= num <= RATE_CAP,
    ensures
        r matches Ok(root) ==> root_prop(root as int, n as nat, num as int),
        r matches Ok(root) ==> root == fp_root(n as nat, num as int) && 0 <= root <= RATE_CAP,
        r is Ok <==> !(newton_settle(newton_init(n as nat, num as int), n as nat, num as int, NEWTON_MAX_STEPS as nat) is None),
        r is Err ==> r == Err::<i64, Error>(Error::ArithmeticError),
        n == 1 ==> r == Ok::<i64, Error>(num),
{
    let x0: i64 = ((num as u64) / (n as u64)) as i64;
    let mut x: i64 = if x0 < 1 { 1 } else { x0 };
    proof {
        lemma_div_pos_is_pos(num as int, n as int);
        lemma_div_is_ordered(num as int, RATE_CAP as int, n as int);
        vstd::arithmetic::div_mod::lemma_div_nonincreasing(RATE_CAP as int, n as int);
        assert(x == newton_init(n as nat, num as int));
    }
    let mut fuel: u64 = NEWTON_MAX_STEPS;
    let mut settled: bool = false;
    while fuel > 0
        invariant_except_break
            1 <= n,
            0 <= num <= RATE_CAP,
            1 <= x <= RATE_CAP,
            !settled,
            newton_settle(newton_init(n as nat, num as int), n as nat, num as int, NEWTON_MAX_STEPS as nat)
                == newton_settle(x as int, n as nat, num as int, fuel as nat),
        ensures
            1 <= n,
            0 <= num <= RATE_CAP,
            1 <= x <= RATE_CAP,
            settled ==> newton_settle(newton_init(n as nat, num as int), n as nat, num as int, NEWTON_MAX_STEPS as nat)
                == Some(x as int),
            !settled ==> newton_settle(newton_init(n as nat, num as int), n as nat, num as int, NEWTON_MAX_STEPS as nat)
                is None,
        decreases fuel,
    {
        let x1: i64 = newton_step_exec(x, n, num);
        if x1 >= x {
            settled = true;
            break;
        }
        x = x1;
        fuel = fuel - 1;
    }
    if !settled {
        proof {
            if n == 1 {
                lemma_newton_one_settles(num as int);
            }
        }
        return Err(Error::ArithmeticError);
    }
    let mut c: i64 = x;
    while pow_fp_gt(c, n, num)
        invariant
            1 <= n,
            0 <= num <= RATE_CAP,
            0 <= c <= RATE_CAP,
        decreases c,
    {
        proof {
            if c == 0 {
                lemma_pow_fp_zero(n as nat);
            }
        }
        c = c - 1;
    }
    while !pow_fp_gt(c + 1, n, num)
        invariant
            1 <= n,
            0 <= num <= RATE_CAP,
            0 <= c <= RATE_CAP,
            pow_fp(c as int, n as nat) <= num,
        decreases RATE_CAP - c,
    {
        proof {
            lemma_root_bound(c as int + 1, n as nat, num as int);
        }
        c = c + 1;
    }
    proof {
        lemma_root_is_fp_root(n as nat, num as int, c as int);
        if n == 1 {
            lemma_pow_fp_one(c as int);
            lemma_pow_fp_one(c as int + 1);
        }
    }
    Ok(c)
}

/// Annual-mode growth: the old balance, one period of growth on it, and
/// the new contribution, saturated at `MONEY_CAP`.
pub open spec fn grow_annual_spec(balance: int, rate: int, contribution: int) -> int {
    cap_spec(balance + return_on_investment_spec(balance, rate) + contribution)
}

/// Apply one period of growth at `rate` to `balance` and add
/// `contribution`.
pub fn grow_annual(balance: i64, rate: i64, contribution: i64) -> (r: i64)
    requires
        0 <= balance <= MONEY_CAP,
        0 <= rate <= RATE_CAP,
        0 <= contribution <= 2 * MONEY_CAP,
    ensures
        r == grow_annual_spec(balance as int, rate as int, contribution as int),
        0 <= r <= MONEY_CAP,
{
    cap_money(balance + return_on_investment(balance, rate) + contribution)
}

/// `k` sequential sub-period steps, each adding one sub-period of growth
/// and an equal share of the annual contribution.
pub open spec fn sub_annual_spec(balance: int, period_rate: int, period_contribution: int, k: nat) -> int
    decreases k,
{
    if k == 0 {
        balance
    } else {
        grow_annual_spec(
            sub_annual_spec(balance, period_rate, period_contribution, (k - 1) as nat),
            period_rate,
            period_contribution,
        )
    }
}

/// Sub-annual growth: split the year into `periods` pay periods, grow at
/// the fixed-point `periods`-th root of the annual factor, and add an
/// equal share of the annual contribution each period.
pub fn grow_sub_annual(balance: i64, annual_rate: i64, annual_contribution: i64, periods: u32) -> (r: Result<i64, Error>)
    requires
        0 <= balance <= MONEY_CAP,
        0 <= annual_rate <= RATE_CAP,
        0 <= annual_contribution <= MONEY_CAP,
        1 <= periods,
    ensures
        r matches Ok(b) ==> b == sub_annual_spec(
            balance as int,
            fp_root(periods as nat, annual_rate as int),
            annual_contribution as int / periods as int,
            periods as nat,
        ) && 0 <= b <= MONEY_CAP,
        r is Ok <==> !(newton_settle(newton_init(periods as nat, annual_rate as int), periods as nat, annual_rate as int, NEWTON_MAX_STEPS as nat) is None),
        r is Err ==> r == Err::<i64, Error>(Error::ArithmeticError),
{
    let root: i64 = match nth_root(periods, annual_rate) {
        Ok(root) => root,
        Err(e) => {
            return Err(e);
        },
    };
    let per: i64 = ((annual_contribution as u64) / (periods as u64)) as i64;
    proof {
        lemma_div_pos_is_pos(annual_contribution as int, periods as int);
        vstd::arithmetic::div_mod::lemma_div_nonincreasing(annual_contribution as int, periods as int);
    }
    let mut balance_now: i64 = balance;
    let mut k: u32 = 0;
    while k < periods
        invariant
            0 <= k <= periods,
            0 <= root <= RATE_CAP,
            0 <= per <= MONEY_CAP,
            0 <= balance_now <= MONEY_CAP,
            0 <= balance <= MONEY_CAP,
            balance_now == sub_annual_spec(balance as int, root as int, per as int, k as nat),
        decreases periods - k,
    {
        balance_now = grow_annual(balance_now, root, per);
        k = k + 1;
    }
    Ok(balance_now)
}

/// The growth alone that sub-annual compounding produces on `balance` over
/// `periods` sub-periods of the annual factor `annual_rate`.
///
/// With a single period this coincides exactly with annual mode: the
/// extracted root is the annual factor itself, and the growth is one
/// period's return on the balance (as long as the grown balance does not
/// saturate).
pub fn growth_model(balance: i64, annual_rate: i64, periods: u32) -> (r: Result<i64, Error>)
    requires
        0 <= balance <= MONEY_CAP,
        0 <= annual_rate <= RATE_CAP,
        1 <= periods,
    ensures
        r matches Ok(g) ==> g == sub_annual_spec(
            balance as int,
            fp_root(periods as nat, annual_rate as int),
            0,
            periods as nat,
        ) - balance,
        r is Ok <==> !(newton_settle(newton_init(periods as nat, annual_rate as int), periods as nat, annual_rate as int, NEWTON_MAX_STEPS as nat) is None),
        periods == 1 && mul_rate_spec(balance as int, annual_rate as int) <= MONEY_CAP
            ==> r == Ok::<i64, Error>((return_on_investment_spec(balance as int, annual_rate as int)) as i64),
        r is Err ==> r == Err::<i64, Error>(Error::ArithmeticError),
{
    match grow_sub_annual(balance, annual_rate, 0, periods) {
        Ok(b) => {
            proof {
                if periods == 1 {
                    assert(0int / 1int == 0int);
                    lemma_pow_fp_one(annual_rate as int);
                    lemma_pow_fp_one(annual_rate as int + 1);
                    lemma_root_is_fp_root(1, annual_rate as int, annual_rate as int);
                    assert(sub_annual_spec(balance as int, annual_rate as int, 0, 0) == balance as int);
                    assert(sub_annual_spec(balance as int, annual_rate as int, 0, 1)
                        == grow_annual_spec(balance as int, annual_rate as int, 0));
                }
            }
            Ok(b - balance)
        },
        Err(e) => {
            proof {
                if periods == 1 {
                    lemma_newton_one_settles(annual_rate as int);
                }
            }
            Err(e)
        },
    }
}

} // verus!
