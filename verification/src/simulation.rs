//! The fiscal state machine: configuration, the initial snapshot, and the
//! pure `advance` transition that derives each period's snapshot from its
//! predecessor, as an unbounded, restartable-from-config sequence.
//!
//! One transition, in order: the salary grows (capped), the taxable
//! account pays this period's dividend income, the allocation waterfall
//! splits the predecessor's headroom, the monetary constants and both
//! cost-of-living figures index by one period of inflation, and every
//! account balance compounds one period of growth plus the predecessor's
//! recorded contribution.  Growth here is annual-mode; the sub-annual
//! model lives in the growth module.

use vstd::prelude::*;

verus! {

use crate::Error;
use crate::money::{
    cap_spec, min_spec, mul_rate_spec, cap_money, mul_rate,
    lemma_mul_rate_bounds, lemma_mul_rate_monotonic,
    MONEY_CAP, RATE_CAP, RATE_SCALE,
};
use crate::accounting::{
    TaxBracket, Constants, FiscalYear,
    bracket_ok, brackets_ok, table_valid, bracket_adjusted, constants_wf, year_wf,
    net_income_spec, employer_rrsp_share, personal_rrsp_share,
    tfsa_contribution_of, unregistered_contribution_of, headroom_of,
    y_total_rrsp, net_income_of,
    rrsp_contribution, rrsp_contribution_headroom, net_income,
    lemma_tax_on_bounds,
};
use crate::growth::{grow_annual_spec, grow_annual};
use vstd::arithmetic::div_mod::{lemma_div_is_ordered, lemma_div_multiples_vanish, lemma_div_pos_is_pos};
use vstd::arithmetic::mul::{lemma_mul_inequality, lemma_mul_nonnegative};

/// The share of the taxable account's return paid out as dividend income,
/// in percent; the remainder stays in the account as growth.
pub const DIVIDEND_SHARE: i64 = 25;

/// The process-wide rate assumptions, constant for the life of one run.
/// Growth factors are fixed-point (`RATE_SCALE` is the factor 1); the
/// match and withdraw rates are fixed-point fractions of 1.
#[derive(Clone, Copy, Debug, PartialEq, Eq, Structural)]
pub struct Rates {
    pub inflation: i64,
    pub salary_growth: i64,
    pub return_on_investment: i64,
    pub employer_rrsp_match: i64,
    pub salary_cap: i64,
    pub withdraw_rate: i64,
}

/// The nominal starting amounts of a projection.
#[derive(Clone, Copy, Debug, PartialEq, Eq, Structural)]
pub struct InitialValues {
    pub salary: i64,
    pub cost_of_living: i64,
    pub retirement_cost_of_living: i64,
    pub rrsp_contribution_headroom: i64,
    pub rrsp_assets: i64,
    pub tfsa_assets: i64,
    pub unregistered_assets: i64,
}

/// A full projection configuration: rates, initial values, and the two
/// bracket tables whose concatenation taxes income progressively.
#[derive(Debug)]
pub struct Config {
    pub rates: Rates,
    pub initial_values: InitialValues,
    pub provincial_tax_brackets: Vec<TaxBracket>,
    pub federal_tax_brackets: Vec<TaxBracket>,
}

/// The salary cap used when a configuration leaves it unspecified.
pub fn default_salary_cap() -> (r: i64)
    ensures
        r == 999_999int,
{
    999_999
}

/// The withdraw rate used when a configuration leaves it unspecified: 4%.
pub fn default_withdraw_rate() -> (r: i64)
    ensures
        r == 400int,
{
    400
}

/// Arithmetic validity of the rate assumptions.
pub open spec fn rates_wf(r: Rates) -> bool {
    &&& 0 <= r.inflation <= RATE_CAP
    &&& 0 <= r.salary_growth <= RATE_CAP
    &&& 0 <= r.return_on_investment <= RATE_CAP
    &&& 0 <= r.employer_rrsp_match <= RATE_SCALE
    &&& 0 <= r.salary_cap <= MONEY_CAP
    &&& 0 <= r.withdraw_rate <= RATE_SCALE
}

/// Arithmetic validity of the starting amounts.
pub open spec fn initial_values_wf(v: InitialValues) -> bool {
    &&& 0 <= v.salary <= MONEY_CAP
    &&& 0 <= v.cost_of_living <= MONEY_CAP
    &&& 0 <= v.retirement_cost_of_living <= MONEY_CAP
    &&& 0 <= v.rrsp_contribution_headroom <= MONEY_CAP
    &&& 0 <= v.rrsp_assets <= MONEY_CAP
    &&& 0 <= v.tfsa_assets <= MONEY_CAP
    &&& 0 <= v.unregistered_assets <= MONEY_CAP
}

/// A valid configuration: bounded rates and amounts, and two well-formed
/// (sorted, contiguous-from-zero) bracket tables.
pub open spec fn config_wf(c: Config) -> bool {
    &&& rates_wf(c.rates)
    &&& initial_values_wf(c.initial_values)
    &&& table_valid(c.provincial_tax_brackets@)
    &&& table_valid(c.federal_tax_brackets@)
}

/// The dividend rate the taxable account pays out: `DIVIDEND_SHARE`
/// percent of the return above 1, and nothing in a loss year.
pub open spec fn dividend_rate_spec(rate_of_return: int) -> int {
    if rate_of_return > RATE_SCALE {
        (rate_of_return - RATE_SCALE) * DIVIDEND_SHARE / 100
    } else {
        0
    }
}

/// The growth the taxable account retains: its return less the dividend
/// paid out.
pub open spec fn unregistered_growth_rate_spec(rate_of_return: int) -> int {
    rate_of_return - dividend_rate_spec(rate_of_return)
}

/// The dividend rate is non-negative and never exceeds the return itself.
pub proof fn lemma_dividend_rate_bounds(rate_of_return: int)
    requires
        0 <= rate_of_return <= RATE_CAP,
    ensures
        0 <= dividend_rate_spec(rate_of_return) <= rate_of_return,
        0 <= unregistered_growth_rate_spec(rate_of_return) <= rate_of_return,
{
    if rate_of_return > RATE_SCALE {
        let d = rate_of_return - RATE_SCALE;
        lemma_mul_nonnegative(d, DIVIDEND_SHARE as int);
        lemma_div_pos_is_pos(d * DIVIDEND_SHARE, 100);
        lemma_mul_inequality(DIVIDEND_SHARE as int, 100, d);
        assert(d * (DIVIDEND_SHARE as int) == (DIVIDEND_SHARE as int) * d) by (nonlinear_arith);
        assert(d * 100 == 100 * d) by (nonlinear_arith);
        lemma_div_is_ordered(d * (DIVIDEND_SHARE as int), d * 100, 100);
        lemma_div_multiples_vanish(d, 100);
    }
}

/// The next period's capped salary.
pub open spec fn next_salary_spec(prev: FiscalYear, rates: Rates) -> int {
    min_spec(rates.salary_cap as int, mul_rate_spec(prev.salary as int, rates.salary_growth as int))
}

/// The next period's dividend income, paid by the taxable account.
pub open spec fn next_dividend_spec(prev: FiscalYear, rates: Rates) -> int {
    mul_rate_spec(prev.unregistered_assets as int, dividend_rate_spec(rates.return_on_investment as int))
}

/// The next period's income: capped salary plus dividend income.
pub open spec fn next_income_spec(prev: FiscalYear, rates: Rates) -> int {
    cap_spec(next_salary_spec(prev, rates) + next_dividend_spec(prev, rates))
}

/// The next period's personal tax-deferred share, allocated from the
/// predecessor's headroom against the new salary.
pub open spec fn next_personal_spec(prev: FiscalYear, rates: Rates) -> int {
    personal_rrsp_share(next_salary_spec(prev, rates), headroom_of(prev), rates.employer_rrsp_match as int)
}

/// The next period's employer tax-deferred share.
pub open spec fn next_employer_spec(prev: FiscalYear, rates: Rates) -> int {
    employer_rrsp_share(next_salary_spec(prev, rates), headroom_of(prev), rates.employer_rrsp_match as int)
}

/// The constants of `next` are those of `prev` indexed by one period of
/// inflation.
pub open spec fn constants_adjusted(next: Constants, prev: Constants, inflation: int) -> bool {
    &&& next.tfsa_contribution_limit == cap_spec(mul_rate_spec(prev.tfsa_contribution_limit as int, inflation))
    &&& next.rrsp_contribution_upper_limit == cap_spec(mul_rate_spec(prev.rrsp_contribution_upper_limit as int, inflation))
    &&& next.tax_brackets@ == prev.tax_brackets@.map(|i: int, b: TaxBracket| bracket_adjusted(b, inflation))
}

/// The whole transition relation: `next` is the snapshot one period after
/// `prev` under `rates`.  Balances compound one period of growth and
/// absorb the predecessor's recorded contributions; the taxable account
/// grows at the return less its dividend payout.  The period counter
/// saturates at `u64::MAX`.
pub open spec fn is_next_year(next: FiscalYear, prev: FiscalYear, rates: Rates) -> bool {
    &&& next.salary == next_salary_spec(prev, rates)
    &&& next.income == next_income_spec(prev, rates)
    &&& next.personal_rrsp_contribution == next_personal_spec(prev, rates)
    &&& next.employer_rrsp_contribution == next_employer_spec(prev, rates)
    &&& constants_adjusted(next.constants, prev.constants, rates.inflation as int)
    &&& next.cost_of_living == cap_spec(mul_rate_spec(prev.cost_of_living as int, rates.inflation as int))
    &&& next.retirement_cost_of_living == cap_spec(mul_rate_spec(prev.retirement_cost_of_living as int, rates.inflation as int))
    &&& next.rrsp_assets == grow_annual_spec(prev.rrsp_assets as int, rates.return_on_investment as int, y_total_rrsp(prev))
    &&& next.tfsa_assets == grow_annual_spec(prev.tfsa_assets as int, rates.return_on_investment as int, tfsa_contribution_of(prev))
    &&& next.unregistered_assets == grow_annual_spec(
        prev.unregistered_assets as int,
        unregistered_growth_rate_spec(rates.return_on_investment as int),
        unregistered_contribution_of(prev),
    )
    &&& next.elapsed_periods == (if prev.elapsed_periods == u64::MAX { u64::MAX as int } else { prev.elapsed_periods + 1 })
}

/// The period-zero snapshot a configuration determines: balances and
/// cost-of-living figures straight from the configuration, income equal to
/// the capped salary (no dividends yet), and the supplied period-zero
/// headroom split into the recorded contribution shares.
pub open spec fn is_initial_year(y: FiscalYear, config: Config) -> bool {
    &&& y.salary == min_spec(config.initial_values.salary as int, config.rates.salary_cap as int)
    &&& y.income == y.salary
    &&& y.personal_rrsp_contribution == personal_rrsp_share(
        y.salary as int,
        config.initial_values.rrsp_contribution_headroom as int,
        config.rates.employer_rrsp_match as int,
    )
    &&& y.employer_rrsp_contribution == employer_rrsp_share(
        y.salary as int,
        config.initial_values.rrsp_contribution_headroom as int,
        config.rates.employer_rrsp_match as int,
    )
    &&& y.rrsp_assets == config.initial_values.rrsp_assets
    &&& y.tfsa_assets == config.initial_values.tfsa_assets
    &&& y.unregistered_assets == config.initial_values.unregistered_assets
    &&& y.cost_of_living == config.initial_values.cost_of_living
    &&& y.retirement_cost_of_living == config.initial_values.retirement_cost_of_living
    &&& y.elapsed_periods == 0
    &&& y.constants.tfsa_contribution_limit == crate::accounting::MAX_TFSA_CONTRIBUTION
    &&& y.constants.rrsp_contribution_upper_limit == crate::accounting::MAX_RRSP_CONTRIBUTION
    &&& y.constants.tax_brackets@ == config.provincial_tax_brackets@ + config.federal_tax_brackets@
}

/// The transition preserves well-formedness: from a well-formed snapshot,
/// under bounded rates, the successor is well-formed — in particular no
/// account balance is ever negative.
pub proof fn lemma_next_year_wf(next: FiscalYear, prev: FiscalYear, rates: Rates)
    requires
        year_wf(prev),
        rates_wf(rates),
        is_next_year(next, prev, rates),
    ensures
        year_wf(next),
{
    lemma_mul_rate_bounds(prev.salary as int, rates.salary_growth as int);
    lemma_dividend_rate_bounds(rates.return_on_investment as int);
    lemma_mul_rate_bounds(prev.unregistered_assets as int, dividend_rate_spec(rates.return_on_investment as int));
    lemma_mul_rate_bounds(prev.income as int, crate::accounting::RRSP_CONTRIBUTION_PERCENTAGE as int);
    lemma_mul_rate_bounds(next_salary_spec(prev, rates), rates.employer_rrsp_match as int);
    lemma_mul_rate_bounds(prev.cost_of_living as int, rates.inflation as int);
    lemma_mul_rate_bounds(prev.retirement_cost_of_living as int, rates.inflation as int);
    lemma_mul_rate_bounds(prev.constants.tfsa_contribution_limit as int, rates.inflation as int);
    lemma_mul_rate_bounds(prev.constants.rrsp_contribution_upper_limit as int, rates.inflation as int);
    lemma_mul_rate_bounds(prev.rrsp_assets as int, rates.return_on_investment as int);
    lemma_mul_rate_bounds(prev.tfsa_assets as int, rates.return_on_investment as int);
    lemma_mul_rate_bounds(prev.unregistered_assets as int, unregistered_growth_rate_spec(rates.return_on_investment as int));
    assert(brackets_ok(next.constants.tax_brackets@)) by {
        let mapped = prev.constants.tax_brackets@.map(|i: int, b: TaxBracket| bracket_adjusted(b, rates.inflation as int));
        assert forall|i: int| 0 <= i < mapped.len() implies bracket_ok(#[trigger] mapped[i]) by {
            let b = prev.constants.tax_brackets@[i];
            assert(bracket_ok(b));
            lemma_mul_rate_bounds(b.lower_bound as int, rates.inflation as int);
            lemma_mul_rate_bounds(b.upper_bound as int, rates.inflation as int);
            lemma_mul_rate_monotonic(b.lower_bound as int, b.upper_bound as int, rates.inflation as int);
        }
    }
}

/// The snapshot invariant on contributions: the shares a transition
/// records never exceed the predecessor's contribution headroom.
pub proof fn lemma_contributions_within_headroom(next: FiscalYear, prev: FiscalYear, rates: Rates)
    requires
        year_wf(prev),
        rates_wf(rates),
        is_next_year(next, prev, rates),
    ensures
        y_total_rrsp(next) <= headroom_of(prev),
        0 <= y_total_rrsp(next),
{
    lemma_mul_rate_bounds(prev.salary as int, rates.salary_growth as int);
    crate::accounting::lemma_rrsp_shares_within_headroom(
        next_salary_spec(prev, rates),
        headroom_of(prev),
        rates.employer_rrsp_match as int,
    );
    lemma_mul_rate_bounds(prev.income as int, crate::accounting::RRSP_CONTRIBUTION_PERCENTAGE as int);
}

/// Two snapshots agree when every field that the transition reads or a
/// metric derives from is equal, the bracket table included.
pub open spec fn years_agree(a: FiscalYear, b: FiscalYear) -> bool {
    &&& a.salary == b.salary
    &&& a.income == b.income
    &&& a.personal_rrsp_contribution == b.personal_rrsp_contribution
    &&& a.employer_rrsp_contribution == b.employer_rrsp_contribution
    &&& a.rrsp_assets == b.rrsp_assets
    &&& a.tfsa_assets == b.tfsa_assets
    &&& a.unregistered_assets == b.unregistered_assets
    &&& a.cost_of_living == b.cost_of_living
    &&& a.retirement_cost_of_living == b.retirement_cost_of_living
    &&& a.elapsed_periods == b.elapsed_periods
    &&& a.constants.tfsa_contribution_limit == b.constants.tfsa_contribution_limit
    &&& a.constants.rrsp_contribution_upper_limit == b.constants.rrsp_contribution_upper_limit
    &&& a.constants.tax_brackets@ == b.constants.tax_brackets@
}

/// The transition is deterministic: successors of agreeing snapshots
/// agree.
pub proof fn lemma_next_year_deterministic(n1: FiscalYear, n2: FiscalYear, p1: FiscalYear, p2: FiscalYear, rates: Rates)
    requires
        years_agree(p1, p2),
        is_next_year(n1, p1, rates),
        is_next_year(n2, p2, rates),
    ensures
        years_agree(n1, n2),
{
    assert(net_income_of(p1) == net_income_of(p2));
    assert(tfsa_contribution_of(p1) == tfsa_contribution_of(p2));
    assert(unregistered_contribution_of(p1) == unregistered_contribution_of(p2));
}

/// A run is a chain of snapshots linked by the transition relation.
pub open spec fn is_run(run: Seq<FiscalYear>, rates: Rates) -> bool {
    forall|i: int| 0 <= i < run.len() - 1 ==> is_next_year(#[trigger] run[i + 1], run[i], rates)
}

/// Every snapshot of a run from a well-formed start is well-formed.
proof fn lemma_run_wf(run: Seq<FiscalYear>, rates: Rates, i: int)
    requires
        rates_wf(rates),
        run.len() > 0,
        year_wf(run[0]),
        is_run(run, rates),
        0 <= i < run.len(),
    ensures
        year_wf(run[i]),
    decreases i,
{
    if i > 0 {
        lemma_run_wf(run, rates, i - 1);
        assert(is_next_year(run[i - 1 + 1], run[i - 1], rates));
        lemma_next_year_wf(run[i], run[i - 1], rates);
    }
}

/// Account balances are never negative after any number of transitions
/// from a well-formed start.
pub proof fn lemma_balances_never_negative(run: Seq<FiscalYear>, rates: Rates)
    requires
        rates_wf(rates),
        run.len() > 0,
        year_wf(run[0]),
        is_run(run, rates),
    ensures
        forall|i: int| 0 <= i < run.len() ==> 0 <= #[trigger] run[i].rrsp_assets
            && 0 <= run[i].tfsa_assets && 0 <= run[i].unregistered_assets,
{
    assert forall|i: int| 0 <= i < run.len() implies 0 <= #[trigger] run[i].rrsp_assets
        && 0 <= run[i].tfsa_assets && 0 <= run[i].unregistered_assets by {
        lemma_run_wf(run, rates, i);
    }
}

/// Snapshots at equal positions of two runs of the same configuration
/// agree.
proof fn lemma_runs_agree_at(run1: Seq<FiscalYear>, run2: Seq<FiscalYear>, config: Config, i: int)
    requires
        run1.len() > 0,
        run2.len() > 0,
        is_initial_year(run1[0], config),
        is_initial_year(run2[0], config),
        is_run(run1, config.rates),
        is_run(run2, config.rates),
        0 <= i < run1.len(),
        i < run2.len(),
    ensures
        years_agree(run1[i], run2[i]),
    decreases i,
{
    if i == 0 {
        assert(years_agree(run1[0], run2[0]));
    } else {
        lemma_runs_agree_at(run1, run2, config, i - 1);
        assert(is_next_year(run1[i - 1 + 1], run1[i - 1], config.rates));
        assert(is_next_year(run2[i - 1 + 1], run2[i - 1], config.rates));
        lemma_next_year_deterministic(run1[i], run2[i], run1[i - 1], run2[i - 1], config.rates);
    }
}

/// Determinism of the whole sequence: two runs started from the same
/// configuration agree snapshot for snapshot, however long they are.
pub proof fn lemma_simulation_deterministic(run1: Seq<FiscalYear>, run2: Seq<FiscalYear>, config: Config)
    requires
        run1.len() > 0,
        run2.len() > 0,
        is_initial_year(run1[0], config),
        is_initial_year(run2[0], config),
        is_run(run1, config.rates),
        is_run(run2, config.rates),
    ensures
        forall|i: int| 0 <= i < run1.len() && i < run2.len() ==> years_agree(#[trigger] run1[i], run2[i]),
{
    assert forall|i: int| 0 <= i < run1.len() && i < run2.len() implies years_agree(#[trigger] run1[i], run2[i]) by {
        lemma_runs_agree_at(run1, run2, config, i);
    }
}

/// Check a bracket table for strict, contiguous-from-zero coverage with
/// bounded rates.
fn table_is_valid(brackets: &Vec<TaxBracket>) -> (b: bool)
    ensures
        b == table_valid(brackets@),
{
    let n: usize = brackets.len();
    if n == 0 {
        return true;
    }
    if brackets[0].lower_bound != 0 {
        return false;
    }
    let mut i: usize = 0;
    while i < n
        invariant
            0 <= i <= n,
            n == brackets@.len(),
            n > 0,
            brackets@[0].lower_bound == 0,
            forall|j: int| 0 <= j < i ==> bracket_ok(#[trigger] brackets@[j]),
            forall|j: int| 0 <= j < i ==> #[trigger] brackets@[j].lower_bound < brackets@[j].upper_bound,
            forall|j: int| 0 <= j < i - 1 ==> #[trigger] brackets@[j].upper_bound == brackets@[j + 1].lower_bound,
        decreases n - i,
    {
        let b: TaxBracket = brackets[i];
        proof {
            if table_valid(brackets@) {
                assert(bracket_ok(brackets@[i as int]));
                assert(brackets@[i as int].lower_bound < brackets@[i as int].upper_bound);
                if i > 0 {
                    assert(brackets@[i as int - 1].upper_bound == brackets@[i as int - 1 + 1].lower_bound);
                }
            }
        }
        if !(0 <= b.lower_bound && b.lower_bound < b.upper_bound && b.upper_bound <= MONEY_CAP) {
            return false;
        }
        if !(0 <= b.rate && b.rate <= RATE_SCALE) {
            return false;
        }
        if i > 0 && brackets[i - 1].upper_bound != b.lower_bound {
            return false;
        }
        i = i + 1;
    }
    true
}

impl Config {
    /// Decide whether this configuration is valid: bounded rates and
    /// amounts, and two well-formed bracket tables.
    pub fn validate(&self) -> (b: bool)
        ensures
            b == config_wf(*self),
    {
        let r: &Rates = &self.rates;
        let v: &InitialValues = &self.initial_values;
        let rates_ok: bool = 0 <= r.inflation && r.inflation <= RATE_CAP
            && 0 <= r.salary_growth && r.salary_growth <= RATE_CAP
            && 0 <= r.return_on_investment && r.return_on_investment <= RATE_CAP
            && 0 <= r.employer_rrsp_match && r.employer_rrsp_match <= RATE_SCALE
            && 0 <= r.salary_cap && r.salary_cap <= MONEY_CAP
            && 0 <= r.withdraw_rate && r.withdraw_rate <= RATE_SCALE;
        let values_ok: bool = 0 <= v.salary && v.salary <= MONEY_CAP
            && 0 <= v.cost_of_living && v.cost_of_living <= MONEY_CAP
            && 0 <= v.retirement_cost_of_living && v.retirement_cost_of_living <= MONEY_CAP
            && 0 <= v.rrsp_contribution_headroom && v.rrsp_contribution_headroom <= MONEY_CAP
            && 0 <= v.rrsp_assets && v.rrsp_assets <= MONEY_CAP
            && 0 <= v.tfsa_assets && v.tfsa_assets <= MONEY_CAP
            && 0 <= v.unregistered_assets && v.unregistered_assets <= MONEY_CAP;
        rates_ok && values_ok
            && table_is_valid(&self.provincial_tax_brackets)
            && table_is_valid(&self.federal_tax_brackets)
    }
}

/// The dividend rate the taxable account pays this period.
fn dividend_rate(rate_of_return: i64) -> (r: i64)
    requires
        0 <= rate_of_return <= RATE_CAP,
    ensures
        r == dividend_rate_spec(rate_of_return as int),
        0 <= r <= rate_of_return,
{
    proof {
        lemma_dividend_rate_bounds(rate_of_return as int);
    }
    if rate_of_return > RATE_SCALE {
        let excess: i64 = rate_of_return - RATE_SCALE;
        (((excess as u64) * (DIVIDEND_SHARE as u64)) / 100u64) as i64
    } else {
        0
    }
}

/// Derive the next period's snapshot from its predecessor: grow and cap
/// the salary, pay the taxable account's dividend into income, split the
/// predecessor's headroom into the contribution shares, index the
/// constants and both cost-of-living figures by one period of inflation,
/// and compound every balance one period, absorbing the predecessor's
/// recorded contributions.
pub fn advance_year(prev: &FiscalYear, rates: &Rates) -> (next: FiscalYear)
    requires
        year_wf(*prev),
        rates_wf(*rates),
    ensures
        is_next_year(next, *prev, *rates),
        year_wf(next),
{
    let salary_grown: i64 = mul_rate(prev.salary, rates.salary_growth);
    let salary: i64 = if rates.salary_cap < salary_grown { rates.salary_cap } else { salary_grown };
    let dividend_share_rate: i64 = dividend_rate(rates.return_on_investment);
    let dividend: i64 = mul_rate(prev.unregistered_assets, dividend_share_rate);
    let income: i64 = cap_money(salary + dividend);
    let headroom: i64 = rrsp_contribution_headroom(prev);
    let shares: (i64, i64) = rrsp_contribution(headroom, salary, rates.employer_rrsp_match);
    let constants: Constants = prev.constants.adjust_for_inflation(rates.inflation);
    let cost_of_living: i64 = cap_money(mul_rate(prev.cost_of_living, rates.inflation));
    let retirement_cost_of_living: i64 = cap_money(mul_rate(prev.retirement_cost_of_living, rates.inflation));
    let rrsp_contrib: i64 = prev.total_rrsp_contribution();
    let tfsa_contrib: i64 = prev.tfsa_contribution();
    let unregistered_contrib: i64 = prev.unregistered_contribution();
    let rrsp_assets: i64 = grow_annual(prev.rrsp_assets, rates.return_on_investment, rrsp_contrib);
    let tfsa_assets: i64 = grow_annual(prev.tfsa_assets, rates.return_on_investment, tfsa_contrib);
    let retained_rate: i64 = rates.return_on_investment - dividend_share_rate;
    let unregistered_assets: i64 = grow_annual(prev.unregistered_assets, retained_rate, unregistered_contrib);
    let elapsed_periods: u64 = if prev.elapsed_periods == u64::MAX {
        u64::MAX
    } else {
        prev.elapsed_periods + 1
    };
    let next = FiscalYear {
        salary,
        income,
        personal_rrsp_contribution: shares.0,
        employer_rrsp_contribution: shares.1,
        rrsp_assets,
        tfsa_assets,
        unregistered_assets,
        cost_of_living,
        retirement_cost_of_living,
        elapsed_periods,
        constants,
    };
    proof {
        lemma_next_year_wf(next, *prev, *rates);
    }
    next
}

/// One element of the lazy projection sequence: the snapshot plus a
/// reference to the shared, immutable rate assumptions.
#[derive(Debug)]
pub struct SimulationStep<'a> {
    pub fiscal_year: FiscalYear,
    pub rates: &'a Rates,
}

/// Arithmetic validity of a step.
pub open spec fn step_wf(s: SimulationStep) -> bool {
    &&& year_wf(s.fiscal_year)
    &&& rates_wf(*s.rates)
}

/// Net passive income drawn at the withdraw rate: the tax-free balance's
/// share untaxed, plus the net income on the deferred share as ordinary
/// income and the taxable share as capital gains.
pub open spec fn passive_income_of(s: SimulationStep) -> int {
    mul_rate_spec(s.fiscal_year.tfsa_assets as int, s.rates.withdraw_rate as int)
        + net_income_spec(
            s.fiscal_year.constants.tax_brackets@,
            mul_rate_spec(s.fiscal_year.rrsp_assets as int, s.rates.withdraw_rate as int),
            mul_rate_spec(s.fiscal_year.unregistered_assets as int, s.rates.withdraw_rate as int),
        )
}

/// The asset total that funds the retirement cost of living at the
/// withdraw rate.
pub open spec fn savings_goal_of(s: SimulationStep) -> int {
    s.fiscal_year.retirement_cost_of_living * (RATE_SCALE as int) / (s.rates.withdraw_rate as int)
}

impl<'a> SimulationStep<'a> {
    /// The period-zero step of a configuration.
    fn new(config: &'a Config) -> (s: SimulationStep<'a>)
        requires
            config_wf(*config),
        ensures
            is_initial_year(s.fiscal_year, *config),
            s.rates == &config.rates,
            step_wf(s),
    {
        let mut brackets: Vec<TaxBracket> = Vec::new();
        let mut i: usize = 0;
        while i < config.provincial_tax_brackets.len()
            invariant
                0 <= i <= config.provincial_tax_brackets@.len(),
                brackets@ == config.provincial_tax_brackets@.take(i as int),
            decreases config.provincial_tax_brackets@.len() - i,
        {
            brackets.push(config.provincial_tax_brackets[i]);
            proof {
                assert(brackets@ =~= config.provincial_tax_brackets@.take(i as int + 1));
            }
            i = i + 1;
        }
        let mut j: usize = 0;
        while j < config.federal_tax_brackets.len()
            invariant
                0 <= j <= config.federal_tax_brackets@.len(),
                brackets@ == config.provincial_tax_brackets@ + config.federal_tax_brackets@.take(j as int),
            decreases config.federal_tax_brackets@.len() - j,
        {
            proof {
                assert(brackets@.push(config.federal_tax_brackets@[j as int])
                    =~= config.provincial_tax_brackets@ + config.federal_tax_brackets@.take(j as int + 1));
            }
            brackets.push(config.federal_tax_brackets[j]);
            j = j + 1;
        }
        proof {
            assert(config.provincial_tax_brackets@.take(config.provincial_tax_brackets@.len() as int)
                =~= config.provincial_tax_brackets@);
            assert(config.federal_tax_brackets@.take(config.federal_tax_brackets@.len() as int)
                =~= config.federal_tax_brackets@);
            assert(brackets@ =~= config.provincial_tax_brackets@ + config.federal_tax_brackets@);
        }
        let constants: Constants = Constants::new(brackets);
        let salary: i64 = if config.initial_values.salary < config.rates.salary_cap {
            config.initial_values.salary
        } else {
            config.rates.salary_cap
        };
        let shares: (i64, i64) = rrsp_contribution(
            config.initial_values.rrsp_contribution_headroom,
            salary,
            config.rates.employer_rrsp_match,
        );
        let year = FiscalYear {
            salary,
            income: salary,
            personal_rrsp_contribution: shares.0,
            employer_rrsp_contribution: shares.1,
            rrsp_assets: config.initial_values.rrsp_assets,
            tfsa_assets: config.initial_values.tfsa_assets,
            unregistered_assets: config.initial_values.unregistered_assets,
            cost_of_living: config.initial_values.cost_of_living,
            retirement_cost_of_living: config.initial_values.retirement_cost_of_living,
            elapsed_periods: 0,
            constants,
        };
        proof {
            assert forall|k: int| 0 <= k < year.constants.tax_brackets@.len()
                implies bracket_ok(#[trigger] year.constants.tax_brackets@[k]) by {
                let p = config.provincial_tax_brackets@;
                if k < p.len() {
                    assert(bracket_ok(p[k]));
                } else {
                    assert(bracket_ok(config.federal_tax_brackets@[k - p.len()]));
                }
            }
        }
        SimulationStep { fiscal_year: year, rates: &config.rates }
    }

    /// The next step of the chain: a pure function of this step and the
    /// shared rates.
    pub fn next(&self) -> (s: SimulationStep<'a>)
        requires
            step_wf(*self),
        ensures
            is_next_year(s.fiscal_year, self.fiscal_year, *self.rates),
            s.rates == self.rates,
            step_wf(s),
    {
        SimulationStep { fiscal_year: advance_year(&self.fiscal_year, self.rates), rates: self.rates }
    }

    /// Net passive income this step's balances would yield at the
    /// withdraw rate.
    pub fn passive_income(&self) -> (r: i64)
        requires
            step_wf(*self),
        ensures
            r == passive_income_of(*self),
    {
        let withdraw_rate: i64 = self.rates.withdraw_rate;
        let tfsa_part: i64 = mul_rate(self.fiscal_year.tfsa_assets, withdraw_rate);
        let rrsp_part: i64 = mul_rate(self.fiscal_year.rrsp_assets, withdraw_rate);
        let unregistered_part: i64 = mul_rate(self.fiscal_year.unregistered_assets, withdraw_rate);
        proof {
            lemma_tax_on_bounds(
                self.fiscal_year.constants.tax_brackets@,
                rrsp_part + unregistered_part / 2,
            );
        }
        tfsa_part + net_income(&self.fiscal_year.constants.tax_brackets, rrsp_part, unregistered_part)
    }

    /// The savings goal: the asset total whose withdrawal at the withdraw
    /// rate covers the retirement cost of living, already indexed to this
    /// period.
    pub fn savings_goal(&self) -> (r: i64)
        requires
            step_wf(*self),
            1 <= self.rates.withdraw_rate,
        ensures
            r == savings_goal_of(*self),
    {
        proof {
            lemma_mul_nonnegative(self.fiscal_year.retirement_cost_of_living as int, RATE_SCALE as int);
        }
        let scaled: i64 = self.fiscal_year.retirement_cost_of_living * RATE_SCALE;
        (((scaled as u64)) / (self.rates.withdraw_rate as u64)) as i64
    }
}

/// The lazy, unbounded projection sequence: each call to `next` yields one
/// snapshot and derives its successor, never looking further ahead.
#[derive(Debug)]
pub struct Simulation<'a> {
    pub step: SimulationStep<'a>,
}

impl<'a> Simulation<'a> {
    /// Start a projection from a configuration, validating it first: a
    /// simulation is returned exactly when the configuration is valid,
    /// and a malformed one is rejected outright.
    pub fn new(config: &'a Config) -> (r: Result<Simulation<'a>, Error>)
        ensures
            r matches Ok(sim) ==> is_initial_year(sim.step.fiscal_year, *config)
                && sim.step.rates == &config.rates && step_wf(sim.step),
            r is Ok <==> config_wf(*config),
            r is Err ==> r == Err::<Simulation<'a>, Error>(Error::ConfigurationError),
    {
        if config.validate() {
            Ok(Simulation { step: SimulationStep::new(config) })
        } else {
            Err(Error::ConfigurationError)
        }
    }

    /// Yield the current step and advance the chain by one period.
    pub fn next(&mut self) -> (r: SimulationStep<'a>)
        requires
            step_wf(old(self).step),
        ensures
            r == old(self).step,
            is_next_year(final(self).step.fiscal_year, r.fiscal_year, *r.rates),
            final(self).step.rates == r.rates,
            step_wf(final(self).step),
    {
        let mut successor: SimulationStep<'a> = self.step.next();
        core::mem::swap(&mut self.step, &mut successor);
        successor
    }
}

} // verus!
