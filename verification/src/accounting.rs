//! Tax brackets, the progressive tax calculator, the shared monetary
//! constants of a projection, and the per-period fiscal snapshot.

use vstd::prelude::*;

verus! {

use crate::money::{
    cap_spec, clamp0_spec, min_spec, mul_rate_spec, cap_money, clamp0, mul_rate,
    MONEY_CAP, RATE_CAP, RATE_SCALE,
};
use vstd::arithmetic::div_mod::{lemma_div_is_ordered, lemma_div_multiples_vanish, lemma_div_pos_is_pos};
use vstd::arithmetic::mul::{lemma_mul_inequality, lemma_mul_nonnegative};

/// One marginal tax rate over an income interval.  `rate` is a fixed-point
/// percentage of the taxed portion: `RATE_SCALE` stands for 100%.
#[derive(Clone, Copy, Debug, PartialEq, Eq, Structural)]
pub struct TaxBracket {
    pub lower_bound: i64,
    pub upper_bound: i64,
    pub rate: i64,
}

/// Arithmetic validity of a single bracket: ordered bounds within the
/// representable range, and a rate between 0% and 100%.
pub open spec fn bracket_ok(b: TaxBracket) -> bool {
    &&& 0 <= b.lower_bound <= b.upper_bound <= MONEY_CAP
    &&& 0 <= b.rate <= RATE_SCALE
}

/// Every bracket of a table is arithmetically valid.
pub open spec fn brackets_ok(brackets: Seq<TaxBracket>) -> bool {
    forall|i: int| 0 <= i < brackets.len() ==> #[trigger] bracket_ok(brackets[i])
}

/// A well-formed bracket table: strictly ordered bounds, coverage starting
/// at zero, and contiguous intervals.
pub open spec fn table_valid(brackets: Seq<TaxBracket>) -> bool {
    &&& brackets_ok(brackets)
    &&& forall|i: int| 0 <= i < brackets.len() ==> #[trigger] brackets[i].lower_bound < brackets[i].upper_bound
    &&& (brackets.len() > 0 ==> brackets[0].lower_bound == 0)
    &&& forall|i: int| 0 <= i < brackets.len() - 1 ==> #[trigger] brackets[i].upper_bound == brackets[i + 1].lower_bound
}

/// The portion of `income` that falls inside bracket `b`.
pub open spec fn bracket_portion(b: TaxBracket, income: int) -> int {
    clamp0_spec(min_spec(income, b.upper_bound as int) - b.lower_bound)
}

/// The tax owed on `income` within bracket `b` alone.
pub open spec fn bracket_tax(b: TaxBracket, income: int) -> int {
    bracket_portion(b, income) * b.rate / (RATE_SCALE as int)
}

/// Total progressive tax across a bracket table, accumulated with
/// saturation at `MONEY_CAP`.
pub open spec fn tax_on(brackets: Seq<TaxBracket>, income: int) -> int
    decreases brackets.len(),
{
    if brackets.len() == 0 {
        0
    } else {
        cap_spec(tax_on(brackets.drop_last(), income) + bracket_tax(brackets.last(), income))
    }
}

/// A bracket's tax is never negative and never exceeds the bracket's width.
pub proof fn lemma_bracket_tax_bounds(b: TaxBracket, income: int)
    requires
        bracket_ok(b),
    ensures
        0 <= bracket_tax(b, income) <= b.upper_bound - b.lower_bound,
{
    let p = bracket_portion(b, income);
    assert(0 <= p <= b.upper_bound - b.lower_bound);
    lemma_mul_nonnegative(p, b.rate as int);
    lemma_div_pos_is_pos(p * b.rate, RATE_SCALE as int);
    lemma_mul_inequality(b.rate as int, RATE_SCALE as int, p);
    lemma_div_is_ordered(p * b.rate, p * RATE_SCALE, RATE_SCALE as int);
    lemma_div_multiples_vanish(p, RATE_SCALE as int);
}

/// Total tax is never negative and never exceeds `MONEY_CAP`.
pub proof fn lemma_tax_on_bounds(brackets: Seq<TaxBracket>, income: int)
    requires
        brackets_ok(brackets),
    ensures
        0 <= tax_on(brackets, income) <= MONEY_CAP,
    decreases brackets.len(),
{
    if brackets.len() > 0 {
        assert(brackets_ok(brackets.drop_last())) by {
            assert(forall|i: int| 0 <= i < brackets.len() - 1 ==> brackets.drop_last()[i] == #[trigger] brackets[i]);
        }
        lemma_tax_on_bounds(brackets.drop_last(), income);
        lemma_bracket_tax_bounds(brackets.last(), income);
    }
}

/// Tax on a non-positive income, or on any income at or below every
/// bracket's lower bound, is zero.
pub proof fn lemma_tax_on_zero_below(brackets: Seq<TaxBracket>, income: int)
    requires
        brackets_ok(brackets),
        forall|i: int| 0 <= i < brackets.len() ==> income <= #[trigger] brackets[i].lower_bound,
    ensures
        tax_on(brackets, income) == 0,
    decreases brackets.len(),
{
    if brackets.len() > 0 {
        assert(forall|i: int| 0 <= i < brackets.len() - 1 ==> brackets.drop_last()[i] == #[trigger] brackets[i]);
        lemma_tax_on_zero_below(brackets.drop_last(), income);
        let b = brackets.last();
        assert(bracket_portion(b, income) == 0);
        assert(bracket_tax(b, income) == 0) by {
            assert(0 * b.rate == 0) by (nonlinear_arith);
        }
    }
}

impl TaxBracket {
    /// Build a bracket from its bounds and its fixed-point percentage.
    pub fn new(lower_bound: i64, upper_bound: i64, rate: i64) -> (b: TaxBracket)
        ensures
            b.lower_bound == lower_bound,
            b.upper_bound == upper_bound,
            b.rate == rate,
    {
        TaxBracket { lower_bound, upper_bound, rate }
    }

    /// The tax owed on `income` within this bracket alone.  Portions below
    /// the bracket clamp to zero, never negative.
    pub fn compute_tax(&self, income: i64) -> (r: i64)
        requires
            bracket_ok(*self),
        ensures
            r == bracket_tax(*self, income as int),
            0 <= r <= self.upper_bound - self.lower_bound,
    {
        proof {
            lemma_bracket_tax_bounds(*self, income as int);
        }
        let top: i64 = if income < self.upper_bound { income } else { self.upper_bound };
        if top <= self.lower_bound {
            proof {
                assert(bracket_portion(*self, income as int) == 0);
                assert(0 * self.rate == 0) by (nonlinear_arith);
            }
            0
        } else {
            let portion: i64 = top - self.lower_bound;
            mul_rate(portion, self.rate)
        }
    }

    /// A copy of this bracket with both bounds scaled by one period of
    /// `inflation_rate`, the rate unchanged.
    pub fn adjust_for_inflation(&self, inflation_rate: i64) -> (b: TaxBracket)
        requires
            bracket_ok(*self),
            0 <= inflation_rate <= RATE_CAP,
        ensures
            b == bracket_adjusted(*self, inflation_rate as int),
            bracket_ok(b),
    {
        let lo: i64 = cap_money(mul_rate(self.lower_bound, inflation_rate));
        let hi: i64 = cap_money(mul_rate(self.upper_bound, inflation_rate));
        proof {
            lemma_mul_inequality(self.lower_bound as int, self.upper_bound as int, inflation_rate as int);
            lemma_div_is_ordered(
                self.lower_bound * inflation_rate,
                self.upper_bound * inflation_rate,
                RATE_SCALE as int,
            );
        }
        TaxBracket { lower_bound: lo, upper_bound: hi, rate: self.rate }
    }
}

/// The bracket that one period of inflation indexing produces.
pub open spec fn bracket_adjusted(b: TaxBracket, inflation_rate: int) -> TaxBracket {
    TaxBracket {
        lower_bound: cap_spec(mul_rate_spec(b.lower_bound as int, inflation_rate)) as i64,
        upper_bound: cap_spec(mul_rate_spec(b.upper_bound as int, inflation_rate)) as i64,
        rate: b.rate,
    }
}

/// Sum the tax owed across a whole bracket table, saturating at
/// `MONEY_CAP`.  Incomes at or below zero owe nothing.
pub fn compute_table_tax(brackets: &Vec<TaxBracket>, income: i64) -> (r: i64)
    requires
        brackets_ok(brackets@),
    ensures
        r == tax_on(brackets@, income as int),
        0 <= r <= MONEY_CAP,
        income <= 0 ==> r == 0,
{
    let mut total: i64 = 0;
    let mut i: usize = 0;
    while i < brackets.len()
        invariant
            0 <= i <= brackets@.len(),
            brackets_ok(brackets@),
            total == tax_on(brackets@.take(i as int), income as int),
            0 <= total <= MONEY_CAP,
        decreases brackets@.len() - i,
    {
        proof {
            assert(brackets@.take(i as int + 1).drop_last() =~= brackets@.take(i as int));
            assert(brackets@.take(i as int + 1).last() == brackets@[i as int]);
            assert(bracket_ok(brackets@[i as int]));
            lemma_bracket_tax_bounds(brackets@[i as int], income as int);
        }
        let t: i64 = brackets[i].compute_tax(income);
        total = cap_money(total + t);
        i = i + 1;
    }
    proof {
        assert(brackets@.take(brackets@.len() as int) =~= brackets@);
        if income <= 0 {
            assert forall|j: int| 0 <= j < brackets@.len() implies income as int <= #[trigger] brackets@[j].lower_bound by {
                assert(bracket_ok(brackets@[j]));
            }
            lemma_tax_on_zero_below(brackets@, income as int);
        }
    }
    total
}

/// A single bracket's tax never decreases as income grows.
pub proof fn lemma_bracket_tax_monotonic(b: TaxBracket, income1: int, income2: int)
    requires
        bracket_ok(b),
        income1 <= income2,
    ensures
        bracket_tax(b, income1) <= bracket_tax(b, income2),
{
    let p1 = bracket_portion(b, income1);
    let p2 = bracket_portion(b, income2);
    assert(p1 <= p2);
    lemma_mul_inequality(p1, p2, b.rate as int);
    lemma_div_is_ordered(p1 * b.rate, p2 * b.rate, RATE_SCALE as int);
}

/// Progressive tax over a sorted, contiguous bracket table is monotonically
/// non-decreasing in income.
pub proof fn lemma_compute_tax_monotonic(brackets: Seq<TaxBracket>, income1: int, income2: int)
    requires
        table_valid(brackets),
        income1 <= income2,
    ensures
        tax_on(brackets, income1) <= tax_on(brackets, income2),
    decreases brackets.len(),
{
    if brackets.len() > 0 {
        assert(forall|i: int| 0 <= i < brackets.len() - 1 ==> brackets.drop_last()[i] == #[trigger] brackets[i]);
        lemma_compute_tax_monotonic(brackets.drop_last(), income1, income2);
        lemma_bracket_tax_monotonic(brackets.last(), income1, income2);
    }
}

/// Every lower bound of a sorted, contiguous table lies at or above the
/// table's lowest lower bound.
proof fn lemma_table_lower_bounds(brackets: Seq<TaxBracket>, i: int)
    requires
        table_valid(brackets),
        0 <= i < brackets.len(),
    ensures
        brackets[0].lower_bound <= brackets[i].lower_bound,
    decreases i,
{
    if i > 0 {
        lemma_table_lower_bounds(brackets, i - 1);
        assert(brackets[i - 1].upper_bound == brackets[i].lower_bound);
    }
}

/// Over a sorted, contiguous table, income at or below the lowest lower
/// bound owes zero tax.
pub proof fn lemma_compute_tax_zero_below_lowest(brackets: Seq<TaxBracket>, income: int)
    requires
        table_valid(brackets),
        brackets.len() > 0,
        income <= brackets[0].lower_bound,
    ensures
        tax_on(brackets, income) == 0,
{
    assert forall|i: int| 0 <= i < brackets.len() implies income <= #[trigger] brackets[i].lower_bound by {
        lemma_table_lower_bounds(brackets, i);
    }
    lemma_tax_on_zero_below(brackets, income);
}

/// When the combined matched contribution would exceed the headroom, the
/// headroom is split evenly between the personal and the employer share,
/// and the two shares exhaust it exactly: the employer never receives more
/// than half, and for even headroom the two shares are equal.
pub proof fn lemma_employer_match_overflow(salary: int, headroom: int, match_rate: int)
    requires
        0 <= headroom,
        2 * mul_rate_spec(salary, match_rate) > headroom,
    ensures
        employer_rrsp_share(salary, headroom, match_rate) == headroom / 2,
        personal_rrsp_share(salary, headroom, match_rate) == headroom - headroom / 2,
        personal_rrsp_share(salary, headroom, match_rate)
            + employer_rrsp_share(salary, headroom, match_rate) == headroom,
        2 * employer_rrsp_share(salary, headroom, match_rate) <= headroom,
        headroom % 2 == 0 ==> personal_rrsp_share(salary, headroom, match_rate)
            == employer_rrsp_share(salary, headroom, match_rate),
{
    vstd::arithmetic::div_mod::lemma_fundamental_div_mod(headroom, 2);
}

/// The two shares are non-negative and together never exceed the
/// headroom they were allocated from.
pub proof fn lemma_rrsp_shares_within_headroom(salary: int, headroom: int, match_rate: int)
    requires
        0 <= salary,
        0 <= headroom,
        0 <= match_rate,
    ensures
        0 <= employer_rrsp_share(salary, headroom, match_rate),
        0 <= personal_rrsp_share(salary, headroom, match_rate),
        personal_rrsp_share(salary, headroom, match_rate)
            + employer_rrsp_share(salary, headroom, match_rate) <= headroom,
{
    lemma_mul_nonnegative(salary, match_rate);
    lemma_div_pos_is_pos(salary * match_rate, RATE_SCALE as int);
    lemma_div_pos_is_pos(headroom, 2);
    vstd::arithmetic::div_mod::lemma_div_nonincreasing(headroom, 2);
}

/// The nominal yearly cap on tax-deferred (RRSP-like) contributions.
pub const MAX_RRSP_CONTRIBUTION: i64 = 26_500;

/// The nominal yearly cap on tax-free (TFSA-like) contributions.
pub const MAX_TFSA_CONTRIBUTION: i64 = 6_000;

/// Tax-deferred headroom accrues at 18% of income, as a fixed-point rate.
pub const RRSP_CONTRIBUTION_PERCENTAGE: i64 = 1_800;

/// The monetary constants of a projection: contribution caps and the
/// combined tax-bracket table.  A new value is derived each period so that
/// every cap and every bracket bound shifts together under inflation.
#[derive(Debug)]
pub struct Constants {
    pub tfsa_contribution_limit: i64,
    pub rrsp_contribution_upper_limit: i64,
    pub tax_brackets: Vec<TaxBracket>,
}

/// Arithmetic validity of a `Constants` value.
pub open spec fn constants_wf(c: Constants) -> bool {
    &&& 0 <= c.tfsa_contribution_limit <= MONEY_CAP
    &&& 0 <= c.rrsp_contribution_upper_limit <= MONEY_CAP
    &&& brackets_ok(c.tax_brackets@)
}

impl Constants {
    /// Nominal constants around a caller-supplied bracket table.
    pub fn new(tax_brackets: Vec<TaxBracket>) -> (c: Constants)
        ensures
            c.tfsa_contribution_limit == MAX_TFSA_CONTRIBUTION,
            c.rrsp_contribution_upper_limit == MAX_RRSP_CONTRIBUTION,
            c.tax_brackets@ == tax_brackets@,
            brackets_ok(tax_brackets@) ==> constants_wf(c),
    {
        Constants {
            tfsa_contribution_limit: MAX_TFSA_CONTRIBUTION,
            rrsp_contribution_upper_limit: MAX_RRSP_CONTRIBUTION,
            tax_brackets,
        }
    }

    /// A copy with every cap and every bracket bound scaled by one period
    /// of `inflation_rate`.
    pub fn adjust_for_inflation(&self, inflation_rate: i64) -> (c: Constants)
        requires
            constants_wf(*self),
            0 <= inflation_rate <= RATE_CAP,
        ensures
            c.tfsa_contribution_limit == cap_spec(mul_rate_spec(self.tfsa_contribution_limit as int, inflation_rate as int)),
            c.rrsp_contribution_upper_limit == cap_spec(mul_rate_spec(self.rrsp_contribution_upper_limit as int, inflation_rate as int)),
            c.tax_brackets@ =~= self.tax_brackets@.map(|i: int, b: TaxBracket| bracket_adjusted(b, inflation_rate as int)),
            constants_wf(c),
    {
        let mut adjusted: Vec<TaxBracket> = Vec::new();
        let mut i: usize = 0;
        while i < self.tax_brackets.len()
            invariant
                0 <= i <= self.tax_brackets@.len(),
                constants_wf(*self),
                0 <= inflation_rate <= RATE_CAP,
                adjusted@.len() == i,
                forall|j: int| 0 <= j < i ==> #[trigger] adjusted@[j] == bracket_adjusted(self.tax_brackets@[j], inflation_rate as int),
                forall|j: int| 0 <= j < i ==> bracket_ok(#[trigger] adjusted@[j]),
            decreases self.tax_brackets@.len() - i,
        {
            proof {
                assert(bracket_ok(self.tax_brackets@[i as int]));
            }
            let b: TaxBracket = self.tax_brackets[i].adjust_for_inflation(inflation_rate);
            adjusted.push(b);
            i = i + 1;
        }
        Constants {
            tfsa_contribution_limit: cap_money(mul_rate(self.tfsa_contribution_limit, inflation_rate)),
            rrsp_contribution_upper_limit: cap_money(mul_rate(self.rrsp_contribution_upper_limit, inflation_rate)),
            tax_brackets: adjusted,
        }
    }
}

/// Net income under the split-income rule: only half of the capital-gains
/// component enters the taxable base, but the full gains are added back
/// after tax.
pub open spec fn net_income_spec(brackets: Seq<TaxBracket>, income: int, capital_gains: int) -> int {
    income + capital_gains - tax_on(brackets, income + capital_gains / 2)
}

/// Income plus capital gains, less the progressive tax on the split base.
pub fn net_income(tax_brackets: &Vec<TaxBracket>, income: i64, capital_gains: i64) -> (r: i64)
    requires
        brackets_ok(tax_brackets@),
        -MONEY_CAP <= income <= MONEY_CAP,
        0 <= capital_gains <= MONEY_CAP,
    ensures
        r == net_income_spec(tax_brackets@, income as int, capital_gains as int),
        -2 * MONEY_CAP <= r <= 2 * MONEY_CAP,
{
    let half_gains: i64 = ((capital_gains as u64) / 2u64) as i64;
    let base: i64 = income + half_gains;
    let tax: i64 = compute_table_tax(tax_brackets, base);
    income + capital_gains - tax
}

/// The employer's share of a tax-deferred contribution.
pub open spec fn employer_rrsp_share(salary: int, headroom: int, match_rate: int) -> int {
    let max_match = mul_rate_spec(salary, match_rate);
    if 2 * max_match > headroom {
        headroom / 2
    } else {
        max_match
    }
}

/// The personal share of a tax-deferred contribution.
pub open spec fn personal_rrsp_share(salary: int, headroom: int, match_rate: int) -> int {
    let max_match = mul_rate_spec(salary, match_rate);
    if 2 * max_match > headroom {
        headroom - headroom / 2
    } else {
        headroom - 2 * max_match
    }
}

/// The employer match on `salary` at `match_percentage`, bounded so that
/// the employer's share alone never exceeds half of the available headroom:
/// when the combined matched amount would overflow the headroom, the
/// headroom is split evenly instead.
pub fn rrsp_match(salary: i64, rrsp_contribution_headroom: i64, match_percentage: i64) -> (r: i64)
    requires
        0 <= salary <= MONEY_CAP,
        0 <= rrsp_contribution_headroom <= MONEY_CAP,
        0 <= match_percentage <= RATE_SCALE,
    ensures
        r == employer_rrsp_share(salary as int, rrsp_contribution_headroom as int, match_percentage as int),
        0 <= r,
        2 * r <= rrsp_contribution_headroom,
{
    let max_match: i64 = mul_rate(salary, match_percentage);
    if 2 * max_match > rrsp_contribution_headroom {
        ((rrsp_contribution_headroom as u64) / 2u64) as i64
    } else {
        max_match
    }
}

/// Split the available headroom into the personal and the employer share.
///
/// The employer share follows [`rrsp_match`]; in the even split forced by
/// an overflowing match the personal share takes the odd unit, so the two
/// shares always exhaust the headroom exactly.  Otherwise the employer
/// receives the full match and the personal share is the headroom less the
/// combined matched amount.
pub fn rrsp_contribution(rrsp_contribution_headroom: i64, salary: i64, match_percentage: i64) -> (r: (i64, i64))
    requires
        0 <= salary <= MONEY_CAP,
        0 <= rrsp_contribution_headroom <= MONEY_CAP,
        0 <= match_percentage <= RATE_SCALE,
    ensures
        r.0 == personal_rrsp_share(salary as int, rrsp_contribution_headroom as int, match_percentage as int),
        r.1 == employer_rrsp_share(salary as int, rrsp_contribution_headroom as int, match_percentage as int),
        0 <= r.0,
        0 <= r.1,
        r.0 + r.1 <= rrsp_contribution_headroom,
{
    let max_match: i64 = mul_rate(salary, match_percentage);
    if 2 * max_match > rrsp_contribution_headroom {
        let employer: i64 = ((rrsp_contribution_headroom as u64) / 2u64) as i64;
        (rrsp_contribution_headroom - employer, employer)
    } else {
        (rrsp_contribution_headroom - 2 * max_match, max_match)
    }
}

/// The tax-free contribution: discretionary income clamped into
/// `[0, tfsa_contribution_limit]`.
pub open spec fn tfsa_contribution_spec(c: Constants, net_income: int, cost_of_living: int) -> int {
    clamp0_spec(min_spec(c.tfsa_contribution_limit as int, net_income - cost_of_living))
}

/// The taxable-account contribution: whatever discretionary income remains
/// after the tax-free contribution, never negative and never capped.
pub open spec fn unregistered_contribution_spec(c: Constants, net_income: int, cost_of_living: int) -> int {
    clamp0_spec(net_income - cost_of_living - tfsa_contribution_spec(c, net_income, cost_of_living))
}

/// Discretionary income routed to the tax-free account, bounded by its cap.
/// A shortfall (cost of living above net income) contributes nothing.
pub fn tfsa_contribution(constants: &Constants, net_income: i64, cost_of_living: i64) -> (r: i64)
    requires
        constants_wf(*constants),
        -2 * MONEY_CAP <= net_income <= 2 * MONEY_CAP,
        0 <= cost_of_living <= MONEY_CAP,
    ensures
        r == tfsa_contribution_spec(*constants, net_income as int, cost_of_living as int),
        0 <= r <= constants.tfsa_contribution_limit,
{
    let discretionary: i64 = net_income - cost_of_living;
    let capped: i64 = if constants.tfsa_contribution_limit < discretionary {
        constants.tfsa_contribution_limit
    } else {
        discretionary
    };
    clamp0(capped)
}

/// Discretionary income left over after the tax-free contribution, routed
/// to the taxable account.  A shortfall contributes nothing.
pub fn unregistered_contribution(constants: &Constants, net_income: i64, cost_of_living: i64) -> (r: i64)
    requires
        constants_wf(*constants),
        -2 * MONEY_CAP <= net_income <= 2 * MONEY_CAP,
        0 <= cost_of_living <= MONEY_CAP,
    ensures
        r == unregistered_contribution_spec(*constants, net_income as int, cost_of_living as int),
        0 <= r,
        net_income <= MONEY_CAP ==> r <= MONEY_CAP,
{
    let tfsa: i64 = tfsa_contribution(constants, net_income, cost_of_living);
    clamp0(net_income - cost_of_living - tfsa)
}

/// The growth an asset earns in one period: the balance scaled by the
/// return factor, less the balance itself (negative for factors below 1).
pub open spec fn return_on_investment_spec(asset: int, rate_of_return: int) -> int {
    mul_rate_spec(asset, rate_of_return) - asset
}

/// One period's growth on `asset` at the fixed-point factor
/// `rate_of_return`.
pub fn return_on_investment(asset: i64, rate_of_return: i64) -> (r: i64)
    requires
        0 <= asset <= MONEY_CAP,
        0 <= rate_of_return <= RATE_CAP,
    ensures
        r == return_on_investment_spec(asset as int, rate_of_return as int),
        -asset <= r <= 99 * asset,
{
    mul_rate(asset, rate_of_return) - asset
}

/// The per-period fiscal snapshot.  `income` is the capped salary plus the
/// period's dividend income; the recorded contributions were computed from
/// the predecessor's headroom and reach the asset balances on the next
/// transition.  No snapshot is ever mutated: the successor is a new value.
#[derive(Debug)]
pub struct FiscalYear {
    pub salary: i64,
    pub income: i64,
    pub personal_rrsp_contribution: i64,
    pub employer_rrsp_contribution: i64,
    pub rrsp_assets: i64,
    pub tfsa_assets: i64,
    pub unregistered_assets: i64,
    pub cost_of_living: i64,
    pub retirement_cost_of_living: i64,
    pub elapsed_periods: u64,
    pub constants: Constants,
}

/// Arithmetic validity of a snapshot: every monetary field within
/// `[0, MONEY_CAP]` and valid constants.  In particular, asset balances
/// are never negative in a well-formed snapshot.
pub open spec fn year_wf(y: FiscalYear) -> bool {
    &&& 0 <= y.salary <= MONEY_CAP
    &&& 0 <= y.income <= MONEY_CAP
    &&& 0 <= y.personal_rrsp_contribution <= MONEY_CAP
    &&& 0 <= y.employer_rrsp_contribution <= MONEY_CAP
    &&& 0 <= y.rrsp_assets <= MONEY_CAP
    &&& 0 <= y.tfsa_assets <= MONEY_CAP
    &&& 0 <= y.unregistered_assets <= MONEY_CAP
    &&& 0 <= y.cost_of_living <= MONEY_CAP
    &&& 0 <= y.retirement_cost_of_living <= MONEY_CAP
    &&& constants_wf(y.constants)
}

/// Income less the personal tax-deferred contribution.
pub open spec fn taxable_income_of(y: FiscalYear) -> int {
    y.income - y.personal_rrsp_contribution
}

/// Net income of a snapshot: the taxable income less the progressive tax
/// on it, under the snapshot's own (already indexed) brackets.
pub open spec fn net_income_of(y: FiscalYear) -> int {
    net_income_spec(y.constants.tax_brackets@, taxable_income_of(y), 0)
}

/// The snapshot's tax-free contribution, derived from its own net income
/// and cost of living.
pub open spec fn tfsa_contribution_of(y: FiscalYear) -> int {
    tfsa_contribution_spec(y.constants, net_income_of(y), y.cost_of_living as int)
}

/// The snapshot's taxable-account contribution.
pub open spec fn unregistered_contribution_of(y: FiscalYear) -> int {
    unregistered_contribution_spec(y.constants, net_income_of(y), y.cost_of_living as int)
}

impl FiscalYear {
    /// Income less the personal tax-deferred contribution.
    pub fn taxable_income(&self) -> (r: i64)
        requires
            year_wf(*self),
        ensures
            r == taxable_income_of(*self),
    {
        self.income - self.personal_rrsp_contribution
    }

    /// Net income after progressive tax on the taxable income.
    pub fn net_income(&self) -> (r: i64)
        requires
            year_wf(*self),
        ensures
            r == net_income_of(*self),
            -2 * MONEY_CAP <= r <= MONEY_CAP,
    {
        let taxable: i64 = self.taxable_income();
        proof {
            lemma_tax_on_bounds(self.constants.tax_brackets@, taxable as int);
        }
        net_income(&self.constants.tax_brackets, taxable, 0)
    }

    /// Personal plus employer tax-deferred contribution.
    pub fn total_rrsp_contribution(&self) -> (r: i64)
        requires
            year_wf(*self),
        ensures
            r == y_total_rrsp(*self),
    {
        self.personal_rrsp_contribution + self.employer_rrsp_contribution
    }

    /// The sum of the three account balances.
    pub fn total_assets(&self) -> (r: i64)
        requires
            year_wf(*self),
        ensures
            r == y_total_assets(*self),
    {
        self.rrsp_assets + self.tfsa_assets + self.unregistered_assets
    }

    /// This snapshot's tax-free contribution.
    pub fn tfsa_contribution(&self) -> (r: i64)
        requires
            year_wf(*self),
        ensures
            r == tfsa_contribution_of(*self),
            0 <= r <= MONEY_CAP,
    {
        let net: i64 = self.net_income();
        tfsa_contribution(&self.constants, net, self.cost_of_living)
    }

    /// This snapshot's taxable-account contribution.
    pub fn unregistered_contribution(&self) -> (r: i64)
        requires
            year_wf(*self),
        ensures
            r == unregistered_contribution_of(*self),
            0 <= r <= MONEY_CAP,
    {
        let net: i64 = self.net_income();
        unregistered_contribution(&self.constants, net, self.cost_of_living)
    }

    /// The sum of every contribution this snapshot records.
    pub fn total_contribution(&self) -> (r: i64)
        requires
            year_wf(*self),
        ensures
            r == y_total_rrsp(*self) + tfsa_contribution_of(*self) + unregistered_contribution_of(*self),
    {
        let rrsp: i64 = self.total_rrsp_contribution();
        let tfsa: i64 = self.tfsa_contribution();
        let unregistered: i64 = self.unregistered_contribution();
        rrsp + tfsa + unregistered
    }
}

/// Personal plus employer tax-deferred contribution of a snapshot.
pub open spec fn y_total_rrsp(y: FiscalYear) -> int {
    y.personal_rrsp_contribution + y.employer_rrsp_contribution
}

/// The sum of the three account balances of a snapshot.
pub open spec fn y_total_assets(y: FiscalYear) -> int {
    y.rrsp_assets + y.tfsa_assets + y.unregistered_assets
}

/// This period's tax-deferred contribution headroom: the indexed cap or
/// 18% of income, whichever is smaller.
pub open spec fn headroom_of(y: FiscalYear) -> int {
    min_spec(
        y.constants.rrsp_contribution_upper_limit as int,
        mul_rate_spec(y.income as int, RRSP_CONTRIBUTION_PERCENTAGE as int),
    )
}

/// The contribution headroom the snapshot's successor may allocate.
pub fn rrsp_contribution_headroom(year: &FiscalYear) -> (r: i64)
    requires
        year_wf(*year),
    ensures
        r == headroom_of(*year),
        0 <= r <= MONEY_CAP,
{
    let by_income: i64 = mul_rate(year.income, RRSP_CONTRIBUTION_PERCENTAGE);
    if year.constants.rrsp_contribution_upper_limit < by_income {
        year.constants.rrsp_contribution_upper_limit
    } else {
        by_income
    }
}

} // verus!
