//! Tests of the tax calculator, the inflation indexer and the
//! contribution-allocation engine.

use firesim::accounting::{
    Constants, TaxBracket, net_income, return_on_investment, rrsp_contribution, rrsp_match,
    tfsa_contribution, unregistered_contribution,
};
use firesim::money::index;

fn bracket(lower: i64, upper: i64, rate: i64) -> TaxBracket {
    TaxBracket::new(lower, upper, rate)
}

#[test]
fn bracket_tax_middle_of_bracket() {
    // portion 30_000 - 15_728 = 14_272, at 15%: 2_140.8, floored.
    let b = bracket(15_728, 45_105, 1_500);
    assert_eq!(b.compute_tax(30_000), 2_140);
}

#[test]
fn bracket_tax_below_bracket_is_zero() {
    let b = bracket(15_728, 45_105, 1_500);
    assert_eq!(b.compute_tax(10_000), 0);
    assert_eq!(b.compute_tax(15_728), 0);
}

#[test]
fn bracket_tax_negative_income_is_zero() {
    let b = bracket(0, 45_105, 1_500);
    assert_eq!(b.compute_tax(-5_000), 0);
    assert_eq!(b.compute_tax(0), 0);
}

#[test]
fn bracket_tax_caps_at_upper_bound() {
    // portion 45_105 - 15_728 = 29_377, at 15%: 4_406.55, floored.
    let b = bracket(15_728, 45_105, 1_500);
    assert_eq!(b.compute_tax(1_000_000), 4_406);
}

#[test]
fn bracket_tax_is_monotonic_in_income() {
    let b = bracket(15_728, 45_105, 1_500);
    let mut last = 0;
    for income in [0, 10_000, 15_728, 20_000, 30_000, 45_105, 60_000] {
        let t = b.compute_tax(income);
        assert!(t >= last);
        last = t;
    }
}

#[test]
fn bracket_adjust_for_inflation_scales_bounds_only() {
    let b = bracket(10_000, 50_000, 1_500).adjust_for_inflation(10_200);
    assert_eq!(b.lower_bound, 10_200);
    assert_eq!(b.upper_bound, 51_000);
    assert_eq!(b.rate, 1_500);
}

#[test]
fn index_zero_periods_is_identity() {
    assert_eq!(index(75_000, 10_200, 0), 75_000);
    assert_eq!(index(0, 10_200, 0), 0);
    assert_eq!(index(123, 0, 0), 123);
    assert_eq!(index(1_000_000_000_000, 999_999, 0), 1_000_000_000_000);
}

#[test]
fn index_compounds_one_period_at_a_time() {
    assert_eq!(index(1_000, 10_200, 1), 1_020);
    assert_eq!(index(1_000, 10_200, 2), 1_040); // 1_020 * 1.02 floored
    assert_eq!(index(26_500, 10_200, 1), 27_030);
}

#[test]
fn net_income_without_brackets_is_income_plus_gains() {
    let no_brackets: Vec<TaxBracket> = Vec::new();
    assert_eq!(net_income(&no_brackets, 50_000, 10_000), 60_000);
    assert_eq!(net_income(&no_brackets, -3_000, 0), -3_000);
}

#[test]
fn net_income_halves_gains_in_the_taxable_base() {
    // base = 0 + 20_000 / 2 = 10_000, taxed at 10% over a single bracket
    // from zero: tax 1_000; result 0 + 20_000 - 1_000.
    let brackets = vec![bracket(0, 1_000_000, 1_000)];
    assert_eq!(net_income(&brackets, 0, 20_000), 19_000);
}

#[test]
fn rrsp_match_within_headroom_is_full_match() {
    // match 5% of 100_000 = 5_000; combined 10_000 fits headroom 10_000.
    assert_eq!(rrsp_match(100_000, 10_000, 500), 5_000);
}

#[test]
fn rrsp_match_overflowing_headroom_splits_evenly() {
    assert_eq!(rrsp_match(100_000, 9_999, 500), 4_999);
}

#[test]
fn rrsp_contribution_within_headroom() {
    // employer gets the match, the personal share is the headroom less the
    // combined matched amount.
    assert_eq!(rrsp_contribution(10_000, 100_000, 400), (2_000, 4_000));
}

#[test]
fn rrsp_contribution_overflow_splits_headroom_exactly() {
    // combined match 10_000 exceeds headroom 9_999: even split, the
    // personal share takes the odd unit, and the sum is the headroom.
    let (personal, employer) = rrsp_contribution(9_999, 100_000, 500);
    assert_eq!(employer, 4_999);
    assert_eq!(personal, 5_000);
    assert_eq!(personal + employer, 9_999);
    let (personal, employer) = rrsp_contribution(10_000, 100_000, 501);
    assert_eq!(personal, 5_000);
    assert_eq!(employer, 5_000);
    assert_eq!(personal + employer, 10_000);
}

#[test]
fn rrsp_contribution_without_match_takes_whole_headroom() {
    assert_eq!(rrsp_contribution(13_500, 78_750, 0), (13_500, 0));
}

#[test]
fn tfsa_contribution_is_capped_by_the_limit() {
    let constants = Constants::new(Vec::new());
    assert_eq!(tfsa_contribution(&constants, 75_000, 20_000), 6_000);
}

#[test]
fn tfsa_contribution_takes_small_surpluses_whole() {
    let constants = Constants::new(Vec::new());
    assert_eq!(tfsa_contribution(&constants, 21_500, 20_000), 1_500);
}

#[test]
fn negative_discretionary_income_contributes_nothing() {
    let constants = Constants::new(Vec::new());
    assert_eq!(tfsa_contribution(&constants, 15_000, 20_000), 0);
    assert_eq!(unregistered_contribution(&constants, 15_000, 20_000), 0);
}

#[test]
fn unregistered_contribution_absorbs_the_remainder() {
    let constants = Constants::new(Vec::new());
    assert_eq!(unregistered_contribution(&constants, 75_000, 20_000), 49_000);
}

#[test]
fn constants_new_uses_nominal_caps() {
    let constants = Constants::new(Vec::new());
    assert_eq!(constants.tfsa_contribution_limit, 6_000);
    assert_eq!(constants.rrsp_contribution_upper_limit, 26_500);
}

#[test]
fn constants_adjust_for_inflation_scales_caps_and_brackets() {
    let constants = Constants::new(vec![bracket(0, 10_000, 1_500)]);
    let adjusted = constants.adjust_for_inflation(10_200);
    assert_eq!(adjusted.tfsa_contribution_limit, 6_120);
    assert_eq!(adjusted.rrsp_contribution_upper_limit, 27_030);
    assert_eq!(adjusted.tax_brackets[0].upper_bound, 10_200);
    assert_eq!(adjusted.tax_brackets[0].rate, 1_500);
}

#[test]
fn return_on_investment_is_the_growth_alone() {
    assert_eq!(return_on_investment(10_000, 10_800), 800);
    assert_eq!(return_on_investment(10_000, 10_000), 0);
    assert_eq!(return_on_investment(10_000, 9_000), -1_000);
    assert_eq!(return_on_investment(0, 10_800), 0);
}
