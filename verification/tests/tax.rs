//! Tests of the built-in provincial and federal tax tables.

use firesim::tax::{compute_federal, compute_net_income, compute_provincial};

#[test]
fn no_tax_at_or_below_zero() {
    assert_eq!(compute_net_income(0, 0), 0);
    assert_eq!(compute_net_income(-1_000, 0), -1_000);
}

#[test]
fn no_tax_inside_the_zero_rate_brackets() {
    // both tables' first brackets carry a zero rate; only the federal
    // table taxes anything below the provincial threshold
    assert_eq!(compute_provincial(13_000, 0), 0);
    assert_eq!(compute_federal(13_000, 0), 0);
    assert_eq!(compute_net_income(13_000, 0), 13_000);
}

#[test]
fn net_income_at_the_provincial_threshold() {
    // provincial: nothing below 15_728; federal: 15% on 15_728 - 13_808
    assert_eq!(compute_provincial(15_728, 0), 0);
    assert_eq!(compute_federal(15_728, 0), 288);
    assert_eq!(compute_net_income(15_728, 0), 15_440);
}

#[test]
fn net_income_at_one_hundred_thousand() {
    // provincial: 4_406 + 9_019 + 2_352; federal: 5_281 + 10_049 + 509
    assert_eq!(compute_provincial(100_000, 0), 15_777);
    assert_eq!(compute_federal(100_000, 0), 15_839);
    assert_eq!(compute_net_income(100_000, 0), 68_384);
}

#[test]
fn elapsed_years_index_the_brackets() {
    // after one period of 2% inflation every bound is 2% higher (floored),
    // so the same nominal income owes a little less tax
    assert_eq!(compute_provincial(50_000, 1), 5_292);
    assert_eq!(compute_federal(50_000, 1), 5_387);
    assert_eq!(compute_net_income(50_000, 1), 39_321);
}

#[test]
fn tax_is_monotonic_in_income() {
    let mut last = i64::MIN;
    for income in [0, 10_000, 15_000, 15_728, 30_000, 45_105, 90_200, 150_000, 999_999] {
        let tax = compute_provincial(income, 0) + compute_federal(income, 0);
        assert!(tax >= last);
        last = tax;
    }
}
