//! Tests of the compounding growth model and the fixed-point root
//! extraction.

use firesim::growth::{grow_annual, grow_sub_annual, growth_model, nth_root};

/// Reference fixed-point power: `x^n` in scale-10_000 units, flooring at
/// every step, exactly as the library defines it.
fn pow_fixed(x: i64, n: u32) -> i64 {
    let mut acc: i64 = 10_000;
    for _ in 0..n {
        acc = acc * x / 10_000;
    }
    acc
}

#[test]
fn nth_root_with_one_period_is_the_radicand() {
    assert_eq!(nth_root(1, 10_800), Ok(10_800));
    assert_eq!(nth_root(1, 0), Ok(0));
    assert_eq!(nth_root(1, 1_000_000), Ok(1_000_000));
}

#[test]
fn nth_root_square_root_exact() {
    // 20_000 stands for 2.0, and 2.0^2 is 4.0.
    assert_eq!(nth_root(2, 40_000), Ok(20_000));
}

#[test]
fn nth_root_of_an_annual_return() {
    // sqrt(1.08) is about 1.0392.
    assert_eq!(nth_root(2, 10_800), Ok(10_392));
}

#[test]
fn nth_root_is_the_floor_root() {
    for (n, num) in [(2u32, 10_800i64), (4, 10_800), (12, 10_800), (24, 10_800), (24, 9_000), (3, 500)] {
        let root = nth_root(n, num).unwrap();
        assert!(pow_fixed(root, n) <= num, "root too big for {n} {num}");
        assert!(pow_fixed(root + 1, n) > num, "root too small for {n} {num}");
    }
}

#[test]
fn grow_annual_adds_growth_and_contribution() {
    assert_eq!(grow_annual(10_000, 10_800, 500), 11_300);
    assert_eq!(grow_annual(0, 10_800, 6_000), 6_000);
    // a loss year shrinks the balance but never below the contribution
    assert_eq!(grow_annual(10_000, 9_000, 0), 9_000);
}

#[test]
fn grow_sub_annual_two_periods_exact() {
    // root of 1.08 is 1.0392; 1_000_000 grows to 1_039_200 and then to
    // 1_079_936 (floored), with no contributions.
    assert_eq!(grow_sub_annual(1_000_000, 10_800, 0, 2), Ok(1_079_936));
}

#[test]
fn grow_sub_annual_spreads_the_contribution() {
    // zero growth: 24 periods of 1_000 each.
    assert_eq!(grow_sub_annual(0, 10_000, 24_000, 24), Ok(24_000));
}

#[test]
fn growth_model_single_period_equals_annual_growth() {
    // growth_model(balance, rate, 1) is balance * (rate - 1) exactly.
    assert_eq!(growth_model(10_000, 10_800, 1), Ok(800));
    assert_eq!(growth_model(0, 10_800, 1), Ok(0));
    assert_eq!(growth_model(123_456, 9_000, 1), Ok(-12_346));
    assert_eq!(growth_model(123_456, 10_000, 1), Ok(0));
}

#[test]
fn growth_model_sub_annual_stays_near_the_annual_figure() {
    // splitting the year approximates the same annual factor; the floored
    // per-period root loses at most a fraction of a scale unit per period.
    let annual = growth_model(1_000_000, 10_800, 1).unwrap();
    let monthly = growth_model(1_000_000, 10_800, 12).unwrap();
    let biweekly = growth_model(1_000_000, 10_800, 24).unwrap();
    assert_eq!(annual, 80_000);
    assert!((annual - monthly).abs() <= 1_200);
    assert!((annual - biweekly).abs() <= 2_400);
}
