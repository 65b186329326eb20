//! Tests of the fiscal state machine: the end-to-end scenario, validation,
//! determinism, and the derived metrics.

use firesim::accounting::{FiscalYear, TaxBracket, rrsp_contribution_headroom};
use firesim::simulation::{
    Config, InitialValues, Rates, Simulation, default_salary_cap, default_withdraw_rate,
};
use firesim::Error;

fn base_config() -> Config {
    Config {
        rates: Rates {
            inflation: 10_200,
            salary_growth: 10_500,
            return_on_investment: 10_800,
            employer_rrsp_match: 0,
            salary_cap: default_salary_cap(),
            withdraw_rate: default_withdraw_rate(),
        },
        initial_values: InitialValues {
            salary: 75_000,
            cost_of_living: 20_000,
            retirement_cost_of_living: 25_000,
            rrsp_contribution_headroom: 0,
            rrsp_assets: 0,
            tfsa_assets: 0,
            unregistered_assets: 0,
        },
        provincial_tax_brackets: Vec::new(),
        federal_tax_brackets: Vec::new(),
    }
}

fn year_fields(y: &FiscalYear) -> Vec<i64> {
    vec![
        y.salary,
        y.income,
        y.personal_rrsp_contribution,
        y.employer_rrsp_contribution,
        y.rrsp_assets,
        y.tfsa_assets,
        y.unregistered_assets,
        y.cost_of_living,
        y.retirement_cost_of_living,
        y.elapsed_periods as i64,
        y.constants.tfsa_contribution_limit,
        y.constants.rrsp_contribution_upper_limit,
    ]
}

#[test]
fn defaults_match_the_documented_values() {
    assert_eq!(default_salary_cap(), 999_999);
    assert_eq!(default_withdraw_rate(), 400);
}

#[test]
fn end_to_end_scenario_without_tax_brackets() {
    let config = base_config();
    let mut sim = Simulation::new(&config).unwrap();

    let step0 = sim.next();
    let year0 = &step0.fiscal_year;
    assert_eq!(year0.income, 75_000);
    assert_eq!(year0.elapsed_periods, 0);
    // with no brackets there is no tax: net income equals taxable income
    assert_eq!(year0.taxable_income(), 75_000);
    assert_eq!(year0.net_income(), year0.taxable_income());
    // no period-zero headroom was supplied, so no deferred contribution
    assert_eq!(year0.personal_rrsp_contribution, 0);
    assert_eq!(year0.employer_rrsp_contribution, 0);
    // balances come straight from the configuration
    assert_eq!(year0.total_assets(), 0);
    // the waterfall: 75_000 - 20_000 leaves 55_000; the tax-free account
    // takes its 6_000 cap and the taxable account the 49_000 remainder
    assert_eq!(year0.tfsa_contribution(), 6_000);
    assert_eq!(year0.unregistered_contribution(), 49_000);
    let contributions0 = year0.total_contribution();
    assert_eq!(contributions0, 55_000);

    let step1 = sim.next();
    let year1 = &step1.fiscal_year;
    // total assets after one period: period-zero contributions plus one
    // period's growth on the (zero) period-zero balances
    assert_eq!(year1.total_assets(), contributions0);
    assert_eq!(year1.rrsp_assets, 0);
    assert_eq!(year1.tfsa_assets, 6_000);
    assert_eq!(year1.unregistered_assets, 49_000);
    // salary grew 5%; headroom is 18% of the previous income
    assert_eq!(year1.salary, 78_750);
    assert_eq!(year1.income, 78_750);
    assert_eq!(year1.personal_rrsp_contribution, 13_500);
    assert_eq!(year1.cost_of_living, 20_400);
    assert_eq!(year1.retirement_cost_of_living, 25_500);
    assert_eq!(year1.constants.tfsa_contribution_limit, 6_120);
    assert_eq!(year1.constants.rrsp_contribution_upper_limit, 27_030);
    assert_eq!(year1.elapsed_periods, 1);

    let step2 = sim.next();
    let year2 = &step2.fiscal_year;
    // the taxable balance pays a dividend: 25% of the 8% return on 49_000
    assert_eq!(year2.salary, 82_687);
    assert_eq!(year2.income, 82_687 + 980);
    // balances compound and absorb the previous period's contributions;
    // the taxable account retains only the non-dividend share of growth
    assert_eq!(year2.rrsp_assets, 13_500);
    assert_eq!(year2.tfsa_assets, 6_480 + 6_120);
    assert_eq!(year2.unregistered_assets, 51_940 + 38_730);
    assert_eq!(year2.elapsed_periods, 2);
}

#[test]
fn starting_balances_grow_and_pay_dividends() {
    let mut config = base_config();
    config.initial_values.rrsp_assets = 10_000;
    config.initial_values.tfsa_assets = 5_000;
    config.initial_values.unregistered_assets = 20_000;
    let mut sim = Simulation::new(&config).unwrap();

    let year0 = sim.next().fiscal_year;
    assert_eq!(year0.total_assets(), 35_000);
    let contributions0 = year0.total_contribution();
    assert_eq!(contributions0, 55_000);

    let year1 = sim.next().fiscal_year;
    // each balance compounds at 8%, except the taxable account, which
    // pays out a quarter of its return (2% of 20_000) as dividend income
    assert_eq!(year1.rrsp_assets, 10_800);
    assert_eq!(year1.tfsa_assets, 5_400 + 6_000);
    assert_eq!(year1.unregistered_assets, 21_200 + 49_000);
    assert_eq!(year1.income, 78_750 + 400);
    // total assets: period-zero contributions plus the grown balances
    assert_eq!(year1.total_assets(), contributions0 + 35_000 + 800 + 400 + 1_200);
}

#[test]
fn simulation_is_deterministic_over_a_hundred_periods() {
    let config = base_config();
    let mut first_run: Vec<Vec<i64>> = Vec::new();
    let mut second_run: Vec<Vec<i64>> = Vec::new();
    let mut sim1 = Simulation::new(&config).unwrap();
    for _ in 0..100 {
        first_run.push(year_fields(&sim1.next().fiscal_year));
    }
    let mut sim2 = Simulation::new(&config).unwrap();
    for _ in 0..100 {
        second_run.push(year_fields(&sim2.next().fiscal_year));
    }
    assert_eq!(first_run, second_run);
}

#[test]
fn balances_stay_non_negative_for_many_periods() {
    let mut config = base_config();
    // a harsh scenario: shrinking salary, a losing market, high inflation
    config.rates.salary_growth = 9_500;
    config.rates.return_on_investment = 9_000;
    config.rates.inflation = 10_800;
    let mut sim = Simulation::new(&config).unwrap();
    for _ in 0..200 {
        let step = sim.next();
        assert!(step.fiscal_year.rrsp_assets >= 0);
        assert!(step.fiscal_year.tfsa_assets >= 0);
        assert!(step.fiscal_year.unregistered_assets >= 0);
    }
}

#[test]
fn malformed_bracket_table_is_rejected() {
    // a gap between 10_000 and 12_000
    let mut config = base_config();
    config.provincial_tax_brackets = vec![
        TaxBracket::new(0, 10_000, 0),
        TaxBracket::new(12_000, 50_000, 1_500),
    ];
    assert_eq!(Simulation::new(&config).err(), Some(Error::ConfigurationError));
}

#[test]
fn non_monotonic_bracket_is_rejected() {
    let mut config = base_config();
    config.federal_tax_brackets = vec![TaxBracket::new(10_000, 10_000, 1_500)];
    assert_eq!(Simulation::new(&config).err(), Some(Error::ConfigurationError));
}

#[test]
fn table_not_starting_at_zero_is_rejected() {
    let mut config = base_config();
    config.federal_tax_brackets = vec![TaxBracket::new(5_000, 10_000, 1_500)];
    assert_eq!(Simulation::new(&config).err(), Some(Error::ConfigurationError));
}

#[test]
fn out_of_range_rate_is_rejected() {
    let mut config = base_config();
    config.rates.inflation = -1;
    assert_eq!(Simulation::new(&config).err(), Some(Error::ConfigurationError));
    let mut config = base_config();
    config.initial_values.salary = -5;
    assert_eq!(Simulation::new(&config).err(), Some(Error::ConfigurationError));
}

#[test]
fn valid_tables_are_accepted_and_taxed() {
    let mut config = base_config();
    config.provincial_tax_brackets = vec![
        TaxBracket::new(0, 15_728, 0),
        TaxBracket::new(15_728, 45_105, 1_500),
        TaxBracket::new(45_105, 999_999, 2_000),
    ];
    let mut sim = Simulation::new(&config).unwrap();
    let step0 = sim.next();
    // taxable 75_000: 15% on 29_377 (4_406.55 floored) and 20% on 29_895
    assert_eq!(step0.fiscal_year.net_income(), 75_000 - 4_406 - 5_979);
}

#[test]
fn headroom_is_the_smaller_of_cap_and_income_share() {
    let config = base_config();
    let mut sim = Simulation::new(&config).unwrap();
    let step0 = sim.next();
    // 18% of 75_000 is 13_500, below the 26_500 cap
    assert_eq!(rrsp_contribution_headroom(&step0.fiscal_year), 13_500);
}

#[test]
fn passive_income_draws_each_account_at_the_withdraw_rate() {
    let config = base_config();
    let mut sim = Simulation::new(&config).unwrap();
    let step0 = sim.next();
    assert_eq!(step0.passive_income(), 0);
    let step1 = sim.next();
    // 4% of the 6_000 tax-free balance plus the untaxed 4% draw on the
    // 49_000 taxable balance (no brackets, so no tax)
    assert_eq!(step1.passive_income(), 240 + 1_960);
}

#[test]
fn savings_goal_scales_the_retirement_cost_by_the_withdraw_rate() {
    let config = base_config();
    let mut sim = Simulation::new(&config).unwrap();
    let step0 = sim.next();
    assert_eq!(step0.savings_goal(), 625_000);
    let step1 = sim.next();
    // indexed by one period of inflation: 25_500 / 0.04
    assert_eq!(step1.savings_goal(), 637_500);
}

#[test]
fn salary_is_capped_by_the_salary_cap() {
    let mut config = base_config();
    config.rates.salary_cap = 76_000;
    let mut sim = Simulation::new(&config).unwrap();
    let step0 = sim.next();
    assert_eq!(step0.fiscal_year.salary, 75_000);
    let step1 = sim.next();
    assert_eq!(step1.fiscal_year.salary, 76_000);
    let step2 = sim.next();
    assert_eq!(step2.fiscal_year.salary, 76_000);
}

#[test]
fn supplied_period_zero_headroom_is_allocated() {
    let mut config = base_config();
    config.initial_values.rrsp_contribution_headroom = 10_000;
    config.rates.employer_rrsp_match = 300;
    let mut sim = Simulation::new(&config).unwrap();
    let year0 = sim.next().fiscal_year;
    // match 3% of 75_000 = 2_250; combined 4_500 fits the headroom
    assert_eq!(year0.employer_rrsp_contribution, 2_250);
    assert_eq!(year0.personal_rrsp_contribution, 10_000 - 4_500);
    assert_eq!(year0.total_rrsp_contribution(), 7_750);
}
