//! Net income under built-in provincial and federal bracket tables,
//! indexed for elapsed periods of inflation at [`crate::INFLATION_RATE`].

use vstd::prelude::*;

verus! {

use crate::INFLATION_RATE;
use crate::money::{
    index_spec, index, lemma_index_monotonic, MONEY_CAP, RATE_SCALE,
};
use crate::accounting::{
    TaxBracket, bracket_ok, brackets_ok, tax_on, compute_table_tax,
};

/// A bracket with both bounds indexed by `periods` periods of inflation at
/// `rate`, the tax rate unchanged.
pub open spec fn bracket_indexed(b: TaxBracket, rate: int, periods: nat) -> TaxBracket {
    TaxBracket {
        lower_bound: index_spec(b.lower_bound as int, rate, periods) as i64,
        upper_bound: index_spec(b.upper_bound as int, rate, periods) as i64,
        rate: b.rate,
    }
}

/// Total tax on `income` under a table indexed for `periods` periods of
/// inflation.
pub open spec fn taxes_indexed(brackets: Seq<TaxBracket>, income: int, periods: nat) -> int {
    tax_on(
        brackets.map(|i: int, b: TaxBracket| bracket_indexed(b, INFLATION_RATE as int, periods)),
        income,
    )
}

/// The built-in provincial bracket table, nominal.
pub open spec fn provincial_base_brackets() -> Seq<TaxBracket> {
    seq![
        TaxBracket { lower_bound: 0, upper_bound: 15_728, rate: 0 },
        TaxBracket { lower_bound: 15_728, upper_bound: 45_105, rate: 1_500 },
        TaxBracket { lower_bound: 45_105, upper_bound: 90_200, rate: 2_000 },
        TaxBracket { lower_bound: 90_200, upper_bound: 109_755, rate: 2_400 },
        TaxBracket { lower_bound: 109_755, upper_bound: 999_999, rate: 2_575 },
    ]
}

/// The built-in federal bracket table, nominal.
pub open spec fn federal_base_brackets() -> Seq<TaxBracket> {
    seq![
        TaxBracket { lower_bound: 0, upper_bound: 13_808, rate: 0 },
        TaxBracket { lower_bound: 13_808, upper_bound: 49_020, rate: 1_500 },
        TaxBracket { lower_bound: 49_020, upper_bound: 98_040, rate: 2_050 },
        TaxBracket { lower_bound: 98_040, upper_bound: 151_978, rate: 2_600 },
        TaxBracket { lower_bound: 151_978, upper_bound: 216_511, rate: 2_975 },
        TaxBracket { lower_bound: 216_511, upper_bound: 999_999, rate: 3_300 },
    ]
}

/// Index every bracket of a table for `elapsed_years` periods of inflation
/// and sum the tax owed on `income` across the indexed table.
fn compute_taxes(income: i64, elapsed_years: u32, base_brackets: &Vec<TaxBracket>) -> (r: i64)
    requires
        brackets_ok(base_brackets@),
    ensures
        r == taxes_indexed(base_brackets@, income as int, elapsed_years as nat),
        0 <= r <= MONEY_CAP,
{
    let mut adjusted: Vec<TaxBracket> = Vec::new();
    let mut i: usize = 0;
    while i < base_brackets.len()
        invariant
            0 <= i <= base_brackets@.len(),
            brackets_ok(base_brackets@),
            adjusted@.len() == i,
            forall|j: int| 0 <= j < i ==> #[trigger] adjusted@[j]
                == bracket_indexed(base_brackets@[j], INFLATION_RATE as int, elapsed_years as nat),
            forall|j: int| 0 <= j < i ==> bracket_ok(#[trigger] adjusted@[j]),
        decreases base_brackets@.len() - i,
    {
        let b: TaxBracket = base_brackets[i];
        proof {
            assert(bracket_ok(base_brackets@[i as int]));
            lemma_index_monotonic(b.lower_bound as int, b.upper_bound as int, INFLATION_RATE as int, elapsed_years as nat);
        }
        let lower: i64 = index(b.lower_bound, INFLATION_RATE, elapsed_years);
        let upper: i64 = index(b.upper_bound, INFLATION_RATE, elapsed_years);
        adjusted.push(TaxBracket { lower_bound: lower, upper_bound: upper, rate: b.rate });
        i = i + 1;
    }
    proof {
        assert(adjusted@ =~= base_brackets@.map(
            |j: int, b: TaxBracket| bracket_indexed(b, INFLATION_RATE as int, elapsed_years as nat),
        ));
    }
    compute_table_tax(&adjusted, income)
}

/// Provincial tax on `income`, under the built-in table indexed for
/// `elapsed_years` periods of inflation.
pub fn compute_provincial(income: i64, elapsed_years: u32) -> (r: i64)
    ensures
        r == taxes_indexed(provincial_base_brackets(), income as int, elapsed_years as nat),
        0 <= r <= MONEY_CAP,
{
    let mut base: Vec<TaxBracket> = Vec::new();
    base.push(TaxBracket { lower_bound: 0, upper_bound: 15_728, rate: 0 });
    base.push(TaxBracket { lower_bound: 15_728, upper_bound: 45_105, rate: 1_500 });
    base.push(TaxBracket { lower_bound: 45_105, upper_bound: 90_200, rate: 2_000 });
    base.push(TaxBracket { lower_bound: 90_200, upper_bound: 109_755, rate: 2_400 });
    base.push(TaxBracket { lower_bound: 109_755, upper_bound: 999_999, rate: 2_575 });
    proof {
        assert(base@ =~= provincial_base_brackets());
    }
    compute_taxes(income, elapsed_years, &base)
}

/// Federal tax on `income`, under the built-in table indexed for
/// `elapsed_years` periods of inflation.
pub fn compute_federal(income: i64, elapsed_years: u32) -> (r: i64)
    ensures
        r == taxes_indexed(federal_base_brackets(), income as int, elapsed_years as nat),
        0 <= r <= MONEY_CAP,
{
    let mut base: Vec<TaxBracket> = Vec::new();
    base.push(TaxBracket { lower_bound: 0, upper_bound: 13_808, rate: 0 });
    base.push(TaxBracket { lower_bound: 13_808, upper_bound: 49_020, rate: 1_500 });
    base.push(TaxBracket { lower_bound: 49_020, upper_bound: 98_040, rate: 2_050 });
    base.push(TaxBracket { lower_bound: 98_040, upper_bound: 151_978, rate: 2_600 });
    base.push(TaxBracket { lower_bound: 151_978, upper_bound: 216_511, rate: 2_975 });
    base.push(TaxBracket { lower_bound: 216_511, upper_bound: 999_999, rate: 3_300 });
    proof {
        assert(base@ =~= federal_base_brackets());
    }
    compute_taxes(income, elapsed_years, &base)
}

/// Income less both built-in progressive taxes, each indexed for
/// `elapsed_years` periods of inflation.
pub fn compute_net_income(income: i64, elapsed_years: u32) -> (r: i64)
    requires
        -MONEY_CAP <= income <= MONEY_CAP,
    ensures
        r == income - taxes_indexed(provincial_base_brackets(), income as int, elapsed_years as nat)
            - taxes_indexed(federal_base_brackets(), income as int, elapsed_years as nat),
{
    let provincial: i64 = compute_provincial(income, elapsed_years);
    let federal: i64 = compute_federal(income, elapsed_years);
    income - provincial - federal
}

} // verus!
