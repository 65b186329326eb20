//! A verified personal-finance projection engine.
//!
//! The library projects income, taxes, savings contributions and compounding
//! asset growth one fiscal period at a time.  All monetary amounts are
//! integers in whatever currency unit the caller chooses; rates are
//! fixed-point factors scaled by `money::RATE_SCALE`.  Every arithmetic step
//! is exact integer arithmetic with a documented rounding rule (division
//! floors; amounts saturate at `money::MONEY_CAP`), so the whole projection
//! is deterministic and fully specified.

use vstd::prelude::*;

pub mod accounting;
pub mod growth;
pub mod money;
pub mod simulation;
pub mod tax;

verus! {

/// The yearly inflation factor the built-in bracket tables are indexed
/// by: 2%, in fixed-point `money::RATE_SCALE` units.
pub const INFLATION_RATE: i64 = 10_200;

/// The ways a projection can fail.
///
/// Arithmetic inside the engine saturates rather than overflows, so errors
/// arise only at the edges: a malformed configuration is rejected before a
/// simulation starts, and the sub-annual root extraction signals failure if
/// its iteration cap is exhausted before the iteration settles.
#[derive(Clone, Copy, Debug, PartialEq, Eq, Structural)]
pub enum Error {
    /// The supplied configuration is invalid (out-of-range amounts or a
    /// malformed tax-bracket table).
    ConfigurationError,
    /// An iterative numeric computation failed to converge within its cap.
    ArithmeticError,
}

} // verus!
