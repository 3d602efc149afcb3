//! Tax-shield rules of the projection engine.
//!
//! The projection's tax step is floating-point arithmetic and lives with the
//! caller; the whole-year divisor of the basis step-up deduction and the
//! capping discipline of the net-operating-loss carryforward are fixed here.

use vstd::prelude::*;
use vstd::math::min;

verus! {

/// The divisor of the basis step-up deduction: the configured depreciation
/// period, raised to a floor of one year.
pub fn effective_depreciation_years(configured: i32) -> (r: i32)
    ensures
        r == if configured < 1 {
            1int
        } else {
            configured as int
        },
{
    if configured < 1 {
        1
    } else {
        configured
    }
}

/// The net-operating-loss balance never goes negative and decreases only by
/// the amount actually used: the usage taken in a year is the smallest of
/// the remaining balance, the annual-limit share, and the positive taxable
/// income, so both the new balance and the income left after the offset
/// stay non-negative, and the balance never falls by more than the usage.
pub proof fn lemma_nol_usage_bounds(balance: int, limit_share: int, positive_income: int)
    requires
        0 <= balance,
        0 <= limit_share,
        0 <= positive_income,
    ensures
        0 <= min(min(balance, limit_share), positive_income),
        0 <= balance - min(min(balance, limit_share), positive_income) <= balance,
        0 <= positive_income - min(min(balance, limit_share), positive_income),
{
}

} // verus!
