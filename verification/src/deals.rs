//! Timing rules of the synthetic deal generator.
//!
//! The generator draws a uniform entry-year offset within the investment
//! period and a normally distributed hold period; the draws themselves are
//! floating point and belong to the caller. The rules that turn the drawn
//! whole years into a deal's entry and exit year are exact integer logic and
//! are fixed here: entry is one year after the drawn offset, the hold period
//! is at least one year, and the exit year never passes the end of the fund
//! term.

use vstd::prelude::*;

verus! {

/// The hold period actually applied to a deal: the drawn value, raised to a
/// minimum of one year.
pub open spec fn spec_applied_hold_period(drawn: i32) -> int {
    if drawn < 1 {
        1
    } else {
        drawn as int
    }
}

/// The exit year of a deal: entry plus the applied hold period, capped at
/// the fund term.
pub open spec fn spec_exit_year(entry_year: int, drawn_hold: i32, fund_term_years: i32) -> int {
    if entry_year + spec_applied_hold_period(drawn_hold) > fund_term_years {
        fund_term_years as int
    } else {
        entry_year + spec_applied_hold_period(drawn_hold)
    }
}

/// The entry and exit year of one deal, from the drawn whole-year values.
///
/// `entry_offset` is the floor of the uniform draw over the investment
/// period, `drawn_hold` the floor of the normal hold-period draw, and the
/// result is `(entry_year, exit_year)` with `entry_year = 1 + entry_offset`,
/// a hold of at least one year, and the exit capped at `fund_term_years`.
pub fn deal_years(entry_offset: i32, drawn_hold: i32, fund_term_years: i32) -> (r: (i32, i32))
    requires
        entry_offset < i32::MAX,
    ensures
        r.0 == entry_offset + 1,
        r.1 == spec_exit_year(r.0 as int, drawn_hold, fund_term_years),
{
    let entry_year: i32 = entry_offset + 1;
    let hold: i32 = if drawn_hold < 1 {
        1
    } else {
        drawn_hold
    };
    let uncapped: i64 = entry_year as i64 + hold as i64;
    let exit_year: i32 = if uncapped > fund_term_years as i64 {
        fund_term_years
    } else {
        uncapped as i32
    };
    (entry_year, exit_year)
}

/// The yearly bucket a deal flow lands in, if any: the year itself when it
/// lies within the series of `bucket_count` buckets, nothing otherwise. A
/// deal whose entry or exit falls outside the series contributes no flow.
pub fn flow_bucket(year: i32, bucket_count: usize) -> (r: Option<usize>)
    ensures
        r is Some <==> 0 <= year < bucket_count,
        r matches Some(b) ==> b == year,
{
    if 0 <= year && (year as usize) < bucket_count {
        Some(year as usize)
    } else {
        None
    }
}

} // verus!
