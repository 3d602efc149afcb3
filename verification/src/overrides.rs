//! Recognition of sensitivity-override variable names.
//!
//! The sensitivity evaluator perturbs two input fields chosen by name. The
//! set of recognized names is closed and fixed here; each maps to one field
//! of the input. A name outside the set addresses no field and the override
//! is a no-op — by design the evaluator ignores it rather than rejecting
//! the request.

use vstd::prelude::*;

verus! {

/// The input field an override variable addresses.
#[derive(Clone, Copy, Debug, PartialEq, Eq, Structural)]
pub enum OverrideField {
    EntryMultiple,
    ExitMultiple,
    Leverage,
    RevenueGrowth,
    EbitdaMargin,
    Revenue,
    Unknown,
}

/// The field addressed by each recognized variable name; every other name
/// is `Unknown`.
pub open spec fn spec_override_field(name: Seq<char>) -> OverrideField {
    if name == "entry_multiple"@ || name == "entry_ev_ebitda_multiple"@ {
        OverrideField::EntryMultiple
    } else if name == "exit_multiple"@ || name == "exit_ev_ebitda_multiple"@ {
        OverrideField::ExitMultiple
    } else if name == "leverage"@ || name == "total_leverage_ratio"@ {
        OverrideField::Leverage
    } else if name == "revenue_growth"@ || name == "revenue_growth_rate"@ {
        OverrideField::RevenueGrowth
    } else if name == "ebitda_margin"@ {
        OverrideField::EbitdaMargin
    } else if name == "revenue"@ || name == "entry_revenue"@ {
        OverrideField::Revenue
    } else {
        OverrideField::Unknown
    }
}

/// Whether two strings hold the same characters.
fn str_eq(a: &str, b: &str) -> (r: bool)
    ensures
        r == (a@ == b@),
{
    let s1 = a.to_owned();
    let s2 = b.to_owned();
    s1 == s2
}

/// Look up the input field an override variable addresses.
pub fn override_field(name: &str) -> (r: OverrideField)
    ensures
        r == spec_override_field(name@),
{
    if str_eq(name, "entry_multiple") || str_eq(name, "entry_ev_ebitda_multiple") {
        OverrideField::EntryMultiple
    } else if str_eq(name, "exit_multiple") || str_eq(name, "exit_ev_ebitda_multiple") {
        OverrideField::ExitMultiple
    } else if str_eq(name, "leverage") || str_eq(name, "total_leverage_ratio") {
        OverrideField::Leverage
    } else if str_eq(name, "revenue_growth") || str_eq(name, "revenue_growth_rate") {
        OverrideField::RevenueGrowth
    } else if str_eq(name, "ebitda_margin") {
        OverrideField::EbitdaMargin
    } else if str_eq(name, "revenue") || str_eq(name, "entry_revenue") {
        OverrideField::Revenue
    } else {
        OverrideField::Unknown
    }
}

} // verus!
