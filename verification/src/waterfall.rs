//! The distribution waterfall's split discipline.
//!
//! On a distribution year the engine applies proceeds in strict order:
//! return of capital up to the unreturned balance, then accrued preferred
//! return, then the general partner's catch-up up to its target, and last
//! the residual, split between the partners at the carry rate. The engine
//! runs this split in floating point; the order, the caps and the
//! conservation law are fixed here over exact arithmetic.

use vstd::prelude::*;
use vstd::arithmetic::mul::lemma_mul_is_distributive_add;
use vstd::math::min;

verus! {

/// Step one: return of capital, capped at the unreturned-capital balance.
pub open spec fn spec_return_of_capital(distribution: int, unreturned: int) -> int {
    min(distribution, unreturned)
}

/// Step two: payment of preferred return, capped at the accrued amount,
/// out of what step one left.
pub open spec fn spec_pref_payment(distribution: int, unreturned: int, accrued: int) -> int {
    min(distribution - spec_return_of_capital(distribution, unreturned), accrued)
}

/// Step three: the general partner's catch-up, capped at its target, out of
/// what steps one and two left.
pub open spec fn spec_catchup_payment(
    distribution: int,
    unreturned: int,
    accrued: int,
    target: int,
) -> int {
    min(
        distribution - spec_return_of_capital(distribution, unreturned) - spec_pref_payment(
            distribution,
            unreturned,
            accrued,
        ),
        target,
    )
}

/// Step four: the residual that is split at the carry rate.
pub open spec fn spec_residual(
    distribution: int,
    unreturned: int,
    accrued: int,
    target: int,
) -> int {
    distribution - spec_return_of_capital(distribution, unreturned) - spec_pref_payment(
        distribution,
        unreturned,
        accrued,
    ) - spec_catchup_payment(distribution, unreturned, accrued, target)
}

/// Waterfall conservation, in exact arithmetic: the four payments exhaust
/// the distribution with no leakage, each is capped by its balance, the
/// unreturned capital and the accrued preferred return never go negative,
/// and the residual, split at a carry rate of `carry_num / carry_den`,
/// hands the two partners exactly the residual between them.
pub proof fn lemma_waterfall_split_conserves(
    distribution: int,
    unreturned: int,
    accrued: int,
    target: int,
    carry_num: int,
    carry_den: int,
)
    requires
        0 <= distribution,
        0 <= unreturned,
        0 <= accrued,
        0 <= target,
        0 < carry_den,
        0 <= carry_num <= carry_den,
    ensures
        spec_return_of_capital(distribution, unreturned) + spec_pref_payment(
            distribution,
            unreturned,
            accrued,
        ) + spec_catchup_payment(distribution, unreturned, accrued, target) + spec_residual(
            distribution,
            unreturned,
            accrued,
            target,
        ) == distribution,
        0 <= spec_return_of_capital(distribution, unreturned) <= unreturned,
        0 <= spec_pref_payment(distribution, unreturned, accrued) <= accrued,
        0 <= spec_catchup_payment(distribution, unreturned, accrued, target) <= target,
        0 <= spec_residual(distribution, unreturned, accrued, target),
        spec_residual(distribution, unreturned, accrued, target) * carry_num + spec_residual(
            distribution,
            unreturned,
            accrued,
            target,
        ) * (carry_den - carry_num) == spec_residual(distribution, unreturned, accrued, target)
            * carry_den,
{
    let residual = spec_residual(distribution, unreturned, accrued, target);
    lemma_mul_is_distributive_add(residual, carry_num, carry_den - carry_num);
}

} // verus!
