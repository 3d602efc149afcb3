//! Debt-schedule decisions of the projection engine.
//!
//! During each projection year the engine pays mandatory amortization and
//! then sweeps remaining free cash through the tranches. Which tranches are
//! swept, and in what order, is pure integer and boolean logic and is decided
//! here: cash-interest tranches only, by ascending sweep priority, ties kept
//! in tranche-list order. Every payment of the engine is capped at the
//! remaining cash and at the outstanding balance; the capping rule's
//! invariant is stated and proved below.

use vstd::prelude::*;

verus! {

/// Tranche `a` is swept strictly before tranche `b`: a smaller priority
/// value, or the same value and an earlier place in the tranche list.
pub open spec fn spec_sweep_precedes(a: usize, b: usize, priorities: Seq<i32>) -> bool {
    ||| priorities[a as int] < priorities[b as int]
    ||| (priorities[a as int] == priorities[b as int] && a < b)
}

/// The order is strictly ascending by priority, ties by tranche position.
pub open spec fn spec_sweep_sorted(order: Seq<usize>, priorities: Seq<i32>) -> bool {
    forall|k1: int, k2: int|
        0 <= k1 < k2 < order.len() ==> #[trigger] spec_sweep_precedes(
            order[k1],
            order[k2],
            priorities,
        )
}

/// The cash-sweep schedule: the positions of the cash-interest tranches,
/// ordered by ascending `mandatory_cash_sweep_priority`, tranches of equal
/// priority in their original order. Accruing (payment-in-kind) tranches are
/// not swept and do not appear.
pub fn sweep_order(priorities: &Vec<i32>, pays_cash: &Vec<bool>) -> (order: Vec<usize>)
    requires
        priorities.len() == pays_cash.len(),
    ensures
        forall|k: int|
            0 <= k < order@.len() ==> (#[trigger] order@[k]) < priorities@.len()
                && pays_cash@[order@[k] as int],
        forall|t: usize|
            t < priorities@.len() && pays_cash@[t as int] ==> #[trigger] order@.contains(t),
        spec_sweep_sorted(order@, priorities@),
{
    let n: usize = priorities.len();
    let mut order: Vec<usize> = Vec::new();
    let mut i: usize = 0;
    while i < n
        invariant
            i <= n,
            n == priorities.len(),
            n == pays_cash.len(),
            forall|k: int|
                0 <= k < order@.len() ==> (#[trigger] order@[k]) < i && pays_cash@[order@[k] as int],
            forall|t: usize| t < i && pays_cash@[t as int] ==> #[trigger] order@.contains(t),
            spec_sweep_sorted(order@, priorities@),
        decreases n - i,
    {
        if pays_cash[i] {
            let mut j: usize = 0;
            while j < order.len() && priorities[order[j]] <= priorities[i]
                invariant
                    j <= order@.len(),
                    i < n,
                    n == priorities.len(),
                    forall|k: int|
                        0 <= k < order@.len() ==> (#[trigger] order@[k]) < i
                            && order@[k] < n,
                    forall|k: int|
                        0 <= k < j ==> priorities@[(#[trigger] order@[k]) as int]
                            <= priorities@[i as int],
                decreases order@.len() - j,
            {
                j = j + 1;
            }
            let ghost before = order@;
            order.insert(j, i);
            proof {
                before.insert_ensures(j as int, i);
                assert forall|k1: int, k2: int|
                    0 <= k1 < k2 < order@.len() implies #[trigger] spec_sweep_precedes(
                    order@[k1],
                    order@[k2],
                    priorities@,
                ) by {
                    if k2 < j {
                        assert(spec_sweep_precedes(before[k1], before[k2], priorities@));
                    } else if k1 < j && k2 == j {
                        assert(order@[k1] == before[k1]);
                        assert(priorities@[before[k1] as int] <= priorities@[i as int]);
                        assert(before[k1] < i);
                    } else if k1 < j && k2 > j {
                        assert(spec_sweep_precedes(before[k1], before[k2 - 1], priorities@));
                    } else if k1 == j {
                        // the probe stopped at j, so everything from j on has a
                        // strictly larger priority
                        assert(j < before.len());
                        assert(priorities@[before[j as int] as int] > priorities@[i as int]);
                        if k2 - 1 > j {
                            assert(spec_sweep_precedes(
                                before[j as int],
                                before[k2 - 1],
                                priorities@,
                            ));
                        }
                        assert(order@[k2] == before[k2 - 1]);
                    } else {
                        assert(spec_sweep_precedes(before[k1 - 1], before[k2 - 1], priorities@));
                    }
                }
                assert forall|t: usize| t < i + 1 && pays_cash@[t as int] implies order@.contains(
                    t,
                ) by {
                    if t == i {
                        assert(order@[j as int] == t);
                    } else {
                        assert(before.contains(t));
                        let w = choose|w: int| 0 <= w < before.len() && before[w] == t;
                        if w < j {
                            assert(order@[w] == t);
                        } else {
                            assert(order@[w + 1] == t);
                        }
                    }
                }
            }
        }
        i = i + 1;
    }
    order
}

/// Tranche balances never go negative: a payment capped at the remaining
/// cash and at the outstanding balance leaves both non-negative. This is the
/// rule applied by every amortization and sweep step: the scheduled amount
/// may be anything, but the payment is the smallest of the three.
pub proof fn lemma_capped_payment_nonnegative(balance: int, cash: int, scheduled: int)
    requires
        0 <= balance,
        0 <= cash,
    ensures
        0 <= balance - vstd::math::min(vstd::math::min(cash, scheduled), balance),
        0 <= cash - vstd::math::min(vstd::math::min(cash, scheduled), balance),
{
}

} // verus!
