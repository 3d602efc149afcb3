//! Percentile selection of the Monte Carlo engine.
//!
//! The engine reduces a batch of sampled values to three percentile
//! readings: sort ascending, then read the entries at the requested index
//! positions, each clamped into the valid range. The samples themselves are
//! floating point; the caller maps them to 64-bit keys under any
//! order-preserving encoding, and this module does the sorting and the
//! selection. Whatever the keys, the three readings come from the sorted
//! sequence and are themselves in ascending order.

use vstd::prelude::*;
use vstd::multiset::Multiset;
use vstd::relations::{sorted_by, total_ordering};
use vstd::seq_lib::{group_to_multiset_ensures, lemma_multiset_commutative, lemma_sorted_unique};

verus! {

/// The ascending order on keys, as a relation.
pub open spec fn key_le() -> spec_fn(u64, u64) -> bool {
    |x: u64, y: u64| x <= y
}

/// Each entry is at most every later entry.
pub open spec fn spec_ascending(s: Seq<u64>) -> bool {
    forall|k1: int, k2: int| 0 <= k1 < k2 < s.len() ==> #[trigger] s[k1] <= #[trigger] s[k2]
}

/// The keys in ascending order.
pub open spec fn spec_sorted_keys(s: Seq<u64>) -> Seq<u64> {
    s.sort_by(key_le())
}

/// An index clamped into `[0, n - 1]`.
pub open spec fn spec_clamped_index(i: int, n: nat) -> int
    recommends
        0 < n,
        0 <= i,
{
    if i < n {
        i
    } else {
        n - 1
    }
}

/// Inserting into a sequence puts the element into its multiset.
proof fn lemma_insert_to_multiset(s: Seq<u64>, pos: int, x: u64)
    requires
        0 <= pos <= s.len(),
    ensures
        s.insert(pos, x).to_multiset() =~= s.to_multiset().insert(x),
{
    broadcast use group_to_multiset_ensures;
    broadcast use vstd::multiset::group_multiset_axioms;

    let front = s.subrange(0, pos);
    let back = s.subrange(pos, s.len() as int);
    lemma_multiset_commutative(front.push(x), back);
    lemma_multiset_commutative(front, back);
    assert(s =~= front + back);
}

/// Insert a key into an ascending sequence, keeping it ascending.
fn sorted_insert(v: &mut Vec<u64>, x: u64)
    requires
        spec_ascending(old(v)@),
    ensures
        spec_ascending(final(v)@),
        final(v)@.to_multiset() =~= old(v)@.to_multiset().insert(x),
{
    let mut j: usize = 0;
    while j < v.len() && v[j] <= x
        invariant
            j <= v@.len(),
            forall|k: int| 0 <= k < j ==> (#[trigger] v@[k]) <= x,
        decreases v@.len() - j,
    {
        j = j + 1;
    }
    let ghost before = v@;
    v.insert(j, x);
    proof {
        before.insert_ensures(j as int, x);
        lemma_insert_to_multiset(before, j as int, x);
        assert forall|k1: int, k2: int| 0 <= k1 < k2 < v@.len() implies #[trigger] v@[k1]
            <= #[trigger] v@[k2] by {
            if k2 < j {
                assert(before[k1] <= before[k2]);
            } else if k1 < j && k2 == j {
                assert(v@[k1] == before[k1]);
            } else if k1 < j && k2 > j {
                assert(before[k1] <= before[k2 - 1]);
            } else if k1 == j {
                assert(j < before.len());
                assert(before[j as int] > x);
                if k2 - 1 > j {
                    assert(before[j as int] <= before[k2 - 1]);
                }
            } else {
                assert(before[k1 - 1] <= before[k2 - 1]);
            }
        }
    }
}

/// The keys in ascending order: same entries, each at most the next.
pub fn sort_keys(keys: &Vec<u64>) -> (r: Vec<u64>)
    ensures
        r@ == spec_sorted_keys(keys@),
        spec_ascending(r@),
        r@.to_multiset() =~= keys@.to_multiset(),
        r@.len() == keys@.len(),
{
    broadcast use group_to_multiset_ensures;

    let mut sorted: Vec<u64> = Vec::new();
    let mut i: usize = 0;
    assert(keys@.subrange(0, 0).to_multiset() =~= Multiset::<u64>::empty());
    while i < keys.len()
        invariant
            i <= keys@.len(),
            spec_ascending(sorted@),
            sorted@.to_multiset() =~= keys@.subrange(0, i as int).to_multiset(),
        decreases keys@.len() - i,
    {
        let x = keys[i];
        sorted_insert(&mut sorted, x);
        proof {
            broadcast use group_to_multiset_ensures;

            assert(keys@.subrange(0, i + 1) =~= keys@.subrange(0, i as int).push(x));
        }
        i = i + 1;
    }
    proof {
        broadcast use group_to_multiset_ensures;

        assert(keys@.subrange(0, keys@.len() as int) =~= keys@);
        let leq = key_le();
        assert(total_ordering(leq));
        keys@.lemma_sort_by_ensures(leq);
        assert(sorted_by(sorted@, leq));
        assert(sorted@.to_multiset() == keys@.sort_by(leq).to_multiset());
        lemma_sorted_unique(sorted@, keys@.sort_by(leq), leq);
        assert(sorted@ =~= keys@.sort_by(leq));
        assert(sorted@.len() == sorted@.to_multiset().len());
        assert(keys@.len() == keys@.to_multiset().len());
    }
    sorted
}

/// The three percentile readings of a batch of keys.
///
/// Each requested index is clamped into the valid range, the keys are
/// sorted ascending, and the readings are taken at the clamped positions of
/// the sorted sequence. Requested indices given in ascending order yield
/// readings in ascending order.
pub fn percentiles(keys: &Vec<u64>, idx_low: usize, idx_mid: usize, idx_high: usize) -> (r: (
    u64,
    u64,
    u64,
))
    requires
        keys.len() > 0,
    ensures
        r.0 == spec_sorted_keys(keys@)[spec_clamped_index(idx_low as int, keys@.len())],
        r.1 == spec_sorted_keys(keys@)[spec_clamped_index(idx_mid as int, keys@.len())],
        r.2 == spec_sorted_keys(keys@)[spec_clamped_index(idx_high as int, keys@.len())],
        idx_low <= idx_mid <= idx_high ==> r.0 <= r.1 && r.1 <= r.2,
{
    let sorted = sort_keys(keys);
    let n = sorted.len();
    let low = if idx_low < n { idx_low } else { n - 1 };
    let mid = if idx_mid < n { idx_mid } else { n - 1 };
    let high = if idx_high < n { idx_high } else { n - 1 };
    let r = (sorted[low], sorted[mid], sorted[high]);
    proof {
        if idx_low <= idx_mid <= idx_high {
            assert(low <= mid <= high);
            if low < mid {
                assert(sorted@[low as int] <= sorted@[mid as int]);
            }
            if mid < high {
                assert(sorted@[mid as int] <= sorted@[high as int]);
            }
        }
    }
    r
}

} // verus!
