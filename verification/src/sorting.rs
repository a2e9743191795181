//! Ascending sort of 64-bit values, and the uniqueness of sorted
//! arrangements, used for latency percentiles.

use vstd::prelude::*;
use vstd::relations::sorted_by;

verus! {

broadcast use vstd::seq_lib::group_to_multiset_ensures;

/// The order used for sorting.
pub open spec fn le_u64(a: u64, b: u64) -> bool {
    a <= b
}

/// Whether `s` is in ascending order.
pub open spec fn is_sorted(s: Seq<u64>) -> bool {
    forall|i: int, j: int| 0 <= i <= j < s.len() ==> s[i] <= s[j]
}

/// The values of `s` in ascending order.
pub open spec fn sorted_values(s: Seq<u64>) -> Seq<u64> {
    s.sort_by(|a: u64, b: u64| le_u64(a, b))
}

proof fn lemma_le_total()
    ensures
        vstd::relations::total_ordering(|a: u64, b: u64| le_u64(a, b)),
{
}

/// Law: two ascending arrangements of the same values are equal.
pub proof fn lemma_sorted_unique(a: Seq<u64>, b: Seq<u64>)
    requires
        is_sorted(a),
        is_sorted(b),
        a.to_multiset() == b.to_multiset(),
    ensures
        a == b,
    decreases a.len(),
{
    assert(a.len() == a.to_multiset().len());
    assert(b.len() == b.to_multiset().len());
    if a.len() == 0 {
        assert(a =~= b);
    } else {
        let x = a[0];
        let y = b[0];
        assert(a.contains(x));
        assert(a.to_multiset().count(x) > 0);
        assert(b.contains(x));
        let j = choose|j: int| 0 <= j < b.len() && b[j] == x;
        assert(y <= x);
        assert(b.contains(y));
        assert(b.to_multiset().count(y) > 0);
        assert(a.contains(y));
        let i = choose|i: int| 0 <= i < a.len() && a[i] == y;
        assert(x <= y);
        let a1 = a.remove(0);
        let b1 = b.remove(0);
        assert(a1.to_multiset() =~= a.to_multiset().remove(x));
        assert(b1.to_multiset() =~= b.to_multiset().remove(y));
        assert(is_sorted(a1)) by {
            assert forall|p: int, q: int| 0 <= p <= q < a1.len() implies a1[p] <= a1[q] by {
                assert(a1[p] == a[p + 1] && a1[q] == a[q + 1]);
            }
        }
        assert(is_sorted(b1)) by {
            assert forall|p: int, q: int| 0 <= p <= q < b1.len() implies b1[p] <= b1[q] by {
                assert(b1[p] == b[p + 1] && b1[q] == b[q + 1]);
            }
        }
        lemma_sorted_unique(a1, b1);
        assert(a =~= b) by {
            assert forall|k: int| 0 <= k < a.len() implies a[k] == b[k] by {
                if k > 0 {
                    assert(a[k] == a1[k - 1]);
                    assert(b[k] == b1[k - 1]);
                }
            }
        }
    }
}

/// Law: an ascending arrangement of the values of `s` is `sorted_values(s)`.
pub proof fn lemma_sorted_values_unique(s: Seq<u64>, t: Seq<u64>)
    requires
        is_sorted(t),
        t.to_multiset() == s.to_multiset(),
    ensures
        t == sorted_values(s),
        sorted_values(s).len() == s.len(),
{
    let leq = |a: u64, b: u64| le_u64(a, b);
    lemma_le_total();
    s.lemma_sort_by_ensures(leq);
    let u = sorted_values(s);
    assert(u == s.sort_by(leq));
    assert(sorted_by(u, leq));
    assert(is_sorted(u)) by {
        assert forall|i: int, j: int| 0 <= i <= j < u.len() implies u[i] <= u[j] by {
            if i < j {
                assert(leq(u[i], u[j]));
            }
        }
    }
    lemma_sorted_unique(t, u);
    assert(s.len() == s.to_multiset().len());
    assert(u.len() == u.to_multiset().len());
}

/// The values of `v` in ascending order.
pub fn sort_ascending(v: &Vec<u64>) -> (r: Vec<u64>)
    ensures
        r@ == sorted_values(v@),
        r@.len() == v@.len(),
{
    let mut r: Vec<u64> = Vec::new();
    let mut i: usize = 0;
    while i < v.len()
        invariant
            i <= v.len(),
            is_sorted(r@),
            r@.to_multiset() == v@.take(i as int).to_multiset(),
        decreases v.len() - i,
    {
        let x = v[i];
        let mut p: usize = 0;
        while p < r.len() && r[p] <= x
            invariant
                p <= r.len(),
                forall|k: int| 0 <= k < p ==> r@[k] <= x,
            decreases r.len() - p,
        {
            p = p + 1;
        }
        let ghost before = r@;
        r.insert(p, x);
        proof {
            assert(r@ == before.insert(p as int, x));
            assert(is_sorted(r@)) by {
                assert forall|a: int, b: int| 0 <= a <= b < r@.len() implies r@[a] <= r@[b] by {
                    if a < p && b < p {
                        assert(r@[a] == before[a] && r@[b] == before[b]);
                    } else if a < p && b == p {
                        assert(r@[a] == before[a]);
                    } else if a < p {
                        assert(r@[a] == before[a] && r@[b] == before[b - 1]);
                    } else if a == p && b == p {
                    } else if a == p {
                        assert(r@[b] == before[b - 1]);
                        assert(p < before.len() && before[p as int] > x);
                    } else {
                        assert(r@[a] == before[a - 1] && r@[b] == before[b - 1]);
                    }
                }
            }
            assert(r@.remove(p as int) =~= before);
            assert(r@.remove(p as int).to_multiset() =~= r@.to_multiset().remove(x));
            assert(v@.take(i + 1) =~= v@.take(i as int).push(x));
            assert(r@.to_multiset() =~= before.to_multiset().insert(x)) by {
                assert(r@.contains(x)) by {
                    assert(r@[p as int] == x);
                }
                assert(r@.to_multiset().count(x) > 0);
            }
        }
        i = i + 1;
    }
    proof {
        assert(v@.take(v@.len() as int) =~= v@);
        lemma_sorted_values_unique(v@, r@);
    }
    r
}

} // verus!
