//! Partner pairing support for the generation boundary: a companion list of
//! `(random key, parent index)` pairs is sorted by key, which turns the fresh
//! uniform keys into a randomized partner ordering while the parents
//! themselves keep their original order.

use vstd::prelude::*;

use vstd::multiset::Multiset;
use vstd::seq_lib::group_to_multiset_ensures;

verus! {

/// Whether the pairs are ordered by non-decreasing key.
pub open spec fn sorted_by_key(s: Seq<(u32, usize)>) -> bool {
    forall|i: int, j: int| 0 <= i < j < s.len() ==> (#[trigger] s[i]).0 <= (#[trigger] s[j]).0
}

/// Sorts the companion list by key: the result is ordered, and is a
/// permutation of the input (so every pair, in particular every parent
/// index, survives with its key).
pub fn sort_pairs(v: &mut Vec<(u32, usize)>)
    ensures
        final (v)@.len() == old(v)@.len(),
        sorted_by_key(final (v)@),
        final (v)@.to_multiset() == old(v)@.to_multiset(),
        forall|j: int| 0 <= j < final (v)@.len() ==> old(v)@.contains(#[trigger] final (v)@[j]),
{
    broadcast use group_to_multiset_ensures;

    let mut out: Vec<(u32, usize)> = Vec::new();
    while v.len() > 0
        invariant
            out@.len() + v@.len() == old(v)@.len(),
            out@.to_multiset().add(v@.to_multiset()) == old(v)@.to_multiset(),
            sorted_by_key(out@),
            forall|a: int, b: int|
                0 <= a < out@.len() && 0 <= b < v@.len() ==> (#[trigger] out@[a]).0 <= (
                #[trigger] v@[b]).0,
        decreases v@.len(),
    {
        broadcast use group_to_multiset_ensures;

        let ghost snap = v@;
        let mut m: usize = 0;
        let mut idx: usize = 1;
        while idx < v.len()
            invariant
                v@ == snap,
                snap.len() > 0,
                m < snap.len(),
                idx <= snap.len(),
                forall|k: int| 0 <= k < idx ==> (#[trigger] snap[k]).0 >= snap[m as int].0,
            decreases snap.len() - idx,
        {
            if v[idx].0 < v[m].0 {
                m = idx;
            }
            idx = idx + 1;
        }
        let x = v.remove(m);
        out.push(x);
        proof {
            let ghost pre_out = out@.drop_last();
            assert(out@ == pre_out.push(x));
            assert(v@ == snap.remove(m as int));
            assert(snap[m as int] == x);
            assert(out@.to_multiset().add(v@.to_multiset()) =~= old(v)@.to_multiset());
            assert forall|b: int| 0 <= b < v@.len() implies x.0 <= (#[trigger] v@[b]).0 by {
                if b < m {
                    assert(v@[b] == snap[b]);
                } else {
                    assert(v@[b] == snap[b + 1]);
                }
            }
            assert forall|a: int, b: int|
                0 <= a < out@.len() && 0 <= b < v@.len() implies (#[trigger] out@[a]).0 <= (
            #[trigger] v@[b]).0 by {
                if a < out@.len() - 1 {
                    assert(out@[a] == pre_out[a]);
                    assert(snap.contains(v@[b]));
                    let k = choose|k: int| 0 <= k < snap.len() && snap[k] == v@[b];
                    assert(pre_out[a].0 <= snap[k].0);
                } else {
                    assert(out@[a] == x);
                }
            }
            assert forall|i: int, j: int| 0 <= i < j < out@.len() implies (#[trigger] out@[i]).0
                <= (#[trigger] out@[j]).0 by {
                if j < out@.len() - 1 {
                    assert(out@[i] == pre_out[i] && out@[j] == pre_out[j]);
                } else {
                    assert(out@[j] == x);
                    if i < out@.len() - 1 {
                        assert(out@[i] == pre_out[i]);
                    }
                }
            }
        }
    }
    proof {
        assert(v@.to_multiset() =~= Multiset::<(u32, usize)>::empty());
        assert(out@.to_multiset().add(v@.to_multiset()) =~= out@.to_multiset());
    }
    *v = out;
    proof {
        assert forall|j: int| 0 <= j < v@.len() implies old(v)@.contains(#[trigger] v@[j]) by {
            assert(v@.contains(v@[j]));
            assert(v@.to_multiset().count(v@[j]) > 0);
            assert(old(v)@.to_multiset().count(v@[j]) > 0);
        }
    }
}

} // verus!
