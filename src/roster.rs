//! The participants of a round: distinct identities kept in ascending order,
//! so that membership is a binary search and positions are reproducible.

use vstd::prelude::*;

use crate::identity::{id_lt, lemma_lt_asymmetric, lemma_lt_transitive, Identity};

verus! {

/// Strictly ascending, hence without repeats.
pub open spec fn sorted_ids(s: Seq<Identity>) -> bool {
    forall|i: int, j: int| 0 <= i < j < s.len() ==> id_lt(#[trigger] s[i], #[trigger] s[j])
}

/// `t` lists exactly the members of `s` and `x`, in ascending order, with
/// `x` new to `s`.
pub open spec fn lists_with(s: Seq<Identity>, x: Identity, t: Seq<Identity>) -> bool {
    &&& sorted_ids(t)
    &&& t.len() == s.len() + 1
    &&& forall|y: Identity| t.contains(y) <==> (s.contains(y) || y == x)
}

/// Where `x` stands in the ascending listing `ids`: `Ok(i)` when `ids[i]` is
/// `x`, otherwise `Err(p)` with every member before `p` below `x` and every
/// member from `p` on above it.
pub fn locate(ids: &Vec<Identity>, x: &Identity) -> (r: Result<usize, usize>)
    requires
        sorted_ids(ids@),
    ensures
        match r {
            Ok(i) => i < ids@.len() && ids@[i as int] == *x,
            Err(p) => {
                &&& p <= ids@.len()
                &&& forall|i: int| 0 <= i < p ==> id_lt(#[trigger] ids@[i], *x)
                &&& forall|i: int| p <= i < ids@.len() ==> id_lt(*x, #[trigger] ids@[i])
            },
        },
        r is Ok <==> ids@.contains(*x),
{
    let mut lo: usize = 0;
    let mut hi: usize = ids.len();
    while lo < hi
        invariant
            sorted_ids(ids@),
            0 <= lo <= hi <= ids@.len(),
            forall|i: int| 0 <= i < lo ==> id_lt(#[trigger] ids@[i], *x),
            forall|i: int| hi <= i < ids@.len() ==> id_lt(*x, #[trigger] ids@[i]),
        decreases hi - lo,
    {
        let mid = lo + (hi - lo) / 2;
        match ids[mid].compare(x) {
            core::cmp::Ordering::Less => {
                assert forall|i: int| 0 <= i < mid + 1 implies id_lt(#[trigger] ids@[i], *x) by {
                    if i < mid {
                        lemma_lt_transitive(ids@[i], ids@[mid as int], *x);
                    }
                }
                lo = mid + 1;
            },
            core::cmp::Ordering::Greater => {
                assert forall|i: int| mid <= i < ids@.len() implies id_lt(*x, #[trigger] ids@[i]) by {
                    if i > mid {
                        lemma_lt_transitive(*x, ids@[mid as int], ids@[i]);
                    }
                }
                hi = mid;
            },
            core::cmp::Ordering::Equal => {
                return Ok(mid);
            },
        }
    }
    proof {
        assert forall|i: int| 0 <= i < ids@.len() implies ids@[i] != *x by {
            if i < lo {
                lemma_lt_asymmetric(ids@[i], *x);
            } else {
                lemma_lt_asymmetric(*x, ids@[i]);
            }
        }
    }
    Err(lo)
}

/// Whether `x` is among the members of the ascending listing `ids`.
pub fn holds(ids: &Vec<Identity>, x: &Identity) -> (r: bool)
    requires
        sorted_ids(ids@),
    ensures
        r == ids@.contains(*x),
{
    locate(ids, x).is_ok()
}

/// Adds `x`, which must be new, at its place in the ascending listing.
pub fn insert_sorted(ids: &mut Vec<Identity>, x: Identity)
    requires
        sorted_ids(old(ids)@),
        !old(ids)@.contains(x),
    ensures
        lists_with(old(ids)@, x, final(ids)@),
{
    match locate(ids, &x) {
        Ok(_) => {},
        Err(p) => {
            let ghost s = ids@;
            ids.insert(p, x);
            let ghost t = ids@;
            assert forall|i: int, j: int| 0 <= i < j < t.len() implies id_lt(
                #[trigger] t[i],
                #[trigger] t[j],
            ) by {
                if j < p {
                    assert(t[i] == s[i] && t[j] == s[j]);
                } else if j == p {
                    assert(t[i] == s[i]);
                } else if i < p {
                    assert(t[i] == s[i] && t[j] == s[j - 1]);
                    lemma_lt_transitive(s[i], x, s[j - 1]);
                } else if i == p {
                    assert(t[j] == s[j - 1]);
                } else {
                    assert(t[i] == s[i - 1] && t[j] == s[j - 1]);
                }
            }
            assert forall|y: Identity| t.contains(y) <==> (s.contains(y) || y == x) by {
                if t.contains(y) {
                    let k = choose|k: int| 0 <= k < t.len() && t[k] == y;
                    if k < p {
                        assert(s[k] == y);
                    } else if k > p {
                        assert(s[k - 1] == y);
                    }
                }
                if s.contains(y) {
                    let k = choose|k: int| 0 <= k < s.len() && s[k] == y;
                    if k < p {
                        assert(t[k] == y);
                    } else {
                        assert(t[k + 1] == y);
                    }
                }
                if y == x {
                    assert(t[p as int] == x);
                }
            }
        },
    }
}

} // verus!
