//! Sorted, duplicate-free lists of identities.
//!
//! Member lists and vote lists are kept strictly sorted so that
//! membership can be decided by binary search and so that list length
//! always equals the cardinality of the represented set.

use vstd::prelude::*;

use crate::identity::{id_lt, Identity};

verus! {

/// The list is strictly increasing, hence free of duplicates.
pub open spec fn sorted_unique(s: Seq<Identity>) -> bool {
    forall|i: int, j: int| 0 <= i < j < s.len() ==> #[trigger] id_lt(s[i], s[j])
}

/// The set of identities a list holds.
pub open spec fn key_set(s: Seq<Identity>) -> Set<Identity> {
    s.to_set()
}

/// In a strictly sorted list every position holds a different key, so
/// the length of the list is the size of its key set.
pub proof fn lemma_sorted_len_is_card(s: Seq<Identity>)
    requires
        sorted_unique(s),
    ensures
        key_set(s).finite(),
        key_set(s).len() == s.len(),
    decreases s.len(),
{
    if s.len() == 0 {
        assert(key_set(s) =~= Set::empty());
    } else {
        let front = s.drop_last();
        assert(sorted_unique(front));
        lemma_sorted_len_is_card(front);
        assert(!front.contains(s.last())) by {
            assert forall|i: int| 0 <= i < front.len() implies front[i] != s.last() by {
                assert(id_lt(s[i], s[s.len() - 1]));
            }
        }
        assert(key_set(s) =~= key_set(front).insert(s.last())) by {
            assert forall|x: Identity| key_set(s).contains(x) implies key_set(front).insert(
                s.last(),
            ).contains(x) by {
                let i = choose|i: int| 0 <= i < s.len() && s[i] == x;
                if i < s.len() - 1 {
                    assert(front[i] == x);
                }
            }
            assert forall|x: Identity| key_set(front).insert(s.last()).contains(x) implies key_set(
                s,
            ).contains(x) by {
                if key_set(front).contains(x) {
                    let i = choose|i: int| 0 <= i < front.len() && front[i] == x;
                    assert(s[i] == x);
                }
            }
        }
    }
}

/// Binary search in a strictly sorted list.
///
/// Returns the position of `x`, or `None` when `x` is not in the list.
pub fn find_key(v: &Vec<Identity>, x: &Identity) -> (r: Option<usize>)
    requires
        sorted_unique(v@),
    ensures
        match r {
            Some(i) => i < v@.len() && v@[i as int] == *x && v@.contains(*x),
            None => !v@.contains(*x),
        },
{
    let mut lo: usize = 0;
    let mut hi: usize = v.len();
    while lo < hi
        invariant
            sorted_unique(v@),
            lo <= hi <= v@.len(),
            forall|k: int| 0 <= k < lo ==> id_lt(#[trigger] v@[k], *x),
            forall|k: int| hi <= k < v@.len() ==> id_lt(*x, #[trigger] v@[k]),
        decreases hi - lo,
    {
        let mid = lo + (hi - lo) / 2;
        if v[mid].less_than(x) {
            proof {
                assert forall|k: int| 0 <= k < mid + 1 implies id_lt(v@[k], *x) by {
                    if k < mid {
                        assert(id_lt(v@[k], v@[mid as int]));
                    }
                }
            }
            lo = mid + 1;
        } else if x.less_than(&v[mid]) {
            proof {
                assert forall|k: int| mid <= k < v@.len() implies id_lt(*x, v@[k]) by {
                    if k > mid {
                        assert(id_lt(v@[mid as int], v@[k]));
                    }
                }
            }
            hi = mid;
        } else {
            assert(v@[mid as int] == *x);
            return Some(mid);
        }
    }
    proof {
        assert forall|k: int| 0 <= k < v@.len() implies v@[k] != *x by {
            if k < lo {
                assert(id_lt(v@[k], *x));
            } else {
                assert(id_lt(*x, v@[k]));
            }
        }
    }
    None
}

/// Inserts `x` at its sorted position; a key already present is left
/// alone. Returns whether the list grew.
pub fn insert_key(v: &mut Vec<Identity>, x: Identity) -> (grew: bool)
    requires
        sorted_unique(old(v)@),
        old(v)@.len() < usize::MAX,
    ensures
        sorted_unique(final(v)@),
        key_set(final(v)@) == key_set(old(v)@).insert(x),
        grew == !old(v)@.contains(x),
        old(v)@.contains(x) ==> final(v)@ == old(v)@,
        !old(v)@.contains(x) ==> final(v)@.len() == old(v)@.len() + 1,
        final(v)@.contains(x),
{
    let ghost orig = v@;
    let mut i: usize = 0;
    while i < v.len() && v[i].less_than(&x)
        invariant
            v@ == orig,
            sorted_unique(v@),
            i <= v@.len(),
            forall|k: int| 0 <= k < i ==> id_lt(#[trigger] v@[k], x),
        decreases v@.len() - i,
    {
        i = i + 1;
    }
    if i < v.len() && x == v[i] {
        proof {
            assert(v@.contains(x));
            assert(key_set(v@) =~= key_set(orig).insert(x));
        }
        return false;
    }
    proof {
        if i < orig.len() {
            assert(id_lt(x, orig[i as int]));
        }
        assert(!orig.contains(x)) by {
            assert forall|k: int| 0 <= k < orig.len() implies orig[k] != x by {
                if k < i {
                    assert(id_lt(orig[k], x));
                } else {
                    assert(id_lt(orig[i as int], orig[k]) || k == i);
                }
            }
        }
    }
    v.insert(i, x);
    proof {
        let now = v@;
        assert(now == orig.insert(i as int, x));
        assert(now.len() == orig.len() + 1);
        assert forall|k: int| 0 <= k < now.len() implies (if k < i {
            now[k] == orig[k]
        } else if k == i {
            now[k] == x
        } else {
            now[k] == orig[k - 1]
        }) by {}
        assert(sorted_unique(now)) by {
            assert forall|p: int, q: int| 0 <= p < q < now.len() implies id_lt(now[p], now[q]) by {
                if p < i && q < i {
                } else if p < i && q == i {
                } else if p < i && q > i {
                    assert(id_lt(orig[p], orig[q - 1])) by {
                        if p < q - 1 {
                        } else {
                            assert(p == q - 1);
                        }
                    }
                } else if p == i {
                    assert(id_lt(x, orig[q - 1])) by {
                        if q - 1 > i {
                            assert(id_lt(orig[i as int], orig[q - 1]));
                        }
                    }
                } else {
                    assert(id_lt(orig[p - 1], orig[q - 1]));
                }
            }
        }
        assert(now.contains(x)) by {
            assert(now[i as int] == x);
        }
        assert(key_set(now) =~= key_set(orig).insert(x)) by {
            assert forall|y: Identity| now.contains(y) implies orig.contains(y) || y == x by {
                let k = choose|k: int| 0 <= k < now.len() && now[k] == y;
                if k < i {
                    assert(orig[k] == y);
                } else if k > i {
                    assert(orig[k - 1] == y);
                }
            }
            assert forall|y: Identity| orig.contains(y) implies now.contains(y) by {
                let k = choose|k: int| 0 <= k < orig.len() && orig[k] == y;
                if k < i {
                    assert(now[k] == y);
                } else {
                    assert(now[k + 1] == y);
                }
            }
        }
    }
    true
}

/// Removes the element at `i` from a sorted list, keeping it sorted.
pub fn remove_at(v: &mut Vec<Identity>, i: usize) -> (r: Identity)
    requires
        sorted_unique(old(v)@),
        i < old(v)@.len(),
    ensures
        sorted_unique(final(v)@),
        r == old(v)@[i as int],
        final(v)@.len() == old(v)@.len() - 1,
        key_set(final(v)@) == key_set(old(v)@).remove(r),
        !final(v)@.contains(r),
{
    let ghost orig = v@;
    let r = v.remove(i);
    proof {
        let now = v@;
        assert(now == orig.remove(i as int));
        assert forall|k: int| 0 <= k < now.len() implies (if k < i {
            now[k] == orig[k]
        } else {
            now[k] == orig[k + 1]
        }) by {}
        assert(sorted_unique(now)) by {
            assert forall|p: int, q: int| 0 <= p < q < now.len() implies id_lt(now[p], now[q]) by {
                if p < i && q < i {
                } else if p < i {
                    assert(id_lt(orig[p], orig[q + 1]));
                } else {
                    assert(id_lt(orig[p + 1], orig[q + 1]));
                }
            }
        }
        assert(!now.contains(r)) by {
            assert forall|k: int| 0 <= k < now.len() implies now[k] != r by {
                if k < i {
                    assert(id_lt(orig[k], orig[i as int]));
                } else {
                    assert(id_lt(orig[i as int], orig[k + 1]));
                }
            }
        }
        assert(key_set(now) =~= key_set(orig).remove(r)) by {
            assert forall|y: Identity| now.contains(y) implies orig.contains(y) && y != r by {
                let k = choose|k: int| 0 <= k < now.len() && now[k] == y;
                if k < i {
                    assert(orig[k] == y);
                } else {
                    assert(orig[k + 1] == y);
                }
            }
            assert forall|y: Identity| orig.contains(y) && y != r implies now.contains(y) by {
                let k = choose|k: int| 0 <= k < orig.len() && orig[k] == y;
                if k < i {
                    assert(now[k] == y);
                } else if k > i {
                    assert(now[k - 1] == y);
                }
            }
        }
    }
    r
}

} // verus!
