//! Ranking of a contract's holders by the number of rows they own.

use vstd::prelude::*;

verus! {

/// `r` lists the groups at the distinct positions `sel` of `g`, by
/// non-increasing count, and no group left out counts more than one listed.
pub open spec fn ranked_selection(g: Seq<(String, i64)>, r: Seq<(String, i64)>, sel: Seq<usize>) -> bool {
    &&& sel.len() == r.len()
    &&& sel.no_duplicates()
    &&& forall|k: int| 0 <= k < sel.len() ==> sel[k] < g.len() && #[trigger] r[k] == g[sel[k] as int]
    &&& forall|k1: int, k2: int| 0 <= k1 < k2 < r.len() ==> r[k1].1 >= r[k2].1
    &&& forall|i: int, k: int|
        0 <= i < g.len() && !sel.contains(i as usize) && 0 <= k < r.len() ==> #[trigger] g[i].1 <= #[trigger] r[k].1
}

/// The `limit` addresses that own the most rows, most first, from one
/// `(address, row count)` group per address; of equal counts the one listed
/// first comes first.
pub fn top_holders(groups: &Vec<(String, i64)>, limit: u64) -> (r: Vec<(String, i64)>)
    ensures
        r@.len() == if (limit as int) < groups@.len() { limit as int } else { groups@.len() as int },
        exists|sel: Seq<usize>| ranked_selection(groups@, r@, sel),
{
    let n = groups.len();
    let want: usize = if (limit as u128) < (n as u128) {
        limit as usize
    } else {
        n
    };
    let mut rem: Vec<usize> = Vec::new();
    let mut i: usize = 0;
    while i < n
        invariant
            i <= n,
            n == groups@.len(),
            rem@ == Seq::new(i as nat, |j: int| j as usize),
        decreases n - i,
    {
        rem.push(i);
        i = i + 1;
        assert(rem@ =~= Seq::new(i as nat, |j: int| j as usize));
    }
    let mut r: Vec<(String, i64)> = Vec::new();
    let ghost mut sel: Seq<usize> = Seq::empty();
    proof {
        assert forall|a: int, b: int| 0 <= a < b < rem@.len() implies rem@[a] != rem@[b] by {}
        assert forall|i: int| 0 <= i < n implies #[trigger] sel.contains(i as usize) || rem@.contains(i as usize) by {
            assert(rem@[i] == i as usize);
        }
    }
    while r.len() < want
        invariant
            want <= n,
            n == groups@.len(),
            r@.len() <= want,
            rem@.len() + r@.len() == n,
            sel.len() == r@.len(),
            sel.no_duplicates(),
            rem@.no_duplicates(),
            forall|k: int| 0 <= k < sel.len() ==> #[trigger] sel[k] < n,
            forall|k: int| 0 <= k < sel.len() ==> #[trigger] r@[k] == groups@[sel[k] as int],
            forall|p: int| 0 <= p < rem@.len() ==> #[trigger] rem@[p] < n,
            forall|p: int| 0 <= p < rem@.len() ==> !sel.contains(#[trigger] rem@[p]),
            forall|i: int| 0 <= i < n ==> #[trigger] sel.contains(i as usize) || rem@.contains(i as usize),
            forall|k1: int, k2: int| 0 <= k1 < k2 < r@.len() ==> r@[k1].1 >= r@[k2].1,
            forall|p: int, k: int|
                0 <= p < rem@.len() && 0 <= k < r@.len() ==> #[trigger] groups@[rem@[p] as int].1 <= #[trigger] r@[k].1,
        decreases want - r@.len(),
    {
        let mut best: usize = 0;
        let mut q: usize = 1;
        while q < rem.len()
            invariant
                rem@.len() > 0,
                best < q <= rem@.len(),
                n == groups@.len(),
                forall|p: int| 0 <= p < rem@.len() ==> #[trigger] rem@[p] < n,
                forall|p: int| 0 <= p < q ==> groups@[rem@[p] as int].1 <= groups@[rem@[best as int] as int].1,
            decreases rem@.len() - q,
        {
            if groups[rem[q]].1 > groups[rem[best]].1 {
                best = q;
            }
            q = q + 1;
        }
        let ghost old_rem = rem@;
        let ghost old_r = r@;
        let ghost old_sel = sel;
        let j = rem.remove(best);
        assert(j == old_rem[best as int]);
        let item = (groups[j].0.clone(), groups[j].1);
        r.push(item);
        proof {
            sel = sel.push(j);
            assert(r@[r@.len() - 1] == groups@[j as int]);
            assert forall|p: int| 0 <= p < rem@.len() implies #[trigger] rem@[p] < n by {
                if p < best {
                    assert(rem@[p] == old_rem[p]);
                } else {
                    assert(rem@[p] == old_rem[p + 1]);
                }
            }
            assert forall|p: int| 0 <= p < rem@.len() implies !sel.contains(#[trigger] rem@[p]) by {
                let op = if p < best { p } else { p + 1 };
                assert(rem@[p] == old_rem[op]);
                assert(op != best as int);
                assert(old_rem[op] != old_rem[best as int]);
                if sel.contains(rem@[p]) {
                    let w = choose|w: int| 0 <= w < sel.len() && sel[w] == rem@[p];
                    if w < old_sel.len() {
                        assert(old_sel[w] == rem@[p]);
                        assert(old_sel.contains(old_rem[op]));
                    }
                }
            }
            assert(sel.no_duplicates()) by {
                assert(!old_sel.contains(j)) by {
                    assert(old_rem[best as int] == j);
                }
                assert forall|a: int, b: int| 0 <= a < b < sel.len() implies sel[a] != sel[b] by {
                    if b == sel.len() - 1 {
                        assert(sel[a] == old_sel[a]);
                        assert(old_sel.contains(old_sel[a]));
                    } else {
                        assert(sel[a] == old_sel[a] && sel[b] == old_sel[b]);
                    }
                }
            }
            assert(rem@.no_duplicates()) by {
                assert forall|a: int, b: int| 0 <= a < b < rem@.len() implies rem@[a] != rem@[b] by {
                    let oa = if a < best { a } else { a + 1 };
                    let ob = if b < best { b } else { b + 1 };
                    assert(rem@[a] == old_rem[oa] && rem@[b] == old_rem[ob]);
                    assert(oa < ob);
                }
            }
            assert forall|k: int| 0 <= k < sel.len() implies #[trigger] sel[k] < n && r@[k] == groups@[sel[k] as int] by {
                if k < old_sel.len() {
                    assert(r@[k] == old_r[k]);
                    assert(sel[k] == old_sel[k]);
                }
            }
            assert forall|i: int| 0 <= i < n implies #[trigger] sel.contains(i as usize) || rem@.contains(i as usize) by {
                if old_sel.contains(i as usize) {
                    let w = choose|w: int| 0 <= w < old_sel.len() && old_sel[w] == i as usize;
                    assert(sel[w] == i as usize);
                } else {
                    let op = choose|op: int| 0 <= op < old_rem.len() && old_rem[op] == i as usize;
                    if op == best as int {
                        assert(sel[sel.len() - 1] == i as usize);
                    } else if op < best {
                        assert(rem@[op] == i as usize);
                    } else {
                        assert(rem@[op - 1] == i as usize);
                    }
                }
            }
            assert forall|k1: int, k2: int| 0 <= k1 < k2 < r@.len() implies r@[k1].1 >= r@[k2].1 by {
                if k2 < old_r.len() {
                    assert(r@[k1] == old_r[k1] && r@[k2] == old_r[k2]);
                } else {
                    assert(r@[k1] == old_r[k1]);
                    assert(groups@[old_rem[best as int] as int].1 <= old_r[k1].1);
                }
            }
            assert forall|p: int, k: int|
                0 <= p < rem@.len() && 0 <= k < r@.len() implies #[trigger] groups@[rem@[p] as int].1 <= #[trigger] r@[k].1 by {
                let op = if p < best { p } else { p + 1 };
                assert(rem@[p] == old_rem[op]);
                if k < old_r.len() {
                    assert(r@[k] == old_r[k]);
                    assert(groups@[old_rem[op] as int].1 <= old_r[k].1);
                } else {
                    assert(groups@[old_rem[op] as int].1 <= groups@[old_rem[best as int] as int].1);
                }
            }
        }
    }
    proof {
        assert forall|i: int, k: int|
            0 <= i < groups@.len() && !sel.contains(i as usize) && 0 <= k < r@.len() implies #[trigger] groups@[i].1 <= #[trigger] r@[k].1 by {
            let p = choose|p: int| 0 <= p < rem@.len() && rem@[p] == i as usize;
            assert(groups@[rem@[p] as int].1 <= r@[k].1);
        }
        assert(sel.len() == r@.len());
        assert(sel.no_duplicates());
        assert forall|k: int| 0 <= k < sel.len() implies sel[k] < groups@.len() && #[trigger] r@[k] == groups@[sel[k] as int] by {
            assert(sel[k] < n);
        }
        assert(forall|k1: int, k2: int| 0 <= k1 < k2 < r@.len() ==> r@[k1].1 >= r@[k2].1);
        assert(ranked_selection(groups@, r@, sel));
    }
    r
}

} // verus!
