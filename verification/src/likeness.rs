//! Ordering images by likeness. The images' separations are measured elsewhere; here
//! they arrive as ranks, integers ordered as the separations are, and the order is
//! made from them: each image's nearest images, and chains in which each next image
//! is the one closest to either end.
use vstd::prelude::*;
use crate::groups::{group_lists, joins, link_neighbours, lists_groups, merge_all, singletons, Neighbour};

verus! {

/// A square matrix of ranks, one row per image, as plain values.
pub open spec fn rank_rows(ranks: Seq<Vec<u64>>) -> Seq<Seq<u64>> {
    ranks.map_values(|row: Vec<u64>| row@)
}

/// `d` has `n` rows of `n` entries.
pub open spec fn is_square(d: Seq<Seq<u64>>, n: int) -> bool {
    &&& d.len() == n
    &&& forall|i: int| 0 <= i < n ==> (#[trigger] d[i]).len() == n
}

/// Every entry of `items` names an image of `d`.
pub open spec fn items_in(d: Seq<Seq<u64>>, items: Seq<usize>) -> bool {
    forall|k: int| 0 <= k < items.len() ==> (#[trigger] items[k]) < d.len()
}

/// The rank of the separation from the image at position `a` of `items` to the one at
/// position `b`.
pub open spec fn sep(d: Seq<Seq<u64>>, items: Seq<usize>, a: int, b: int) -> int {
    d[items[a] as int][items[b] as int] as int
}

/// `(a, b)` comes before `(l, r)` when the pairs are scanned row by row.
pub open spec fn pair_before(a: int, b: int, l: int, r: int) -> bool {
    a < l || (a == l && b < r)
}

/// `(l, r)` is the closest pair of positions, `l < r`, and the first such pair in
/// scan order.
pub open spec fn first_closest_pair(d: Seq<Seq<u64>>, items: Seq<usize>, l: int, r: int) -> bool {
    &&& 0 <= l < r < items.len()
    &&& forall|a: int, b: int| 0 <= a < b < items.len() ==> sep(d, items, l, r) <= #[trigger] sep(d, items, a, b)
    &&& forall|a: int, b: int|
        0 <= a < b < items.len() && pair_before(a, b, l, r) ==> sep(d, items, l, r) < #[trigger] sep(
            d,
            items,
            a,
            b,
        )
}

/// The end of the chain at its front or at its back.
pub open spec fn chain_end(chain: Seq<int>, front: bool) -> int {
    if front {
        chain.first()
    } else {
        chain.last()
    }
}

/// The rank of adding the unused position `unused[p]` at the front or the back.
pub open spec fn step_rank(d: Seq<Seq<u64>>, items: Seq<usize>, chain: Seq<int>, unused: Seq<int>, p: int, front: bool) -> int {
    sep(d, items, unused[p], chain_end(chain, front))
}

/// `(q, g)` is looked at before `(p, f)`: by position, the front before the back.
pub open spec fn step_before(q: int, g: bool, p: int, f: bool) -> bool {
    q < p || (q == p && g && !f)
}

/// Adding `unused[p]` at the front (or back) is the closest step, and the first such
/// in scan order.
pub open spec fn first_best_step(d: Seq<Seq<u64>>, items: Seq<usize>, chain: Seq<int>, unused: Seq<int>, p: int, front: bool) -> bool {
    &&& 0 <= p < unused.len()
    &&& forall|q: int, g: bool|
        0 <= q < unused.len() ==> step_rank(d, items, chain, unused, p, front) <= #[trigger] step_rank(
            d,
            items,
            chain,
            unused,
            q,
            g,
        )
    &&& forall|q: int, g: bool|
        0 <= q < unused.len() && step_before(q, g, p, front) ==> step_rank(d, items, chain, unused, p, front)
            < #[trigger] step_rank(d, items, chain, unused, q, g)
}

/// `Vec::swap_remove`: the last entry takes the place of entry `p`.
pub open spec fn swap_removed(s: Seq<int>, p: int) -> Seq<int> {
    if 0 <= p < s.len() {
        s.update(p, s.last()).drop_last()
    } else {
        s.drop_last()
    }
}

/// The chain grown from `chain` by adding, step by step, the closest unused position
/// at the end it is closest to.
pub open spec fn grown(d: Seq<Seq<u64>>, items: Seq<usize>, chain: Seq<int>, unused: Seq<int>) -> Seq<int>
    decreases unused.len(),
{
    if unused.len() == 0 {
        chain
    } else {
        let (p, front) = choose|p: int, front: bool| first_best_step(d, items, chain, unused, p, front);
        let x = unused[p];
        grown(d, items, if front { seq![x] + chain } else { chain.push(x) }, swap_removed(unused, p))
    }
}

/// The entries of `v` as integers.
pub open spec fn ints(v: Seq<usize>) -> Seq<int> {
    v.map_values(|x: usize| x as int)
}

/// No entry of `v` occurs twice.
pub open spec fn distinct(v: Seq<usize>) -> bool {
    forall|j: int, k: int| 0 <= j < k < v.len() ==> v[j] != v[k]
}

/// The positions `0..n` other than `l` and `r`, in order.
pub open spec fn others(n: int, l: int, r: int) -> Seq<int> {
    Seq::new(n as nat, |i: int| i).filter(outside_pair(l, r))
}

/// Neither `l` nor `r`.
pub open spec fn outside_pair(l: int, r: int) -> spec_fn(int) -> bool {
    |i: int| i != l && i != r
}

/// The likeness chain of `items`: the closest pair first, then each next position
/// added at the end it is closest to.
pub open spec fn likeness_chain(d: Seq<Seq<u64>>, items: Seq<usize>) -> Seq<int> {
    if items.len() == 0 {
        Seq::empty()
    } else if items.len() == 1 {
        seq![0]
    } else {
        let (l, r) = choose|l: int, r: int| first_closest_pair(d, items, l, r);
        grown(d, items, seq![l, r], others(items.len() as int, l, r))
    }
}

proof fn lemma_first_closest_unique(d: Seq<Seq<u64>>, items: Seq<usize>, l: int, r: int, l2: int, r2: int)
    requires
        first_closest_pair(d, items, l, r),
        first_closest_pair(d, items, l2, r2),
    ensures
        l == l2 && r == r2,
{
    assert(sep(d, items, l, r) <= sep(d, items, l2, r2));
    assert(sep(d, items, l2, r2) <= sep(d, items, l, r));
    if pair_before(l, r, l2, r2) {
        assert(sep(d, items, l2, r2) < sep(d, items, l, r));
    }
    if pair_before(l2, r2, l, r) {
        assert(sep(d, items, l, r) < sep(d, items, l2, r2));
    }
}

proof fn lemma_first_best_unique(
    d: Seq<Seq<u64>>,
    items: Seq<usize>,
    chain: Seq<int>,
    unused: Seq<int>,
    p: int,
    f: bool,
    q: int,
    g: bool,
)
    requires
        first_best_step(d, items, chain, unused, p, f),
        first_best_step(d, items, chain, unused, q, g),
    ensures
        p == q && f == g,
{
    assert(step_rank(d, items, chain, unused, p, f) <= step_rank(d, items, chain, unused, q, g));
    assert(step_rank(d, items, chain, unused, q, g) <= step_rank(d, items, chain, unused, p, f));
    if step_before(q, g, p, f) {
        assert(step_rank(d, items, chain, unused, p, f) < step_rank(d, items, chain, unused, q, g));
    }
    if step_before(p, f, q, g) {
        assert(step_rank(d, items, chain, unused, q, g) < step_rank(d, items, chain, unused, p, f));
    }
}

/// The positions of `items` in likeness order: the closest pair first, the first such
/// pair in scan order; then, while positions are left, the one closest to either end
/// of the chain is added at that end (ties to the earlier position, the front before
/// the back), and the last unused position takes its place among the unused.
pub fn likeness_chain_of(ranks: &Vec<Vec<u64>>, items: &Vec<usize>) -> (r: Vec<usize>)
    requires
        is_square(rank_rows(ranks@), ranks@.len() as int),
        items_in(rank_rows(ranks@), items@),
    ensures
        r@.map_values(|x: usize| x as int) == likeness_chain(rank_rows(ranks@), items@),
        r@.len() == items@.len(),
        forall|k: int| 0 <= k < r@.len() ==> (#[trigger] r@[k]) < items@.len(),
        forall|j: int, k: int| 0 <= j < k < r@.len() ==> r@[j] != r@[k],
{
    let ghost d = rank_rows(ranks@);
    let n = items.len();
    if n == 0 {
        let r: Vec<usize> = Vec::new();
        proof {
            assert(r@.map_values(|x: usize| x as int) =~= likeness_chain(d, items@));
        }
        return r;
    }
    if n == 1 {
        let mut r: Vec<usize> = Vec::new();
        r.push(0);
        proof {
            assert(r@.map_values(|x: usize| x as int) =~= likeness_chain(d, items@));
        }
        return r;
    }
    // The closest pair, the first in scan order.
    let mut best_l: usize = 0;
    let mut best_r: usize = 1;
    proof {
        assert(items@[0] < d.len() && items@[1] < d.len());
        assert(d[items@[0] as int] == ranks@[items@[0] as int]@);
    }
    let mut best = ranks[items[0]][items[1]];
    let mut l: usize = 0;
    while l < n
        invariant
            d == rank_rows(ranks@),
            is_square(d, ranks@.len() as int),
            items_in(d, items@),
            n == items@.len(),
            2 <= n,
            l <= n,
            0 <= best_l < best_r < n,
            best as int == sep(d, items@, best_l as int, best_r as int),
            best_l < l || (best_l == 0 && best_r == 1),
            forall|a: int, b: int| 0 <= a < b < n && a < l ==> best <= #[trigger] sep(d, items@, a, b),
            forall|a: int, b: int|
                0 <= a < b < n && a < l && pair_before(a, b, best_l as int, best_r as int) ==> best
                    < #[trigger] sep(d, items@, a, b),
        decreases n - l,
    {
        let mut r: usize = l + 1;
        while r < n
            invariant
                d == rank_rows(ranks@),
                is_square(d, ranks@.len() as int),
                items_in(d, items@),
                n == items@.len(),
                2 <= n,
                l < n,
                l + 1 <= r <= n,
                0 <= best_l < best_r < n,
                best as int == sep(d, items@, best_l as int, best_r as int),
                pair_before(best_l as int, best_r as int, l as int, r as int) || (best_l == 0 && best_r == 1),
                forall|a: int, b: int|
                    0 <= a < b < n && pair_before(a, b, l as int, r as int) ==> best <= #[trigger] sep(d, items@, a, b),
                forall|a: int, b: int|
                    0 <= a < b < n && pair_before(a, b, l as int, r as int) && pair_before(
                        a,
                        b,
                        best_l as int,
                        best_r as int,
                    ) ==> best < #[trigger] sep(d, items@, a, b),
            decreases n - r,
        {
            proof {
                assert(items@[l as int] < d.len());
                assert(items@[r as int] < d.len());
                assert(d[items@[l as int] as int] == ranks@[items@[l as int] as int]@);
            }
            let candidate = ranks[items[l]][items[r]];
            if candidate < best {
                best = candidate;
                best_l = l;
                best_r = r;
            }
            r = r + 1;
        }
        l = l + 1;
    }
    proof {
        assert(first_closest_pair(d, items@, best_l as int, best_r as int));
        let (cl, cr) = choose|a: int, b: int| first_closest_pair(d, items@, a, b);
        lemma_first_closest_unique(d, items@, best_l as int, best_r as int, cl, cr);
    }
    let ghost target = likeness_chain(d, items@);
    let mut chain: Vec<usize> = Vec::new();
    chain.push(best_l);
    chain.push(best_r);
    let mut unused: Vec<usize> = Vec::new();
    let mut i: usize = 0;
    while i < n
        invariant
            n == items@.len(),
            i <= n,
            0 <= best_l < best_r < n,
            ints(unused@) == others(i as int, best_l as int, best_r as int),
            forall|j: int, k: int| 0 <= j < k < unused@.len() ==> unused@[j] < unused@[k],
            forall|k: int|
                0 <= k < unused@.len() ==> (#[trigger] unused@[k]) < i && unused@[k] != best_l && unused@[k]
                    != best_r,
            unused@.len() + (if best_l < i { 1int } else { 0 }) + (if best_r < i { 1int } else { 0 }) == i,
        decreases n - i,
    {
        let ghost prev = unused@;
        proof {
            assert(Seq::new((i + 1) as nat, |j: int| j) =~= Seq::new(i as nat, |j: int| j).push(i as int));
            Seq::new(i as nat, |j: int| j).lemma_filter_push(i as int, outside_pair(best_l as int, best_r as int));
        }
        if i != best_l && i != best_r {
            unused.push(i);
            proof {
                assert(ints(unused@) =~= ints(prev).push(i as int));
            }
        }
        proof {
            assert(ints(unused@) =~= others(i + 1, best_l as int, best_r as int));
        }
        i = i + 1;
    }
    proof {
        assert(target == grown(d, items@, ints(chain@), ints(unused@))) by {
            assert(ints(chain@) =~= seq![best_l as int, best_r as int]);
        }
    }
    while unused.len() > 0
        invariant
            d == rank_rows(ranks@),
            is_square(d, ranks@.len() as int),
            items_in(d, items@),
            n == items@.len(),
            grown(d, items@, ints(chain@), ints(unused@)) == target,
            chain@.len() >= 2,
            chain@.len() + unused@.len() == n,
            forall|k: int| 0 <= k < chain@.len() ==> (#[trigger] chain@[k]) < n,
            forall|k: int| 0 <= k < unused@.len() ==> (#[trigger] unused@[k]) < n,
            distinct(chain@),
            distinct(unused@),
            forall|j: int, k: int| 0 <= j < chain@.len() && 0 <= k < unused@.len() ==> chain@[j] != unused@[k],
        decreases unused@.len(),
    {
        let ghost cs = ints(chain@);
        let ghost us = ints(unused@);
        let first = chain[0];
        let last = chain[chain.len() - 1];
        proof {
            assert(chain_end(cs, true) == first && chain_end(cs, false) == last);
            assert(items@[first as int] < d.len() && items@[last as int] < d.len());
        }
        let mut bp: usize = 0;
        let mut bf: bool = true;
        proof {
            assert(items@[unused@[0] as int] < d.len());
            assert(d[items@[unused@[0] as int] as int] == ranks@[items@[unused@[0] as int] as int]@);
        }
        let mut brank = ranks[items[unused[0]]][items[first]];
        let mut q: usize = 0;
        while q < unused.len()
            invariant
                d == rank_rows(ranks@),
                is_square(d, ranks@.len() as int),
                items_in(d, items@),
                n == items@.len(),
                cs == ints(chain@),
                us == ints(unused@),
                chain@.len() >= 2,
                first == chain@[0],
                last == chain@[chain@.len() - 1],
                first < n,
                last < n,
                forall|k: int| 0 <= k < unused@.len() ==> (#[trigger] unused@[k]) < n,
                q <= unused@.len(),
                0 <= bp < unused@.len(),
                bp < q || (bp == 0 && bf),
                brank as int == step_rank(d, items@, cs, us, bp as int, bf),
                forall|p: int, f: bool| 0 <= p < q ==> brank <= #[trigger] step_rank(d, items@, cs, us, p, f),
                forall|p: int, f: bool|
                    0 <= p < q && step_before(p, f, bp as int, bf) ==> brank < #[trigger] step_rank(
                        d,
                        items@,
                        cs,
                        us,
                        p,
                        f,
                    ),
            decreases unused@.len() - q,
        {
            let x = unused[q];
            proof {
                assert(items@[x as int] < d.len());
                assert(d[items@[x as int] as int] == ranks@[items@[x as int] as int]@);
                assert(step_rank(d, items@, cs, us, q as int, true) == d[items@[x as int] as int][items@[first as int] as int]);
                assert(step_rank(d, items@, cs, us, q as int, false) == d[items@[x as int] as int][items@[last as int] as int]);
            }
            let at_front = ranks[items[x]][items[first]];
            if at_front < brank {
                bp = q;
                bf = true;
                brank = at_front;
            }
            let at_back = ranks[items[x]][items[last]];
            if at_back < brank {
                bp = q;
                bf = false;
                brank = at_back;
            }
            q = q + 1;
        }
        proof {
            assert(first_best_step(d, items@, cs, us, bp as int, bf));
            let (cp, cf) = choose|p: int, f: bool| first_best_step(d, items@, cs, us, p, f);
            lemma_first_best_unique(d, items@, cs, us, bp as int, bf, cp, cf);
        }
        let ghost old_chain = chain@;
        let ghost old_unused = unused@;
        let x = unused.swap_remove(bp);
        if bf {
            chain.insert(0, x);
        } else {
            chain.push(x);
        }
        proof {
            assert(ints(unused@) =~= swap_removed(us, bp as int));
            if bf {
                assert(ints(chain@) =~= seq![x as int] + cs);
            } else {
                assert(ints(chain@) =~= cs.push(x as int));
            }
            assert forall|k: int| 0 <= k < unused@.len() implies (#[trigger] unused@[k]) < n && unused@[k] != x by {
                if k == bp {
                    assert(unused@[k] == old_unused[old_unused.len() - 1]);
                } else {
                    assert(unused@[k] == old_unused[k]);
                }
            }
            assert forall|j: int, k: int| 0 <= j < k < unused@.len() implies unused@[j] != unused@[k] by {
                let jj = if j == bp { old_unused.len() - 1 } else { j };
                let kk = if k == bp { old_unused.len() - 1 } else { k };
                assert(unused@[j] == old_unused[jj]);
                assert(unused@[k] == old_unused[kk]);
            }
            assert forall|j: int, k: int|
                0 <= j < chain@.len() && 0 <= k < unused@.len() implies chain@[j] != unused@[k] by {
                let kk = if k == bp { old_unused.len() - 1 } else { k };
                assert(unused@[k] == old_unused[kk]);
                if bf {
                    if j > 0 {
                        assert(chain@[j] == old_chain[j - 1]);
                    }
                } else {
                    if j < old_chain.len() {
                        assert(chain@[j] == old_chain[j]);
                    }
                }
            }
            assert forall|j: int, k: int| 0 <= j < k < chain@.len() implies chain@[j] != chain@[k] by {
                if bf {
                    if j > 0 {
                        assert(chain@[j] == old_chain[j - 1]);
                        assert(chain@[k] == old_chain[k - 1]);
                    } else {
                        assert(chain@[k] == old_chain[k - 1]);
                        assert(old_unused[bp as int] == x);
                    }
                } else {
                    assert(chain@[j] == old_chain[j]);
                    if k < old_chain.len() {
                        assert(chain@[k] == old_chain[k]);
                    } else {
                        assert(old_unused[bp as int] == x);
                    }
                }
            }
            assert forall|k: int| 0 <= k < chain@.len() implies (#[trigger] chain@[k]) < n by {
                if bf {
                    if k > 0 {
                        assert(chain@[k] == old_chain[k - 1]);
                    }
                } else if k < old_chain.len() {
                    assert(chain@[k] == old_chain[k]);
                }
            }
        }
    }
    proof {
        assert(ints(chain@) == target);
        assert forall|k: int| 0 <= k < chain@.len() implies (#[trigger] chain@[k]) < items@.len() by {}
    }
    chain
}


/// Seen from image `left`, image `a` is nearer than image `b`: a smaller rank, or the
/// same rank and a smaller index.
pub open spec fn nearer(d: Seq<Seq<u64>>, left: int, a: int, b: int) -> bool {
    d[left][a] < d[left][b] || (d[left][a] == d[left][b] && a < b)
}

/// How many nearest images each image keeps: four, or all the others where there are
/// fewer.
pub open spec fn kept(n: int) -> int {
    if n - 1 < 4 {
        n - 1
    } else {
        4
    }
}

/// `row` lists the images nearest to `left`, nearest first: as many as are kept, none
/// of them `left`, and each nearer than every other image left out.
pub open spec fn nearest_of(d: Seq<Seq<u64>>, left: int, row: Seq<int>) -> bool {
    let n = d.len() as int;
    &&& row.len() == kept(n)
    &&& forall|k: int| 0 <= k < row.len() ==> 0 <= #[trigger] row[k] < n && row[k] != left
    &&& forall|j: int, k: int| 0 <= j < k < row.len() ==> nearer(d, left, #[trigger] row[j], #[trigger] row[k])
    &&& forall|x: int, k: int|
        0 <= x < n && x != left && !row.contains(x) && 0 <= k < row.len() ==> #[trigger] nearer(d, left, row[k], x)
}

/// The indices of a row of neighbours.
pub open spec fn neighbour_indices(row: Seq<Neighbour>) -> Seq<int> {
    row.map_values(|nb: Neighbour| nb.index as int)
}

/// Each image's nearest images, nearest first, each with the flags that say whether
/// it is close to the image (`close[left][index]`) or near it (`near[left][index]`).
pub fn nearest_neighbours(ranks: &Vec<Vec<u64>>, close: &Vec<Vec<bool>>, near: &Vec<Vec<bool>>) -> (r: Vec<Vec<Neighbour>>)
    requires
        is_square(rank_rows(ranks@), ranks@.len() as int),
        close@.len() == ranks@.len(),
        near@.len() == ranks@.len(),
        forall|i: int| 0 <= i < ranks@.len() ==> (#[trigger] close@[i])@.len() == ranks@.len() && near@[i]@.len() == ranks@.len(),
    ensures
        r@.len() == ranks@.len(),
        forall|left: int|
            0 <= left < r@.len() ==> nearest_of(rank_rows(ranks@), left, neighbour_indices(#[trigger] r@[left]@)),
        forall|left: int, k: int|
            0 <= left < r@.len() && 0 <= k < r@[left]@.len() ==> (#[trigger] r@[left]@[k]).close
                == close@[left]@[r@[left]@[k].index as int] && r@[left]@[k].near == near@[left]@[r@[left]@[k].index as int],
{
    let ghost d = rank_rows(ranks@);
    let n = ranks.len();
    let mut r: Vec<Vec<Neighbour>> = Vec::new();
    let mut left: usize = 0;
    assert forall|i: int| 0 <= i < n implies (#[trigger] close@[i])@.len() == n && near@[i]@.len() == n by {
        assert(0 <= i < ranks@.len());
        assert(close@[i]@.len() == ranks@.len());
    }
    while left < n
        invariant
            d == rank_rows(ranks@),
            is_square(d, n as int),
            n == ranks@.len(),
            close@.len() == n,
            near@.len() == n,
            forall|i: int| 0 <= i < n ==> (#[trigger] close@[i])@.len() == n && near@[i]@.len() == n,
            left <= n,
            r@.len() == left,
            forall|i: int| 0 <= i < left ==> nearest_of(d, i, neighbour_indices(#[trigger] r@[i]@)),
            forall|i: int, k: int|
                0 <= i < left && 0 <= k < r@[i]@.len() ==> (#[trigger] r@[i]@[k]).close == close@[i]@[r@[i]@[k].index as int]
                    && r@[i]@[k].near == near@[i]@[r@[i]@[k].index as int],
        decreases n - left,
    {
        let row = nearest_row(ranks, close, near, left);
        r.push(row);
        left = left + 1;
    }
    r
}

fn nearest_row(ranks: &Vec<Vec<u64>>, close: &Vec<Vec<bool>>, near: &Vec<Vec<bool>>, left: usize) -> (row: Vec<Neighbour>)
    requires
        is_square(rank_rows(ranks@), ranks@.len() as int),
        left < ranks@.len(),
        close@.len() == ranks@.len(),
        near@.len() == ranks@.len(),
        forall|i: int| 0 <= i < ranks@.len() ==> (#[trigger] close@[i])@.len() == ranks@.len() && near@[i]@.len() == ranks@.len(),
    ensures
        nearest_of(rank_rows(ranks@), left as int, neighbour_indices(row@)),
        forall|k: int|
            0 <= k < row@.len() ==> (#[trigger] row@[k]).close == close@[left as int]@[row@[k].index as int]
                && row@[k].near == near@[left as int]@[row@[k].index as int],
{
    let ghost d = rank_rows(ranks@);
    let n = ranks.len();
    let ranks_row = &ranks[left];
    proof {
        assert(d[left as int] == ranks_row@);
    }
    let count: usize = if n - 1 < 4 { n - 1 } else { 4 };
    let mut taken: Vec<bool> = Vec::new();
    let mut t: usize = 0;
    while t < n
        invariant
            t <= n,
            taken@.len() == t,
            forall|k: int| 0 <= k < t ==> !(#[trigger] taken@[k]),
        decreases n - t,
    {
        taken.push(false);
        t = t + 1;
    }
    let mut row: Vec<Neighbour> = Vec::new();
    while row.len() < count
        invariant
            d == rank_rows(ranks@),
            is_square(d, n as int),
            n == ranks@.len(),
            left < n,
            ranks_row@ == d[left as int],
            close@.len() == n,
            near@.len() == n,
            forall|i: int| 0 <= i < n ==> (#[trigger] close@[i])@.len() == n && near@[i]@.len() == n,
            count == kept(n as int),
            row@.len() <= count,
            taken@.len() == n,
            forall|x: int| 0 <= x < n ==> (#[trigger] taken@[x] <==> neighbour_indices(row@).contains(x)),
            forall|k: int| 0 <= k < row@.len() ==> 0 <= (#[trigger] row@[k]).index < n && row@[k].index != left,
            forall|j: int, k: int|
                0 <= j < k < row@.len() ==> nearer(d, left as int, (#[trigger] row@[j]).index as int, (#[trigger] row@[k]).index as int),
            forall|x: int, k: int|
                #![trigger taken@[x], row@[k]]
                0 <= x < n && x != left && !taken@[x] && 0 <= k < row@.len() ==> nearer(
                    d,
                    left as int,
                    row@[k].index as int,
                    x,
                ),
            forall|k: int|
                0 <= k < row@.len() ==> (#[trigger] row@[k]).close == close@[left as int]@[row@[k].index as int]
                    && row@[k].near == near@[left as int]@[row@[k].index as int],
        decreases count - row@.len(),
    {
        // The nearest image not taken yet.
        let mut best: usize = n;
        let mut j: usize = 0;
        while j < n
            invariant
                d == rank_rows(ranks@),
                n == ranks@.len(),
                left < n,
                ranks_row@ == d[left as int],
                ranks_row@.len() == n,
                taken@.len() == n,
                j <= n,
                best == n || (best < j && best != left && !taken@[best as int]),
                best == n ==> forall|x: int| 0 <= x < j && x != left ==> #[trigger] taken@[x],
                best < n ==> forall|x: int|
                    0 <= x < j && x != left && !taken@[x] && x != best ==> nearer(d, left as int, best as int, x),
            decreases n - j,
        {
            if j != left && !taken[j] {
                if best == n || ranks_row[j] < ranks_row[best] {
                    best = j;
                }
            }
            j = j + 1;
        }
        proof {
            // Fewer images are taken than there are others, so one is left.
            if best == n {
                let others_taken = neighbour_indices(row@);
                assert forall|x: int| 0 <= x < n && x != left implies others_taken.contains(x) by {
                    assert(taken@[x]);
                }
                lemma_covering_row_long(others_taken, n as int, left as int);
                assert(false);
            }
        }
        let ghost prev = row@;
        let ghost old_taken = taken@;
        let nb = Neighbour { index: best, close: close[left][best], near: near[left][best] };
        row.push(nb);
        taken.set(best, true);
        proof {
            assert(neighbour_indices(row@) =~= neighbour_indices(prev).push(best as int));
            assert forall|x: int| 0 <= x < n implies (#[trigger] taken@[x] <==> neighbour_indices(row@).contains(x)) by {
                if x == best {
                    assert(neighbour_indices(row@)[prev.len() as int] == x);
                } else {
                    if neighbour_indices(row@).contains(x) {
                        let k = choose|k: int| 0 <= k < neighbour_indices(row@).len() && neighbour_indices(row@)[k] == x;
                        assert(k < prev.len());
                        assert(neighbour_indices(prev)[k] == x);
                    }
                    if neighbour_indices(prev).contains(x) {
                        let k = choose|k: int| 0 <= k < neighbour_indices(prev).len() && neighbour_indices(prev)[k] == x;
                        assert(neighbour_indices(row@)[k] == x);
                    }
                }
            }
            assert forall|j2: int, k: int| 0 <= j2 < k < row@.len() implies nearer(
                d,
                left as int,
                (#[trigger] row@[j2]).index as int,
                (#[trigger] row@[k]).index as int,
            ) by {
                if k == prev.len() {
                    assert(row@[j2] == prev[j2]);
                    assert(!old_taken[best as int]);
                    assert(nearer(d, left as int, prev[j2].index as int, best as int));
                } else {
                    assert(row@[j2] == prev[j2]);
                    assert(row@[k] == prev[k]);
                }
            }
        }
    }
    proof {
        let idx = neighbour_indices(row@);
        assert forall|x: int, k: int|
            0 <= x < n && x != left && !idx.contains(x) && 0 <= k < idx.len() implies #[trigger] nearer(
            d,
            left as int,
            idx[k],
            x,
        ) by {
            assert(!taken@[x]);
            assert(idx[k] == row@[k].index as int);
        }
    }
    row
}

/// A list that holds every image but `left` is at least `n - 1` long.
proof fn lemma_covering_row_long(row: Seq<int>, n: int, left: int)
    requires
        0 <= left < n,
        forall|x: int| 0 <= x < n && x != left ==> row.contains(x),
    ensures
        row.len() >= n - 1,
{
    let s = Set::new(|x: int| 0 <= x < n && x != left);
    assert(s =~= Set::new(|x: int| 0 <= x < n).remove(left));
    vstd::set_lib::lemma_int_range(0, n);
    assert(Set::new(|x: int| 0 <= x < n) =~= vstd::set_lib::set_int_range(0, n));
    assert(s.subset_of(row.to_set()));
    vstd::set_lib::lemma_len_subset(s, row.to_set());
    row.lemma_cardinality_of_set();
}

/// The images of the groups `groups` in likeness order: the groups chained by their
/// representatives `medoids`, and each group's images chained in turn.
pub open spec fn grouped_likeness_order(d: Seq<Seq<u64>>, groups: Seq<Seq<usize>>, medoids: Seq<usize>) -> Seq<usize> {
    likeness_chain(d, medoids).map_values(
        |c: int| likeness_chain(d, groups[c]).map_values(|k: int| groups[c][k]),
    ).flatten()
}

/// The groups' rows as plain values.
pub open spec fn group_rows(groups: Seq<Vec<usize>>) -> Seq<Seq<usize>> {
    groups.map_values(|g: Vec<usize>| g@)
}

/// No image is in two groups, nor twice in one.
pub open spec fn groups_apart(groups: Seq<Seq<usize>>) -> bool {
    forall|c: int, j: int, d: int, k: int|
        0 <= c < groups.len() && 0 <= d < groups.len() && 0 <= j < groups[c].len() && 0 <= k < groups[d].len()
            && (c != d || j != k) ==> #[trigger] groups[c][j] != #[trigger] groups[d][k]
}

/// `x` is an image of one of the groups that `order` names first, before `upto`.
pub open spec fn in_groups_upto(gs: Seq<Seq<usize>>, order: Seq<usize>, upto: int, x: usize) -> bool {
    exists|a: int, j: int| 0 <= a < upto && 0 <= j < gs[order[a] as int].len() && gs[order[a] as int][j] == x
}

/// Some entry of `v` is `x`.
pub open spec fn has_value(v: Seq<usize>, x: int) -> bool {
    exists|k: int| 0 <= k < v.len() && v[k] == x
}

/// `n` distinct entries below `n` take every value below `n`.
proof fn lemma_covers(v: Seq<usize>, n: int)
    requires
        v.len() == n,
        forall|k: int| 0 <= k < n ==> #[trigger] v[k] < n,
        distinct(v),
    ensures
        forall|x: int| 0 <= x < n ==> #[trigger] has_value(v, x),
{
    let w = ints(v);
    assert(w.no_duplicates()) by {
        assert forall|a: int, b: int| 0 <= a < w.len() && 0 <= b < w.len() && a != b implies w[a] != w[b] by {
            if a < b {
                assert(v[a] != v[b]);
            } else {
                assert(v[b] != v[a]);
            }
        }
    }
    w.unique_seq_to_set();
    let range = vstd::set_lib::set_int_range(0, n);
    vstd::set_lib::lemma_int_range(0, n);
    assert(w.to_set().subset_of(range)) by {
        assert forall|x: int| w.to_set().contains(x) implies range.contains(x) by {
            let k = choose|k: int| 0 <= k < w.len() && w[k] == x;
            assert(v[k] < n);
        }
    }
    vstd::seq_lib::seq_to_set_is_finite(w);
    vstd::set_lib::lemma_subset_equality(w.to_set(), range);
    assert forall|x: int| 0 <= x < n implies #[trigger] has_value(v, x) by {
        assert(range.contains(x));
        assert(w.to_set().contains(x));
        let k = choose|k: int| 0 <= k < w.len() && w[k] == x;
        assert(v[k] == x);
    }
}

/// The images of `groups` in likeness order: the groups in the likeness chain of their
/// representatives `medoids`, one image of each group, and the images of each group
/// in their own likeness chain. Every image of every group comes out, nothing else,
/// and, where no image is in two groups, each just once.
pub fn grouped_order(ranks: &Vec<Vec<u64>>, groups: &Vec<Vec<usize>>, medoids: &Vec<usize>) -> (r: Vec<usize>)
    requires
        is_square(rank_rows(ranks@), ranks@.len() as int),
        medoids@.len() == groups@.len(),
        items_in(rank_rows(ranks@), medoids@),
        forall|c: int| 0 <= c < groups@.len() ==> items_in(rank_rows(ranks@), #[trigger] groups@[c]@),
    ensures
        r@ == grouped_likeness_order(rank_rows(ranks@), group_rows(groups@), medoids@),
        forall|c: int, j: int|
            0 <= c < groups@.len() && 0 <= j < groups@[c]@.len() ==> r@.contains(#[trigger] groups@[c]@[j]),
        forall|t: int|
            0 <= t < r@.len() ==> exists|c: int, j: int|
                0 <= c < groups@.len() && 0 <= j < groups@[c]@.len() && groups@[c]@[j] == #[trigger] r@[t],
        groups_apart(group_rows(groups@)) ==> distinct(r@),
{
    let ghost d = rank_rows(ranks@);
    let ghost gs = group_rows(groups@);
    let ghost parts = likeness_chain(d, medoids@).map_values(
        |c: int| likeness_chain(d, gs[c]).map_values(|k: int| gs[c][k]),
    );
    let order = likeness_chain_of(ranks, medoids);
    proof {
        lemma_covers(order@, medoids@.len() as int);
    }
    let mut r: Vec<usize> = Vec::new();
    let mut i: usize = 0;
    while i < order.len()
        invariant
            d == rank_rows(ranks@),
            gs == group_rows(groups@),
            gs.len() == groups@.len(),
            forall|c: int| 0 <= c < groups@.len() ==> #[trigger] gs[c] == groups@[c]@,
            is_square(d, ranks@.len() as int),
            forall|c: int| 0 <= c < groups@.len() ==> items_in(d, #[trigger] groups@[c]@),
            order@.map_values(|x: usize| x as int) == likeness_chain(d, medoids@),
            order@.len() == medoids@.len(),
            medoids@.len() == groups@.len(),
            forall|k: int| 0 <= k < order@.len() ==> (#[trigger] order@[k]) < medoids@.len(),
            distinct(order@),
            parts == likeness_chain(d, medoids@).map_values(
                |c: int| likeness_chain(d, gs[c]).map_values(|k: int| gs[c][k]),
            ),
            i <= order@.len(),
            r@ == parts.take(i as int).flatten_alt(),
            forall|a: int, j: int|
                0 <= a < i && 0 <= j < gs[order@[a] as int].len() ==> r@.contains(#[trigger] gs[order@[a] as int][j]),
            forall|t: int| 0 <= t < r@.len() ==> in_groups_upto(gs, order@, i as int, #[trigger] r@[t]),
            groups_apart(gs) ==> distinct(r@),
        decreases order@.len() - i,
    {
        let c = order[i];
        let group = &groups[c];
        proof {
            assert(gs[c as int] == group@);
        }
        let within = likeness_chain_of(ranks, group);
        proof {
            lemma_covers(within@, group@.len() as int);
        }
        let mut k: usize = 0;
        let ghost start = r@;
        let ghost part = likeness_chain(d, gs[c as int]).map_values(|k: int| gs[c as int][k]);
        proof {
            assert(parts[i as int] == part) by {
                assert(order@.map_values(|x: usize| x as int)[i as int] == c as int);
            }
        }
        while k < within.len()
            invariant
                within@.map_values(|x: usize| x as int) == likeness_chain(d, gs[c as int]),
                forall|j: int| 0 <= j < within@.len() ==> (#[trigger] within@[j]) < group@.len(),
                distinct(within@),
                within@.len() == group@.len(),
                gs[c as int] == group@,
                c == order@[i as int],
                c < gs.len(),
                gs.len() == groups@.len(),
                i < order@.len(),
                distinct(order@),
                part == likeness_chain(d, gs[c as int]).map_values(|k: int| gs[c as int][k]),
                k <= within@.len(),
                r@ == start + part.take(k as int),
                forall|j: int| 0 <= j < k ==> r@[start.len() + j] == group@[within@[j] as int],
                forall|t: int| 0 <= t < start.len() ==> in_groups_upto(gs, order@, i as int, #[trigger] start[t]),
                forall|q: int| 0 <= q < order@.len() ==> (#[trigger] order@[q]) < gs.len(),
                groups_apart(gs) ==> distinct(start),
                groups_apart(gs) ==> distinct(r@),
            decreases within@.len() - k,
        {
            let x = group[within[k]];
            proof {
                assert(within@.map_values(|x: usize| x as int)[k as int] == within@[k as int] as int);
                assert(part[k as int] == x);
            }
            let ghost prev = r@;
            r.push(x);
            proof {
                assert(part.take(k + 1) =~= part.take(k as int).push(x));
                if groups_apart(gs) {
                    assert forall|a: int, b: int| 0 <= a < b < r@.len() implies r@[a] != r@[b] by {
                        if b == prev.len() {
                            if a < start.len() {
                                assert(in_groups_upto(gs, order@, i as int, start[a]));
                                let (a2, j2) = choose|a2: int, j2: int|
                                    0 <= a2 < i && 0 <= j2 < gs[order@[a2] as int].len() && gs[order@[a2] as int][j2]
                                        == start[a];
                                assert(order@[a2] != order@[i as int]);
                                assert(r@[a] == start[a]);
                                assert(gs[order@[a2] as int][j2] != gs[c as int][within@[k as int] as int]);
                            } else {
                                let ja = a - start.len();
                                assert(r@[a] == group@[within@[ja] as int]);
                                assert(within@[ja] != within@[k as int]);
                                assert(gs[c as int][within@[ja] as int] != gs[c as int][within@[k as int] as int]);
                            }
                        } else {
                            assert(r@[a] == prev[a] && r@[b] == prev[b]);
                        }
                    }
                }
            }
            k = k + 1;
        }
        proof {
            assert(part.take(k as int) =~= part);
            assert(parts.take(i + 1).drop_last() =~= parts.take(i as int));
            assert(r@ =~= parts.take(i + 1).flatten_alt());
            assert forall|a: int, j: int|
                0 <= a < i + 1 && 0 <= j < gs[order@[a] as int].len() implies r@.contains(#[trigger] gs[order@[a] as int][j]) by {
                if a < i {
                    let t = choose|t: int| 0 <= t < start.len() && start[t] == gs[order@[a] as int][j];
                    assert(r@[t] == start[t]);
                } else {
                    assert(has_value(within@, j));
                    let q = choose|q: int| 0 <= q < within@.len() && within@[q] == j;
                    assert(r@[start.len() + q] == group@[j]);
                }
            }
            assert forall|t: int| 0 <= t < r@.len() implies in_groups_upto(gs, order@, i + 1, #[trigger] r@[t]) by {
                if t < start.len() {
                    assert(r@[t] == start[t]);
                    assert(in_groups_upto(gs, order@, i as int, start[t]));
                    let (a2, j2) = choose|a2: int, j2: int|
                        0 <= a2 < i && 0 <= j2 < gs[order@[a2] as int].len() && gs[order@[a2] as int][j2] == start[t];
                    assert(gs[order@[a2] as int][j2] == r@[t]);
                } else {
                    let q = t - start.len();
                    assert(r@[t] == group@[within@[q] as int]);
                    assert(gs[order@[i as int] as int][within@[q] as int] == r@[t]);
                }
            }
        }
        i = i + 1;
    }
    proof {
        assert(parts.take(i as int) =~= parts);
        parts.lemma_flatten_and_flatten_alt_are_equivalent();
        assert forall|c: int, j: int| 0 <= c < groups@.len() && 0 <= j < groups@[c]@.len() implies r@.contains(
            #[trigger] groups@[c]@[j],
        ) by {
            assert(has_value(order@, c));
            let a = choose|a: int| 0 <= a < order@.len() && order@[a] == c;
            assert(gs[order@[a] as int][j] == groups@[c]@[j]);
        }
        assert forall|t: int| 0 <= t < r@.len() implies exists|c: int, j: int|
            0 <= c < groups@.len() && 0 <= j < groups@[c]@.len() && groups@[c]@[j] == #[trigger] r@[t] by {
            assert(in_groups_upto(gs, order@, i as int, r@[t]));
            let (a, j) = choose|a: int, j: int|
                0 <= a < i && 0 <= j < gs[order@[a] as int].len() && gs[order@[a] as int][j] == r@[t];
            assert(groups@[order@[a] as int]@[j] == r@[t]);
        }
    }
    r
}

/// The likeness groups: each image's nearest images, and the groups they link, listed
/// by rising index, the groups in the order of their least index.
pub fn likeness_groups(ranks: &Vec<Vec<u64>>, close: &Vec<Vec<bool>>, near: &Vec<Vec<bool>>) -> (r: (
    Vec<Vec<Neighbour>>,
    Vec<Vec<usize>>,
))
    requires
        is_square(rank_rows(ranks@), ranks@.len() as int),
        close@.len() == ranks@.len(),
        near@.len() == ranks@.len(),
        forall|i: int| 0 <= i < ranks@.len() ==> (#[trigger] close@[i])@.len() == ranks@.len() && near@[i]@.len() == ranks@.len(),
    ensures
        r.0@.len() == ranks@.len(),
        forall|left: int|
            0 <= left < r.0@.len() ==> nearest_of(rank_rows(ranks@), left, neighbour_indices(#[trigger] r.0@[left]@)),
        forall|left: int, k: int|
            0 <= left < r.0@.len() && 0 <= k < r.0@[left]@.len() ==> (#[trigger] r.0@[left]@[k]).close
                == close@[left]@[r.0@[left]@[k].index as int] && r.0@[left]@[k].near == near@[left]@[r.0@[left]@[k].index as int],
        lists_groups(
            group_rows(r.1@),
            merge_all(
                singletons(ranks@.len()),
                joins(r.0@.map_values(|v: Vec<Neighbour>| v@), ranks@.len() as int),
            ),
            ranks@.len() as int,
        ),
{
    let nearest = nearest_neighbours(ranks, close, near);
    proof {
        let ns = nearest@.map_values(|v: Vec<Neighbour>| v@);
        assert forall|i: int, k: int| 0 <= i < ns.len() && 0 <= k < ns[i].len() implies (#[trigger] ns[i][k]).index
            < ns.len() by {
            assert(nearest_of(rank_rows(ranks@), i, neighbour_indices(nearest@[i]@)));
            assert(neighbour_indices(nearest@[i]@)[k] == ns[i][k].index as int);
        }
    }
    let mut groups = link_neighbours(&nearest);
    let lists = group_lists(&mut groups);
    proof {
        assert(group_rows(lists@) =~= lists@.map_values(|v: Vec<usize>| v@));
    }
    (nearest, lists)
}

} // verus!
