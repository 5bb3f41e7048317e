//! Grouping images that look alike: a union-find forest over image indices, the links
//! between close neighbours, and the groups listed in order.
use vstd::prelude::*;

verus! {

/// Disjoint groups of the indices `0..n`, each named by a representative.
pub struct Groups {
    parent: Vec<usize>,
    rank: Ghost<Seq<nat>>,
    bound: Ghost<nat>,
    roots: Ghost<Seq<int>>,
}

/// The groups after the group of `b` is merged into the group of `a`.
pub open spec fn merge(g: Seq<int>, a: int, b: int) -> Seq<int> {
    Seq::new(g.len(), |k: int| if g[k] == g[b] { g[a] } else { g[k] })
}

impl View for Groups {
    /// The representative of each index.
    type V = Seq<int>;

    closed spec fn view(&self) -> Seq<int> {
        self.roots@
    }
}

impl Groups {
    /// The forest is sound: parents stay in range, ranks grow towards the roots and
    /// every index knows the root of its tree.
    pub closed spec fn wf(&self) -> bool {
        let n = self.parent@.len();
        &&& self.rank@.len() == n
        &&& self.roots@.len() == n
        &&& forall|i: int| 0 <= i < n ==> #[trigger] self.parent@[i] < n
        &&& forall|i: int| 0 <= i < n ==> #[trigger] self.rank@[i] < self.bound@
        &&& forall|i: int|
            0 <= i < n && #[trigger] self.parent@[i] != i ==> self.rank@[i] < self.rank@[self.parent@[i] as int]
        &&& forall|i: int| 0 <= i < n ==> 0 <= #[trigger] self.roots@[i] < n
        &&& forall|i: int| 0 <= i < n ==> self.parent@[#[trigger] self.roots@[i]] == self.roots@[i]
        &&& forall|i: int| 0 <= i < n && #[trigger] self.parent@[i] == i ==> self.roots@[i] == i
        &&& forall|i: int| 0 <= i < n ==> self.roots@[#[trigger] self.parent@[i] as int] == self.roots@[i]
    }

    /// How far `i` is from the top of the forest, which shrinks towards the roots.
    pub closed spec fn height(&self, i: int) -> int {
        self.bound@ - self.rank@[i]
    }

    /// The ranks of the indices and their bound, which shortening paths leaves alone.
    pub closed spec fn shape(&self) -> (Seq<nat>, nat) {
        (self.rank@, self.bound@)
    }

    /// How many indices are grouped.
    pub closed spec fn size(&self) -> nat {
        self.parent@.len()
    }

    /// Every index alone in its own group.
    pub fn new(size: usize) -> (r: Self)
        ensures
            r.wf(),
            r.size() == size,
            r@.len() == size,
            forall|i: int| 0 <= i < size ==> r@[i] == i,
    {
        let mut parent: Vec<usize> = Vec::new();
        let mut i: usize = 0;
        while i < size
            invariant
                i <= size,
                parent@.len() == i,
                forall|j: int| 0 <= j < i ==> parent@[j] == j,
            decreases size - i,
        {
            parent.push(i);
            i = i + 1;
        }
        let r = Groups {
            parent,
            rank: Ghost(Seq::new(size as nat, |i: int| 0nat)),
            bound: Ghost(1),
            roots: Ghost(Seq::new(size as nat, |i: int| i)),
        };
        r
    }

    proof fn lemma_rank_below_root(&self, i: int)
        requires
            self.wf(),
            0 <= i < self.size(),
            self.parent@[i] != i,
        ensures
            self.rank@[i] < self.rank@[self.roots@[i]],
            self.roots@[i] != i,
        decreases self.bound@ - self.rank@[i],
    {
        let p = self.parent@[i] as int;
        if self.parent@[p] != p {
            self.lemma_rank_below_root(p);
        }
    }

    /// The representative of `index`; the path to it is shortened on the way.
    pub fn root(&mut self, index: usize) -> (r: usize)
        requires
            old(self).wf(),
            index < old(self).size(),
        ensures
            final(self).wf(),
            final(self).size() == old(self).size(),
            final(self)@ == old(self)@,
            final(self).shape() == old(self).shape(),
            r == old(self)@[index as int],
        decreases old(self).height(index as int),
    {
        let p = self.parent[index];
        if p == index {
            return index;
        }
        proof {
            self.lemma_rank_below_root(index as int);
        }
        let r = self.root(p);
        self.parent.set(index, r);
        proof {
            let n = self.parent@.len();
            assert forall|i: int| 0 <= i < n implies #[trigger] self.parent@[i] < n by {}
            assert forall|i: int| 0 <= i < n && #[trigger] self.parent@[i] != i implies self.rank@[i]
                < self.rank@[self.parent@[i] as int] by {}
            assert forall|i: int| 0 <= i < n implies self.parent@[#[trigger] self.roots@[i]]
                == self.roots@[i] by {
                assert(self.roots@[i] != index as int);
            }
            assert forall|i: int| 0 <= i < n implies self.roots@[#[trigger] self.parent@[i] as int]
                == self.roots@[i] by {}
        }
        r
    }

    /// Merges the group of `right` into the group of `left`.
    pub fn join(&mut self, left: usize, right: usize)
        requires
            old(self).wf(),
            left < old(self).size(),
            right < old(self).size(),
        ensures
            final(self).wf(),
            final(self).size() == old(self).size(),
            final(self)@ == merge(old(self)@, left as int, right as int),
    {
        let ghost g = self@;
        let l = self.root(left);
        let r = self.root(right);
        if l == r {
            proof {
                assert(self@ =~= merge(g, left as int, right as int));
            }
            return;
        }
        self.parent.set(r, l);
        proof {
            let old_rank = self.rank@;
            let new_rank_l = if old_rank[l as int] > old_rank[r as int] {
                old_rank[l as int]
            } else {
                old_rank[r as int] + 1
            };
            self.rank@ = old_rank.update(l as int, new_rank_l);
            self.bound@ = self.bound@ + 1;
            self.roots@ = merge(g, left as int, right as int);
            let n = self.parent@.len();
            assert(g[l as int] == l && g[r as int] == r);
            assert forall|i: int| 0 <= i < n implies #[trigger] self.parent@[i] < n by {}
            assert forall|i: int| 0 <= i < n implies #[trigger] self.rank@[i] < self.bound@ by {}
            assert forall|i: int| 0 <= i < n && #[trigger] self.parent@[i] != i implies self.rank@[i]
                < self.rank@[self.parent@[i] as int] by {}
            assert forall|i: int| 0 <= i < n implies 0 <= #[trigger] self.roots@[i] < n by {}
            assert forall|i: int| 0 <= i < n implies self.parent@[#[trigger] self.roots@[i]]
                == self.roots@[i] by {}
            assert forall|i: int| 0 <= i < n && #[trigger] self.parent@[i] == i implies self.roots@[i]
                == i by {}
            assert forall|i: int| 0 <= i < n implies self.roots@[#[trigger] self.parent@[i] as int]
                == self.roots@[i] by {}
        }
    }
}

/// Joining two indices puts them together, and every pair together before stays
/// together; pairs are together afterwards only through the join.
pub proof fn law_join_merges(g: Seq<int>, a: int, b: int, x: int, y: int)
    requires
        0 <= a < g.len(),
        0 <= b < g.len(),
        0 <= x < g.len(),
        0 <= y < g.len(),
    ensures
        merge(g, a, b)[a] == merge(g, a, b)[b],
        (merge(g, a, b)[x] == merge(g, a, b)[y]) <==> (g[x] == g[y] || (g[x] == g[a] && g[y] == g[b]) || (
        g[x] == g[b] && g[y] == g[a])),
{
}

/// The groups listed as `comps`: each a rising list of the indices of one group,
/// different lists for different groups, every index in a list, and the lists in the
/// order of their least index. Only the indices below `upto` are listed.
pub open spec fn lists_groups(comps: Seq<Seq<usize>>, g: Seq<int>, upto: int) -> bool {
    &&& forall|c: int| 0 <= c < comps.len() ==> #[trigger] comps[c].len() > 0
    &&& forall|c: int, j: int| 0 <= c < comps.len() && 0 <= j < comps[c].len() ==> #[trigger] comps[c][j] < upto
    &&& forall|c: int, j: int, k: int|
        0 <= c < comps.len() && 0 <= j < k < comps[c].len() ==> #[trigger] comps[c][j] < #[trigger] comps[c][k]
    &&& forall|c: int, d: int| 0 <= c < d < comps.len() ==> #[trigger] comps[c][0] < #[trigger] comps[d][0]
    &&& forall|c: int, j: int|
        0 <= c < comps.len() && 0 <= j < comps[c].len() ==> g[#[trigger] comps[c][j] as int] == g[comps[c][0] as int]
    &&& forall|c: int, d: int|
        0 <= c < comps.len() && 0 <= d < comps.len() && c != d ==> g[#[trigger] comps[c][0] as int] != g[#[trigger] comps[d][0] as int]
    &&& forall|i: int| 0 <= i < upto ==> #[trigger] listed(comps, i)
}

/// Index `i` is in one of the lists.
pub open spec fn listed(comps: Seq<Seq<usize>>, i: int) -> bool {
    exists|c: int, j: int| 0 <= c < comps.len() && 0 <= j < comps[c].len() && #[trigger] comps[c][j] == i
}

/// Lists the groups: each as its indices in rising order, the groups in the order of
/// their least index.
pub fn group_lists(groups: &mut Groups) -> (r: Vec<Vec<usize>>)
    requires
        old(groups).wf(),
    ensures
        final(groups).wf(),
        final(groups)@ == old(groups)@,
        final(groups).size() == old(groups).size(),
        lists_groups(r@.map_values(|v: Vec<usize>| v@), old(groups)@, old(groups).size() as int),
{
    let ghost g = groups@;
    let n = groups.parent.len();
    let mut comps: Vec<Vec<usize>> = Vec::new();
    let mut reps: Vec<usize> = Vec::new();
    let mut i: usize = 0;
    proof {
        assert(comps@.map_values(|v: Vec<usize>| v@) =~= Seq::<Seq<usize>>::empty());
    }
    while i < n
        invariant
            groups.wf(),
            groups@ == g,
            groups.size() == n,
            g.len() == n,
            i <= n,
            reps@.len() == comps@.len(),
            forall|c: int| 0 <= c < comps@.len() ==> #[trigger] reps@[c] as int == g[comps@[c]@[0] as int],
            lists_groups(comps@.map_values(|v: Vec<usize>| v@), g, i as int),
        decreases n - i,
    {
        let ghost cs = comps@.map_values(|v: Vec<usize>| v@);
        let root = groups.root(i);
        let mut c: usize = 0;
        while c < reps.len()
            invariant
                c <= reps@.len(),
                reps@.len() == comps@.len(),
                forall|d: int| 0 <= d < c ==> reps@[d] != root,
            ensures
                c <= reps@.len(),
                forall|d: int| 0 <= d < c ==> reps@[d] != root,
                c < reps@.len() ==> reps@[c as int] == root,
            decreases reps@.len() - c,
        {
            if reps[c] == root {
                break;
            }
            c = c + 1;
        }
        if c < reps.len() {
            let mut list = comps.remove(c);
            list.push(i);
            comps.insert(c, list);
            proof {
                let ns = comps@.map_values(|v: Vec<usize>| v@);
                assert(ns =~= cs.update(c as int, cs[c as int].push(i)));
                assert forall|d: int| 0 <= d < ns.len() implies #[trigger] reps@[d] as int == g[ns[d][0] as int] by {
                    assert(ns[d][0] == cs[d][0]);
                }
                assert(lists_groups(ns, g, i + 1)) by {
                    assert forall|d: int, j: int, k: int|
                        0 <= d < ns.len() && 0 <= j < k < ns[d].len() implies #[trigger] ns[d][j] < #[trigger] ns[d][k] by {
                        if d == c as int && k == cs[d].len() {
                            assert(cs[d][j] < i);
                        }
                    }
                    assert forall|d: int, j: int|
                        0 <= d < ns.len() && 0 <= j < ns[d].len() implies g[#[trigger] ns[d][j] as int] == g[ns[d][0] as int] by {
                        if d == c as int && j == cs[d].len() {
                            assert(g[i as int] == root);
                        }
                    }
                    assert forall|x: int| 0 <= x < i + 1 implies #[trigger] listed(ns, x) by {
                        if x == i {
                            assert(ns[c as int][cs[c as int].len() as int] == x);
                        } else {
                            assert(listed(cs, x));
                            let (d, j) = choose|d: int, j: int| 0 <= d < cs.len() && 0 <= j < cs[d].len() && #[trigger] cs[d][j] == x;
                            assert(ns[d][j] == x);
                        }
                    }
                }
            }
        } else {
            let mut list: Vec<usize> = Vec::new();
            list.push(i);
            comps.push(list);
            reps.push(root);
            proof {
                let ns = comps@.map_values(|v: Vec<usize>| v@);
                assert(ns =~= cs.push(seq![i]));
                assert(lists_groups(ns, g, i + 1)) by {
                    assert forall|d: int, e: int|
                        0 <= d < ns.len() && 0 <= e < ns.len() && d != e implies g[#[trigger] ns[d][0] as int] != g[#[trigger] ns[e][0] as int] by {
                        if d == cs.len() {
                            assert(reps@[e] != root);
                        }
                        if e == cs.len() {
                            assert(reps@[d] != root);
                        }
                    }
                    assert forall|x: int| 0 <= x < i + 1 implies #[trigger] listed(ns, x) by {
                        if x == i {
                            assert(ns[cs.len() as int][0] == x);
                        } else {
                            assert(listed(cs, x));
                            let (d, j) = choose|d: int, j: int| 0 <= d < cs.len() && 0 <= j < cs[d].len() && #[trigger] cs[d][j] == x;
                            assert(ns[d][j] == x);
                        }
                    }
                }
            }
        }
        i = i + 1;
    }
    comps
}

/// One of the nearest images of an image: its index, and whether it is close enough
/// to be grouped with it at once (`close`) or when each is among the other's nearest
/// (`near`).
pub struct Neighbour {
    pub index: usize,
    pub close: bool,
    pub near: bool,
}

/// `left` is among the nearest images of `right`.
pub open spec fn is_mutual(nearest: Seq<Seq<Neighbour>>, left: int, right: int) -> bool {
    exists|k: int| 0 <= k < nearest[right].len() && (#[trigger] nearest[right][k]).index == left
}

/// Image `left` is grouped with its neighbour `nb`.
pub open spec fn links(nearest: Seq<Seq<Neighbour>>, left: int, nb: Neighbour) -> bool {
    nb.close || (nb.near && is_mutual(nearest, left, nb.index as int))
}

/// The joins made for the first `k` neighbours of `left`, in order.
pub open spec fn row_joins(nearest: Seq<Seq<Neighbour>>, left: int, k: int) -> Seq<(int, int)>
    decreases k,
{
    if k <= 0 {
        Seq::empty()
    } else {
        let earlier = row_joins(nearest, left, k - 1);
        let nb = nearest[left][k - 1];
        if links(nearest, left, nb) {
            earlier.push((left, nb.index as int))
        } else {
            earlier
        }
    }
}

/// The joins made for the images before `upto`, in order.
pub open spec fn joins(nearest: Seq<Seq<Neighbour>>, upto: int) -> Seq<(int, int)>
    decreases upto,
{
    if upto <= 0 {
        Seq::empty()
    } else {
        joins(nearest, upto - 1) + row_joins(nearest, upto - 1, nearest[upto - 1].len() as int)
    }
}

/// The groups after the joins `js`, one after the other.
pub open spec fn merge_all(g: Seq<int>, js: Seq<(int, int)>) -> Seq<int>
    decreases js.len(),
{
    if js.len() == 0 {
        g
    } else {
        merge(merge_all(g, js.drop_last()), js.last().0, js.last().1)
    }
}

/// Each index alone.
pub open spec fn singletons(n: nat) -> Seq<int> {
    Seq::new(n, |i: int| i)
}

/// The neighbour lists are well formed: one per image, naming images that exist.
pub open spec fn neighbours_in_range(nearest: Seq<Seq<Neighbour>>) -> bool {
    forall|i: int, k: int|
        0 <= i < nearest.len() && 0 <= k < nearest[i].len() ==> (#[trigger] nearest[i][k]).index < nearest.len()
}

fn mutual(nearest: &Vec<Vec<Neighbour>>, left: usize, right: usize) -> (r: bool)
    requires
        right < nearest@.len(),
    ensures
        r == is_mutual(nearest@.map_values(|v: Vec<Neighbour>| v@), left as int, right as int),
{
    let ghost ns = nearest@.map_values(|v: Vec<Neighbour>| v@);
    let row = &nearest[right];
    let mut k: usize = 0;
    while k < row.len()
        invariant
            ns == nearest@.map_values(|v: Vec<Neighbour>| v@),
            row@ == ns[right as int],
            k <= row@.len(),
            forall|j: int| 0 <= j < k ==> (#[trigger] ns[right as int][j]).index != left,
        decreases row@.len() - k,
    {
        if row[k].index == left {
            proof {
                assert(ns[right as int][k as int].index == left);
            }
            return true;
        }
        k = k + 1;
    }
    false
}

/// Groups the images: each image is joined with every neighbour it links to.
pub fn link_neighbours(nearest: &Vec<Vec<Neighbour>>) -> (r: Groups)
    requires
        neighbours_in_range(nearest@.map_values(|v: Vec<Neighbour>| v@)),
    ensures
        r.wf(),
        r.size() == nearest@.len(),
        r@ == merge_all(
            singletons(nearest@.len()),
            joins(nearest@.map_values(|v: Vec<Neighbour>| v@), nearest@.len() as int),
        ),
{
    let ghost ns = nearest@.map_values(|v: Vec<Neighbour>| v@);
    let n = nearest.len();
    let mut groups = Groups::new(n);
    proof {
        assert(groups@ =~= merge_all(singletons(n as nat), joins(ns, 0)));
    }
    let mut left: usize = 0;
    while left < n
        invariant
            ns == nearest@.map_values(|v: Vec<Neighbour>| v@),
            n == ns.len(),
            neighbours_in_range(ns),
            left <= n,
            groups.wf(),
            groups.size() == n,
            groups@ == merge_all(singletons(n as nat), joins(ns, left as int)),
        decreases n - left,
    {
        let row = &nearest[left];
        let mut k: usize = 0;
        proof {
            assert(joins(ns, left as int) + row_joins(ns, left as int, 0) =~= joins(ns, left as int));
        }
        while k < row.len()
            invariant
                ns == nearest@.map_values(|v: Vec<Neighbour>| v@),
                n == ns.len(),
                neighbours_in_range(ns),
                left < n,
                row@ == ns[left as int],
                k <= row@.len(),
                groups.wf(),
                groups.size() == n,
                groups@ == merge_all(
                    singletons(n as nat),
                    joins(ns, left as int) + row_joins(ns, left as int, k as int),
                ),
            decreases row@.len() - k,
        {
            let nb = &row[k];
            let ghost before = joins(ns, left as int) + row_joins(ns, left as int, k as int);
            proof {
                assert(ns[left as int][k as int] == *nb);
                assert(nb.index < n);
            }
            let linked = nb.close || (nb.near && mutual(nearest, left, nb.index));
            if linked {
                groups.join(left, nb.index);
                proof {
                    let after = joins(ns, left as int) + row_joins(ns, left as int, k + 1);
                    assert(after =~= before.push((left as int, nb.index as int)));
                    assert(after.drop_last() =~= before);
                }
            } else {
                proof {
                    assert(joins(ns, left as int) + row_joins(ns, left as int, k + 1) =~= before);
                }
            }
            k = k + 1;
        }
        left = left + 1;
    }
    groups
}

proof fn lemma_merge_keeps_together(g: Seq<int>, a: int, b: int, x: int, y: int)
    requires
        0 <= x < g.len(),
        0 <= y < g.len(),
        g[x] == g[y],
    ensures
        merge(g, a, b)[x] == merge(g, a, b)[y],
{
}

proof fn lemma_merge_all_len(g: Seq<int>, js: Seq<(int, int)>)
    ensures
        merge_all(g, js).len() == g.len(),
    decreases js.len(),
{
    if js.len() > 0 {
        lemma_merge_all_len(g, js.drop_last());
    }
}

proof fn lemma_joined_together(g: Seq<int>, js: Seq<(int, int)>, i: int)
    requires
        0 <= i < js.len(),
        forall|j: int| 0 <= j < js.len() ==> 0 <= (#[trigger] js[j]).0 < g.len() && 0 <= js[j].1 < g.len(),
    ensures
        merge_all(g, js)[js[i].0] == merge_all(g, js)[js[i].1],
    decreases js.len(),
{
    let last = js.len() - 1;
    lemma_merge_all_len(g, js.drop_last());
    if i < last {
        assert(js.drop_last()[i] == js[i]);
        lemma_joined_together(g, js.drop_last(), i);
        lemma_merge_keeps_together(merge_all(g, js.drop_last()), js[last].0, js[last].1, js[i].0, js[i].1);
    }
}

proof fn lemma_row_joins(nearest: Seq<Seq<Neighbour>>, left: int, k: int, j: int)
    requires
        0 <= left < nearest.len(),
        0 <= j < k <= nearest[left].len(),
        links(nearest, left, nearest[left][j]),
    ensures
        row_joins(nearest, left, k).contains((left, nearest[left][j].index as int)),
    decreases k,
{
    let r = row_joins(nearest, left, k);
    if j == k - 1 {
        assert(r[r.len() - 1] == (left, nearest[left][j].index as int));
    } else {
        lemma_row_joins(nearest, left, k - 1, j);
        let earlier = row_joins(nearest, left, k - 1);
        let w = choose|w: int| 0 <= w < earlier.len() && earlier[w] == (left, nearest[left][j].index as int);
        assert(r[w] == earlier[w]);
    }
}

proof fn lemma_joins_contain(nearest: Seq<Seq<Neighbour>>, upto: int, left: int, k: int)
    requires
        0 <= left < upto <= nearest.len(),
        0 <= k < nearest[left].len(),
        links(nearest, left, nearest[left][k]),
    ensures
        joins(nearest, upto).contains((left, nearest[left][k].index as int)),
    decreases upto,
{
    let pair = (left, nearest[left][k].index as int);
    let earlier = joins(nearest, upto - 1);
    let row = row_joins(nearest, upto - 1, nearest[upto - 1].len() as int);
    if left == upto - 1 {
        lemma_row_joins(nearest, left, nearest[left].len() as int, k);
        let w = choose|w: int| 0 <= w < row.len() && row[w] == pair;
        assert((earlier + row)[earlier.len() + w] == pair);
    } else {
        lemma_joins_contain(nearest, upto - 1, left, k);
        let w = choose|w: int| 0 <= w < earlier.len() && earlier[w] == pair;
        assert((earlier + row)[w] == pair);
    }
}

proof fn lemma_row_joins_in_range(nearest: Seq<Seq<Neighbour>>, left: int, k: int)
    requires
        neighbours_in_range(nearest),
        0 <= left < nearest.len(),
        0 <= k <= nearest[left].len(),
    ensures
        forall|j: int| 0 <= j < row_joins(nearest, left, k).len() ==> 0 <= (#[trigger] row_joins(nearest, left, k)[j]).0 < nearest.len()
            && 0 <= row_joins(nearest, left, k)[j].1 < nearest.len(),
    decreases k,
{
    if k > 0 {
        lemma_row_joins_in_range(nearest, left, k - 1);
        assert(nearest[left][k - 1].index < nearest.len());
        let earlier = row_joins(nearest, left, k - 1);
        let r = row_joins(nearest, left, k);
        assert forall|j: int| 0 <= j < r.len() implies 0 <= (#[trigger] r[j]).0 < nearest.len() && 0 <= r[j].1
            < nearest.len() by {
            if j < earlier.len() {
                assert(r[j] == earlier[j]);
            }
        }
    }
}

proof fn lemma_joins_in_range(nearest: Seq<Seq<Neighbour>>, upto: int)
    requires
        neighbours_in_range(nearest),
        0 <= upto <= nearest.len(),
    ensures
        forall|j: int| 0 <= j < joins(nearest, upto).len() ==> 0 <= (#[trigger] joins(nearest, upto)[j]).0 < nearest.len()
            && 0 <= joins(nearest, upto)[j].1 < nearest.len(),
    decreases upto,
{
    if upto > 0 {
        lemma_joins_in_range(nearest, upto - 1);
        lemma_row_joins_in_range(nearest, upto - 1, nearest[upto - 1].len() as int);
        let earlier = joins(nearest, upto - 1);
        let row = row_joins(nearest, upto - 1, nearest[upto - 1].len() as int);
        assert forall|j: int| 0 <= j < (earlier + row).len() implies 0 <= (#[trigger] (earlier + row)[j]).0 < nearest.len()
            && 0 <= (earlier + row)[j].1 < nearest.len() by {
            if j >= earlier.len() {
                assert((earlier + row)[j] == row[j - earlier.len()]);
            }
        }
    }
}

/// An image ends up in the group of every neighbour it links to: a close neighbour,
/// or a near one that counts it among its own nearest.
pub proof fn law_linked_neighbours_grouped(nearest: Seq<Seq<Neighbour>>, left: int, k: int)
    requires
        neighbours_in_range(nearest),
        0 <= left < nearest.len(),
        0 <= k < nearest[left].len(),
        links(nearest, left, nearest[left][k]),
    ensures
        merge_all(singletons(nearest.len()), joins(nearest, nearest.len() as int))[left]
            == merge_all(singletons(nearest.len()), joins(nearest, nearest.len() as int))[nearest[left][k].index as int],
{
    let js = joins(nearest, nearest.len() as int);
    lemma_joins_contain(nearest, nearest.len() as int, left, k);
    lemma_joins_in_range(nearest, nearest.len() as int);
    let w = choose|w: int| 0 <= w < js.len() && js[w] == (left, nearest[left][k].index as int);
    lemma_joined_together(singletons(nearest.len()), js, w);
}

} // verus!
