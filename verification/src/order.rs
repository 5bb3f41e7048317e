//! The order of text by code points, as `String`'s `Ord` compares.
use vstd::prelude::*;

verus! {

/// `a` sorts before `b`: at their first difference `a` has the smaller character, or
/// `a` is a proper prefix of `b`.
pub open spec fn text_lt(a: Seq<char>, b: Seq<char>) -> bool
    decreases a.len(),
{
    if a.len() == 0 {
        b.len() > 0
    } else if b.len() == 0 {
        false
    } else if a[0] != b[0] {
        a[0] < b[0]
    } else {
        text_lt(a.skip(1), b.skip(1))
    }
}

/// No text sorts before itself.
pub proof fn lemma_text_lt_irreflexive(a: Seq<char>)
    ensures
        !text_lt(a, a),
    decreases a.len(),
{
    if a.len() > 0 {
        lemma_text_lt_irreflexive(a.skip(1));
    }
}

/// Of two different texts, one sorts before the other.
pub proof fn lemma_text_lt_total(a: Seq<char>, b: Seq<char>)
    ensures
        a == b || text_lt(a, b) || text_lt(b, a),
    decreases a.len(),
{
    if a.len() > 0 && b.len() > 0 && a[0] == b[0] {
        lemma_text_lt_total(a.skip(1), b.skip(1));
        if a.skip(1) == b.skip(1) {
            assert(a =~= seq![a[0]] + a.skip(1));
            assert(b =~= seq![b[0]] + b.skip(1));
        }
    }
    if a.len() == 0 && b.len() == 0 {
        assert(a =~= b);
    }
}

/// Two texts never sort each before the other.
pub proof fn lemma_text_lt_asymmetric(a: Seq<char>, b: Seq<char>)
    ensures
        !(text_lt(a, b) && text_lt(b, a)),
    decreases a.len(),
{
    if a.len() > 0 && b.len() > 0 && a[0] == b[0] {
        lemma_text_lt_asymmetric(a.skip(1), b.skip(1));
    }
}

/// Sorting before is transitive.
pub proof fn lemma_text_lt_transitive(a: Seq<char>, b: Seq<char>, c: Seq<char>)
    requires
        text_lt(a, b),
        text_lt(b, c),
    ensures
        text_lt(a, c),
    decreases a.len(),
{
    if a.len() > 0 && b.len() > 0 && c.len() > 0 && a[0] == b[0] && b[0] == c[0] {
        lemma_text_lt_transitive(a.skip(1), b.skip(1), c.skip(1));
    }
}

/// Compares two character sequences: negative, zero or positive as `a` sorts before,
/// equal to or after `b`.
pub fn compare_text(a: &[char], b: &[char]) -> (r: i8)
    ensures
        r < 0 <==> text_lt(a@, b@),
        r == 0 <==> a@ == b@,
        r > 0 <==> text_lt(b@, a@),
{
    let mut i: usize = 0;
    assert(a@.skip(0) =~= a@);
    assert(b@.skip(0) =~= b@);
    while i < a.len() && i < b.len() && a[i] == b[i]
        invariant
            i <= a@.len(),
            i <= b@.len(),
            a@.take(i as int) == b@.take(i as int),
            text_lt(a@, b@) == text_lt(a@.skip(i as int), b@.skip(i as int)),
            text_lt(b@, a@) == text_lt(b@.skip(i as int), a@.skip(i as int)),
        decreases a@.len() - i,
    {
        proof {
            assert(a@.skip(i as int).skip(1) =~= a@.skip(i + 1));
            assert(b@.skip(i as int).skip(1) =~= b@.skip(i + 1));
            assert(a@.take(i + 1) =~= a@.take(i as int).push(a@[i as int]));
            assert(b@.take(i + 1) =~= b@.take(i as int).push(b@[i as int]));
        }
        i = i + 1;
    }
    proof {
        lemma_text_lt_irreflexive(a@);
        lemma_text_lt_asymmetric(a@, b@);
    }
    if i < a.len() && i < b.len() {
        proof {
            if a@ == b@ {
                assert(a@[i as int] == b@[i as int]);
            }
        }
        if a[i] < b[i] {
            -1
        } else {
            1
        }
    } else if i < a.len() {
        proof {
            assert(a@.len() != b@.len());
        }
        1
    } else if i < b.len() {
        proof {
            assert(a@.len() != b@.len());
        }
        -1
    } else {
        proof {
            assert(a@ =~= a@.take(i as int));
            assert(b@ =~= b@.take(i as int));
        }
        0
    }
}

/// Strictly increasing text: sorted without repeats.
pub open spec fn strictly_sorted(v: Seq<Seq<char>>) -> bool {
    forall|i: int, j: int| 0 <= i < j < v.len() ==> text_lt(v[i], v[j])
}

/// Adds `x` to a strictly sorted list, keeping it strictly sorted.
pub fn insert_sorted(v: &mut Vec<Vec<char>>, x: Vec<char>)
    requires
        strictly_sorted(crate::text::views(old(v)@)),
    ensures
        strictly_sorted(crate::text::views(final(v)@)),
        crate::text::views(final(v)@).to_set() == crate::text::views(old(v)@).to_set().insert(x@),
{
    let ghost old_v = crate::text::views(v@);
    let mut p: usize = 0;
    while p < v.len() && compare_text(v[p].as_slice(), x.as_slice()) < 0
        invariant
            old_v == crate::text::views(v@),
            strictly_sorted(old_v),
            p <= old_v.len(),
            forall|j: int| 0 <= j < p ==> text_lt(old_v[j], x@),
        decreases old_v.len() - p,
    {
        p = p + 1;
    }
    if p < v.len() && compare_text(v[p].as_slice(), x.as_slice()) == 0 {
        proof {
            assert(old_v.to_set().insert(x@) =~= old_v.to_set()) by {
                assert(old_v[p as int] == x@);
            }
        }
        return;
    }
    let ghost xv = x@;
    v.insert(p, x);
    proof {
        let nv = crate::text::views(v@);
        assert(nv =~= old_v.insert(p as int, xv));
        if p < old_v.len() {
            lemma_text_lt_total(old_v[p as int], xv);
        }
        assert forall|i: int, j: int| 0 <= i < j < nv.len() implies text_lt(nv[i], nv[j]) by {
            if j < p {
            } else if j == p {
            } else if i < p {
                assert(nv[i] == old_v[i]);
                assert(nv[j] == old_v[j - 1]);
            } else if i == p {
                if j - 1 > p {
                    lemma_text_lt_transitive(xv, old_v[p as int], old_v[j - 1]);
                }
            } else {
            }
        }
        assert(nv.to_set() =~= old_v.to_set().insert(xv)) by {
            assert forall|t: Seq<char>| nv.to_set().contains(t) <==> old_v.to_set().insert(xv).contains(t) by {
                if nv.to_set().contains(t) {
                    let i = choose|i: int| 0 <= i < nv.len() && nv[i] == t;
                    if i < p {
                        assert(old_v[i] == t);
                    } else if i > p {
                        assert(old_v[i - 1] == t);
                    }
                }
                if old_v.to_set().contains(t) {
                    let i = choose|i: int| 0 <= i < old_v.len() && old_v[i] == t;
                    if i < p {
                        assert(nv[i] == t);
                    } else {
                        assert(nv[i + 1] == t);
                    }
                }
                if t == xv {
                    assert(nv[p as int] == t);
                }
            }
        }
    }
}

} // verus!
