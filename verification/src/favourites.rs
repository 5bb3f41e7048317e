//! Favourite directories: which belong to the served tree, and the order the user
//! gives them.
use vstd::prelude::*;
use crate::paths::{named_parts, path_parts};
use crate::text::{chars_of, same_chars, string_of, views};

verus! {

/// The components of a path as `Path::components` gives them: `/` for the root, `.`
/// for a leading current directory, then the named components.
pub open spec fn components(s: Seq<char>) -> Seq<Seq<char>> {
    let head = if s.len() > 0 && s[0] == '/' {
        seq![seq!['/']]
    } else if s == seq!['.'] || (s.len() > 1 && s[0] == '.' && s[1] == '/') {
        seq![seq!['.']]
    } else {
        Seq::<Seq<char>>::empty()
    };
    head + named_parts(s)
}

/// `Path::starts_with`: the components of `base` begin those of `path`.
pub open spec fn path_starts_with(path: Seq<char>, base: Seq<char>) -> bool {
    components(base).is_prefix_of(components(path))
}

pub fn path_components(s: &str) -> (r: Vec<Vec<char>>)
    ensures
        views(r@) == components(s@),
{
    let v = chars_of(s);
    let mut r: Vec<Vec<char>> = Vec::new();
    if v.len() > 0 && v[0] == '/' {
        let mut root: Vec<char> = Vec::new();
        root.push('/');
        r.push(root);
    } else if (v.len() == 1 && v[0] == '.') || (v.len() > 1 && v[0] == '.' && v[1] == '/') {
        let mut cur: Vec<char> = Vec::new();
        cur.push('.');
        r.push(cur);
        proof {
            if v.len() == 1 {
                assert(v@ =~= seq!['.']);
            }
        }
    } else {
        proof {
            assert(v@ != seq!['.']);
        }
    }
    let ghost head = views(r@);
    proof {
        assert(head =~= components(s@).take(head.len() as int));
    }
    let parts = path_parts(v.as_slice(), false);
    let mut i: usize = 0;
    while i < parts.len()
        invariant
            views(parts@) == named_parts(v@),
            v@ == s@,
            i <= parts@.len(),
            head.len() <= 1,
            head + named_parts(s@) == components(s@),
            views(r@) == head + views(parts@).take(i as int),
        decreases parts@.len() - i,
    {
        let p = string_of(parts[i].as_slice());
        let ghost before = views(r@);
        r.push(chars_of(p.as_str()));
        proof {
            assert(views(r@) =~= before.push(parts@[i as int]@));
            assert(views(parts@).take(i + 1) =~= views(parts@).take(i as int).push(parts@[i as int]@));
            assert(views(r@) =~= head + views(parts@).take(i + 1));
        }
        i = i + 1;
    }
    proof {
        assert(views(parts@).take(i as int) =~= views(parts@));
    }
    r
}

/// Whether the path `path` lies within `base`, component by component.
pub fn starts_with_path(path: &str, base: &str) -> (r: bool)
    ensures
        r == path_starts_with(path@, base@),
{
    let p = path_components(path);
    let b = path_components(base);
    if b.len() > p.len() {
        return false;
    }
    let mut i: usize = 0;
    while i < b.len()
        invariant
            views(p@) == components(path@),
            views(b@) == components(base@),
            b@.len() <= p@.len(),
            i <= b@.len(),
            forall|j: int| 0 <= j < i ==> views(b@)[j] == views(p@)[j],
        decreases b@.len() - i,
    {
        if !same_chars(b[i].as_slice(), p[i].as_slice()) {
            assert(views(b@)[i as int] != views(p@)[i as int]);
            return false;
        }
        i = i + 1;
    }
    assert(views(b@) =~= views(p@).take(b@.len() as int));
    true
}

/// The favourites that lie within `root`, in their order.
pub open spec fn within(favourites: Seq<Seq<char>>, root: Seq<char>) -> Seq<Seq<char>> {
    favourites.filter(|p: Seq<char>| path_starts_with(p, root))
}

/// The favourite directories that lie within the served tree `root`, in their order.
pub fn favourites_within(favourites: &Vec<String>, root: &str) -> (r: Vec<String>)
    ensures
        crate::paths::strings(r@) == within(crate::paths::strings(favourites@), root@),
{
    let ghost fs = crate::paths::strings(favourites@);
    let ghost keep = |p: Seq<char>| path_starts_with(p, root@);
    let mut r: Vec<String> = Vec::new();
    let mut i: usize = 0;
    proof {
        assert(fs.take(0) =~= Seq::<Seq<char>>::empty());
        reveal(Seq::filter);
        assert(crate::paths::strings(r@) =~= fs.take(0).filter(keep));
    }
    while i < favourites.len()
        invariant
            fs == crate::paths::strings(favourites@),
            keep == (|p: Seq<char>| path_starts_with(p, root@)),
            i <= favourites@.len(),
            crate::paths::strings(r@) == fs.take(i as int).filter(keep),
        decreases favourites@.len() - i,
    {
        let ghost before = crate::paths::strings(r@);
        if starts_with_path(favourites[i].as_str(), root) {
            r.push(string_of(chars_of(favourites[i].as_str()).as_slice()));
        }
        proof {
            assert(fs.take(i + 1) =~= fs.take(i as int).push(fs[i as int]));
            fs.take(i as int).lemma_filter_push(fs[i as int], keep);
            assert(crate::paths::strings(r@) =~= fs.take(i + 1).filter(keep));
        }
        i = i + 1;
    }
    proof {
        assert(fs.take(i as int) =~= fs);
    }
    r
}

/// How many of the first `k` favourites are in `ordered`.
pub open spec fn moved_before(favourites: Seq<Seq<char>>, ordered: Seq<Seq<char>>, k: int) -> nat
    decreases k,
{
    if k <= 0 {
        0
    } else {
        moved_before(favourites, ordered, k - 1) + if ordered.contains(favourites[k - 1]) {
            1nat
        } else {
            0nat
        }
    }
}

/// The favourites after reordering: the places held by favourites named in `ordered`
/// are filled with `ordered`, in its order; the others keep their places.
pub open spec fn reordered(favourites: Seq<Seq<char>>, ordered: Seq<Seq<char>>) -> Seq<Seq<char>> {
    Seq::new(
        favourites.len(),
        |i: int|
            if ordered.contains(favourites[i]) {
                ordered[moved_before(favourites, ordered, i) as int]
            } else {
                favourites[i]
            },
    )
}

proof fn lemma_moved_before_monotone(favourites: Seq<Seq<char>>, ordered: Seq<Seq<char>>, j: int, k: int)
    requires
        0 <= j <= k,
    ensures
        moved_before(favourites, ordered, j) <= moved_before(favourites, ordered, k),
    decreases k - j,
{
    if j < k {
        lemma_moved_before_monotone(favourites, ordered, j, k - 1);
    }
}

/// Puts the favourites named in `ordered` in that order, in the places they held. The
/// favourites named in `ordered` may not outnumber it.
pub fn reorder_favourites(favourites: &Vec<String>, ordered: &Vec<String>) -> (r: Vec<String>)
    requires
        moved_before(
            crate::paths::strings(favourites@),
            crate::paths::strings(ordered@),
            favourites@.len() as int,
        ) <= ordered@.len(),
    ensures
        crate::paths::strings(r@) == reordered(crate::paths::strings(favourites@), crate::paths::strings(ordered@)),
{
    let ghost fs = crate::paths::strings(favourites@);
    let ghost os = crate::paths::strings(ordered@);
    let mut r: Vec<String> = Vec::new();
    let mut next: usize = 0;
    let mut i: usize = 0;
    while i < favourites.len()
        invariant
            fs == crate::paths::strings(favourites@),
            os == crate::paths::strings(ordered@),
            moved_before(fs, os, fs.len() as int) <= os.len(),
            i <= fs.len(),
            next == moved_before(fs, os, i as int),
            r@.len() == i,
            forall|j: int| 0 <= j < i ==> #[trigger] crate::paths::strings(r@)[j] == reordered(fs, os)[j],
        decreases fs.len() - i,
    {
        let f = chars_of(favourites[i].as_str());
        let mut found = false;
        let mut k: usize = 0;
        while k < ordered.len()
            invariant
                os == crate::paths::strings(ordered@),
                f@ == fs[i as int],
                k <= os.len(),
                found == (exists|j: int| 0 <= j < k && os[j] == f@),
            decreases os.len() - k,
        {
            let o = chars_of(ordered[k].as_str());
            assert(os[k as int] == o@);
            if same_chars(o.as_slice(), f.as_slice()) {
                found = true;
            }
            k = k + 1;
        }
        proof {
            if found {
                let j = choose|j: int| 0 <= j < os.len() && os[j] == f@;
                assert(os.contains(fs[i as int]));
            }
            if os.contains(fs[i as int]) {
                let j = choose|j: int| 0 <= j < os.len() && os[j] == fs[i as int];
                assert(found);
            }
            lemma_moved_before_monotone(fs, os, i + 1, fs.len() as int);
        }
        let ghost old_r = r@;
        if found {
            assert(os[next as int] == ordered@[next as int]@);
            r.push(string_of(chars_of(ordered[next].as_str()).as_slice()));
            next = next + 1;
        } else {
            r.push(string_of(f.as_slice()));
        }
        proof {
            assert(crate::paths::strings(r@)[i as int] == reordered(fs, os)[i as int]);
            assert forall|j: int| 0 <= j < i + 1 implies #[trigger] crate::paths::strings(r@)[j] == reordered(fs, os)[j] by {
                if j < i {
                    assert(r@[j] == old_r[j]);
                    assert(crate::paths::strings(old_r)[j] == reordered(fs, os)[j]);
                }
            }
        }
        i = i + 1;
    }
    proof {
        assert(crate::paths::strings(r@) =~= reordered(fs, os));
    }
    r
}

/// Every favourite shown for the served tree lies within it.
pub proof fn law_within_stays_in_root(favourites: Seq<Seq<char>>, root: Seq<char>, i: int)
    requires
        0 <= i < within(favourites, root).len(),
    ensures
        path_starts_with(within(favourites, root)[i], root),
{
    favourites.lemma_filter_pred(|p: Seq<char>| path_starts_with(p, root), i);
}

/// After reordering, the favourites named in `ordered` come in the order of `ordered`.
pub proof fn law_reordered_in_given_order(favourites: Seq<Seq<char>>, ordered: Seq<Seq<char>>)
    requires
        moved_before(favourites, ordered, favourites.len() as int) <= ordered.len(),
    ensures
        reordered(favourites, ordered).filter(|p: Seq<char>| ordered.contains(p)) == ordered.take(
            moved_before(favourites, ordered, favourites.len() as int) as int,
        ),
    decreases favourites.len(),
{
    let n = favourites.len() as int;
    let keep = |p: Seq<char>| ordered.contains(p);
    if n == 0 {
        reveal(Seq::filter);
        assert(reordered(favourites, ordered).filter(keep) =~= Seq::<Seq<char>>::empty());
        assert(ordered.take(0) =~= Seq::<Seq<char>>::empty());
    } else {
        let front = favourites.drop_last();
        assert forall|k: int| 0 <= k <= n - 1 implies moved_before(front, ordered, k) == moved_before(favourites, ordered, k) by {
            lemma_moved_before_prefix(front, favourites, ordered, k);
        }
        lemma_moved_before_monotone(favourites, ordered, n - 1, n);
        law_reordered_in_given_order(front, ordered);
        let rf = reordered(front, ordered);
        let ra = reordered(favourites, ordered);
        assert(ra =~= rf.push(ra[n - 1]));
        rf.lemma_filter_push(ra[n - 1], keep);
        let m = moved_before(favourites, ordered, n - 1) as int;
        if ordered.contains(favourites[n - 1]) {
            assert(ordered.contains(ordered[m]));
            assert(ordered.take(m + 1) =~= ordered.take(m).push(ordered[m]));
        } else {
            assert(!ordered.contains(ra[n - 1]));
        }
    }
}

proof fn lemma_moved_before_prefix(front: Seq<Seq<char>>, favourites: Seq<Seq<char>>, ordered: Seq<Seq<char>>, k: int)
    requires
        favourites.len() > 0,
        front == favourites.drop_last(),
        0 <= k <= front.len(),
    ensures
        moved_before(front, ordered, k) == moved_before(favourites, ordered, k),
    decreases k,
{
    if k > 0 {
        lemma_moved_before_prefix(front, favourites, ordered, k - 1);
        assert(front[k - 1] == favourites[k - 1]);
    }
}

/// The string a JSON text holds, if it is exactly one JSON string.
pub uninterp spec fn json_string(text: Seq<char>) -> Option<Seq<char>>;

/// The strings a JSON text holds, if it is exactly one JSON array of strings.
pub uninterp spec fn json_strings(text: Seq<char>) -> Option<Seq<Seq<char>>>;

/// `serde_json::from_str::<String>`: the string the text holds, or `None` when it is
/// not one JSON string; a function of the text alone.
#[verifier::external_body]
fn parse_json_string(text: &str) -> (r: Option<String>)
    ensures
        crate::review::opt_text(r) == json_string(text@),
{
    serde_json::from_str::<String>(text).ok()
}

/// `serde_json::from_str::<Vec<String>>`: the strings of the text's array, or `None`
/// when it is not one JSON array of strings; a function of the text alone.
#[verifier::external_body]
fn parse_json_strings(text: &str) -> (r: Option<Vec<String>>)
    ensures
        match r {
            Some(v) => json_strings(text@) == Some(crate::paths::strings(v@)),
            None => json_strings(text@) is None,
        },
{
    serde_json::from_str::<Vec<String>>(text).ok()
}

/// The name given to a favourite directory, read from a request body holding a JSON
/// string; the `400` answer when it holds none.
pub open spec fn favourite_label(body: Seq<char>) -> Result<Seq<char>, crate::routing::ReplyView> {
    match json_string(body) {
        Some(label) => Ok(label),
        None => Err(crate::routing::reply(400, "Bad Request"@, "无效的收藏名称\n"@, false)),
    }
}

pub fn read_favourite_label(body: &str) -> (r: Result<String, crate::routing::Reply>)
    ensures
        match r {
            Ok(label) => favourite_label(body@) == Ok::<Seq<char>, crate::routing::ReplyView>(label@),
            Err(reply) => favourite_label(body@) == Err::<Seq<char>, crate::routing::ReplyView>(reply@),
        },
{
    match parse_json_string(body) {
        Some(label) => Ok(label),
        None => Err(crate::routing::Reply {
            status: 400,
            reason: string_of(chars_of("Bad Request").as_slice()),
            body: string_of(chars_of("无效的收藏名称\n").as_slice()),
            head_only: false,
        }),
    }
}

/// The favourite directory a URL path of the new order names: decoded and joined to
/// the served root, or `None` when it does not decode or climbs out.
pub open spec fn ordered_path(url: Seq<char>, root: Seq<char>) -> Option<Seq<char>> {
    match crate::url::percent_decoded(url) {
        None => None,
        Some(decoded) => match crate::paths::safe_relative(decoded) {
            None => None,
            Some(parts) => Some(crate::paths::join_relative(root, parts)),
        },
    }
}

/// The favourite directories of a new order, read from a request body holding a JSON
/// array of URL paths; the `400` answer to a body that holds none, or to a path that
/// does not decode or climbs out.
pub open spec fn favourite_order(body: Seq<char>, root: Seq<char>) -> Result<Seq<Seq<char>>, crate::routing::ReplyView> {
    match json_strings(body) {
        None => Err(crate::routing::reply(400, "Bad Request"@, "无效的收藏夹顺序\n"@, false)),
        Some(urls) => if forall|i: int| 0 <= i < urls.len() ==> (#[trigger] ordered_path(urls[i], root)) is Some {
            Ok(urls.map_values(|u: Seq<char>| ordered_path(u, root).unwrap()))
        } else {
            Err(crate::routing::reply(400, "Bad Request"@, "无效的收藏夹路径\n"@, false))
        },
    }
}

pub fn read_favourite_order(body: &str, root: &str) -> (r: Result<Vec<String>, crate::routing::Reply>)
    ensures
        match r {
            Ok(paths) => favourite_order(body@, root@) == Ok::<Seq<Seq<char>>, crate::routing::ReplyView>(
                crate::paths::strings(paths@),
            ),
            Err(reply) => favourite_order(body@, root@) == Err::<Seq<Seq<char>>, crate::routing::ReplyView>(
                reply@,
            ),
        },
{
    let urls = match parse_json_strings(body) {
        Some(u) => u,
        None => return Err(crate::routing::Reply {
            status: 400,
            reason: string_of(chars_of("Bad Request").as_slice()),
            body: string_of(chars_of("无效的收藏夹顺序\n").as_slice()),
            head_only: false,
        }),
    };
    let ghost us = crate::paths::strings(urls@);
    let mut paths: Vec<String> = Vec::new();
    let mut i: usize = 0;
    while i < urls.len()
        invariant
            us == crate::paths::strings(urls@),
            json_strings(body@) == Some(us),
            i <= us.len(),
            paths@.len() == i,
            forall|j: int| 0 <= j < i ==> ordered_path(us[j], root@) == Some(#[trigger] paths@[j]@),
        decreases us.len() - i,
    {
        let decoded = match crate::url::percent_decode(urls[i].as_str()) {
            Some(d) => d,
            None => {
                proof {
                    assert(ordered_path(us[i as int], root@) is None);
                }
                return Err(crate::routing::Reply {
                    status: 400,
                    reason: string_of(chars_of("Bad Request").as_slice()),
                    body: string_of(chars_of("无效的收藏夹路径\n").as_slice()),
                    head_only: false,
                });
            },
        };
        let parts = match crate::paths::safe_relative_path(decoded.as_str()) {
            Some(p) => p,
            None => {
                proof {
                    assert(ordered_path(us[i as int], root@) is None);
                }
                return Err(crate::routing::Reply {
                    status: 400,
                    reason: string_of(chars_of("Bad Request").as_slice()),
                    body: string_of(chars_of("无效的收藏夹路径\n").as_slice()),
                    head_only: false,
                });
            },
        };
        paths.push(crate::paths::join_relative_path(root, &parts));
        i = i + 1;
    }
    proof {
        assert forall|j: int| 0 <= j < us.len() implies (#[trigger] ordered_path(us[j], root@)) is Some by {
            assert(ordered_path(us[j], root@) == Some(paths@[j]@));
        }
        assert(crate::paths::strings(paths@) =~= us.map_values(|u: Seq<char>| ordered_path(u, root@).unwrap()));
    }
    Ok(paths)
}

} // verus!
