//! The order of a gallery by likeness: the images by name, the images left out of the
//! grouping, and the names that moved images get.
use vstd::prelude::*;
use crate::order::{compare_text, text_lt};
use crate::paths::{extension, strings};
use crate::text::{chars_of, push_str, same_chars, string_of};

verus! {

broadcast use vstd::string::group_string_axioms;

/// `order` lists the indices of `names` once each, in name order, equal names in
/// index order.
pub open spec fn sorts_names(order: Seq<usize>, names: Seq<Seq<char>>) -> bool {
    &&& order.len() == names.len()
    &&& forall|i: int| 0 <= i < order.len() ==> #[trigger] order[i] < names.len()
    &&& order.no_duplicates()
    &&& forall|i: int, j: int|
        0 <= i < j < order.len() ==> !text_lt(names[#[trigger] order[j] as int], names[#[trigger] order[i] as int])
    &&& forall|i: int, j: int|
        0 <= i < j < order.len() && names[#[trigger] order[i] as int] == names[#[trigger] order[j] as int]
            ==> order[i] < order[j]
}

/// The names of (name, version) pairs.
pub open spec fn image_names(v: Seq<(String, String)>) -> Seq<Seq<char>> {
    v.map_values(|p: (String, String)| p.0@)
}

/// The images (name and version) in name order.
pub fn sort_by_name(images: &Vec<(String, String)>) -> (r: Vec<(String, String)>)
    ensures
        exists|order: Seq<usize>|
            #[trigger] sorts_names(order, image_names(images@)) && crate::digest::pair_views(r@)
                == order.map_values(|k: usize| crate::digest::pair_views(images@)[k as int]),
{
    let ghost names = image_names(images@);
    let mut order: Vec<usize> = Vec::new();
    let mut i: usize = 0;
    while i < images.len()
        invariant
            names == image_names(images@),
            i <= images@.len(),
            order@.len() == i,
            forall|j: int| 0 <= j < order@.len() ==> #[trigger] order@[j] < i,
            order@.no_duplicates(),
            forall|a: int, b: int|
                0 <= a < b < order@.len() ==> !text_lt(names[#[trigger] order@[b] as int], names[#[trigger] order@[a] as int]),
            forall|a: int, b: int|
                0 <= a < b < order@.len() && names[#[trigger] order@[a] as int] == names[#[trigger] order@[b] as int]
                    ==> order@[a] < order@[b],
        decreases images@.len() - i,
    {
        let name = chars_of(images[i].0.as_str());
        let mut p: usize = 0;
        while p < order.len() && compare_text(name.as_slice(), chars_of(images[order[p]].0.as_str()).as_slice()) >= 0
            invariant
                names == image_names(images@),
                name@ == names[i as int],
                i < images@.len(),
                p <= order@.len(),
                forall|j: int| 0 <= j < order@.len() ==> #[trigger] order@[j] < i,
                forall|j: int| 0 <= j < p ==> !text_lt(names[i as int], names[#[trigger] order@[j] as int]),
            decreases order@.len() - p,
        {
            p = p + 1;
        }
        let ghost old_order = order@;
        proof {
            if p < order@.len() {
                assert(text_lt(names[i as int], names[order@[p as int] as int]));
            }
        }
        order.insert(p, i);
        proof {
            let no = order@;
            assert(no =~= old_order.take(p as int).push(i).add(old_order.skip(p as int)));
            assert forall|j: int| 0 <= j < no.len() implies #[trigger] no[j] < i + 1 by {
                if j < p {
                    assert(no[j] == old_order[j]);
                } else if j > p {
                    assert(no[j] == old_order[j - 1]);
                }
            }
            assert(no.no_duplicates()) by {
                assert forall|a: int, b: int| 0 <= a < b < no.len() implies no[a] != no[b] by {
                    if a < p && b < p {
                        assert(no[a] == old_order[a] && no[b] == old_order[b]);
                    } else if a < p && b > p {
                        assert(no[a] == old_order[a] && no[b] == old_order[b - 1]);
                    } else if a > p && b > p {
                        assert(no[a] == old_order[a - 1] && no[b] == old_order[b - 1]);
                    } else if a == p {
                        if b > p {
                            assert(no[b] == old_order[b - 1]);
                        }
                    } else {
                        assert(no[a] == old_order[a]);
                    }
                }
            }
            assert forall|a: int, b: int| 0 <= a < b < no.len() implies !text_lt(names[#[trigger] no[b] as int], names[#[trigger] no[a] as int]) && (names[no[a] as int] == names[no[b] as int] ==> no[a] < no[b]) by {
                let na = names[no[a] as int];
                let nb = names[no[b] as int];
                crate::order::lemma_text_lt_asymmetric(na, nb);
                crate::order::lemma_text_lt_irreflexive(na);
                if a < p && b < p {
                    assert(no[a] == old_order[a] && no[b] == old_order[b]);
                } else if a < p && b == p {
                    assert(no[a] == old_order[a]);
                } else if a < p && b > p {
                    assert(no[a] == old_order[a] && no[b] == old_order[b - 1]);
                } else if a == p {
                    assert(no[b] == old_order[b - 1]);
                    let q = p as int;
                    let first = names[old_order[q] as int];
                    let later = names[old_order[b - 1] as int];
                    assert(text_lt(names[i as int], first));
                    crate::order::lemma_text_lt_total(first, later);
                    if b - 1 > q && text_lt(first, later) {
                        crate::order::lemma_text_lt_transitive(names[i as int], first, later);
                    }
                    crate::order::lemma_text_lt_asymmetric(names[i as int], later);
                    crate::order::lemma_text_lt_irreflexive(later);
                } else {
                    assert(no[a] == old_order[a - 1] && no[b] == old_order[b - 1]);
                }
            }
        }
        i = i + 1;
    }
    let mut r: Vec<(String, String)> = Vec::new();
    let mut k: usize = 0;
    while k < order.len()
        invariant
            names == image_names(images@),
            order@.len() == images@.len(),
            forall|j: int| 0 <= j < order@.len() ==> #[trigger] order@[j] < images@.len(),
            k <= order@.len(),
            crate::digest::pair_views(r@) == order@.take(k as int).map_values(
                |j: usize| crate::digest::pair_views(images@)[j as int],
            ),
        decreases order@.len() - k,
    {
        let item = &images[order[k]];
        let ghost before = crate::digest::pair_views(r@);
        r.push((string_of(chars_of(item.0.as_str()).as_slice()), string_of(chars_of(item.1.as_str()).as_slice())));
        proof {
            assert(crate::digest::pair_views(r@) =~= before.push((item.0@, item.1@)));
            assert(order@.take(k + 1) =~= order@.take(k as int).push(order@[k as int]));
            assert(crate::digest::pair_views(r@) =~= order@.take(k + 1).map_values(
                |j: usize| crate::digest::pair_views(images@)[j as int],
            ));
        }
        k = k + 1;
    }
    proof {
        assert(order@.take(k as int) =~= order@);
        assert forall|j: int| 0 <= j < order@.len() implies #[trigger] order@[j] < names.len() by {}
        assert(sorts_names(order@, names));
    }
    r
}

/// The likeness order completed with the names it left out, in the order of `names`.
pub open spec fn completed(ordered: Seq<Seq<char>>, names: Seq<Seq<char>>) -> Seq<Seq<char>>
    decreases names.len(),
{
    if names.len() == 0 {
        ordered
    } else {
        let before = completed(ordered, names.drop_last());
        if before.contains(names.last()) {
            before
        } else {
            before.push(names.last())
        }
    }
}

/// Adds to the likeness order the images it left out, in name order.
pub fn complete_order(ordered: Vec<String>, names: &Vec<String>) -> (r: Vec<String>)
    ensures
        strings(r@) == completed(strings(ordered@), strings(names@)),
{
    let ghost o = strings(ordered@);
    let ghost ns = strings(names@);
    let mut r = ordered;
    let mut i: usize = 0;
    proof {
        assert(ns.take(0) =~= Seq::<Seq<char>>::empty());
    }
    while i < names.len()
        invariant
            ns == strings(names@),
            i <= ns.len(),
            strings(r@) == completed(o, ns.take(i as int)),
        decreases ns.len() - i,
    {
        let name = chars_of(names[i].as_str());
        let mut found = false;
        let mut k: usize = 0;
        while k < r.len()
            invariant
                name@ == ns[i as int],
                k <= r@.len(),
                found == (exists|j: int| 0 <= j < k && strings(r@)[j] == name@),
            decreases r@.len() - k,
        {
            let have = chars_of(r[k].as_str());
            if same_chars(have.as_slice(), name.as_slice()) {
                found = true;
            }
            assert(strings(r@)[k as int] == have@);
            k = k + 1;
        }
        proof {
            assert(ns.take(i + 1).drop_last() =~= ns.take(i as int));
            assert(ns.take(i + 1).last() == ns[i as int]);
            if found {
                let j = choose|j: int| 0 <= j < k && strings(r@)[j] == name@;
                assert(strings(r@).contains(name@));
            }
            if strings(r@).contains(name@) {
                let j = choose|j: int| 0 <= j < strings(r@).len() && strings(r@)[j] == name@;
                assert(found);
            }
        }
        if !found {
            let ghost before = strings(r@);
            r.push(string_of(name.as_slice()));
            proof {
                assert(strings(r@) =~= before.push(name@));
            }
        }
        i = i + 1;
    }
    proof {
        assert(ns.take(i as int) =~= ns);
    }
    r
}

/// `Path::file_stem` of a file name: the name without its extension.
pub open spec fn stem(name: Seq<char>) -> Seq<char> {
    match extension(name) {
        Some(e) => name.take(name.len() - e.len() - 1),
        None => name,
    }
}

/// The `index`th name tried for an image moved into a directory that already holds
/// its name: `stem_index.extension`.
pub open spec fn numbered_name(name: Seq<char>, index: u64) -> Seq<char> {
    stem(name) + "_"@ + crate::respond::decimal(index as nat) + match extension(name) {
        Some(e) => "."@ + e,
        None => Seq::<char>::empty(),
    }
}

pub fn destination_name(name: &str, index: u64) -> (r: String)
    ensures
        r@ == numbered_name(name@, index),
{
    let nc = chars_of(name);
    let ext = crate::paths::extension_of(nc.as_slice());
    let mut r = match crate::text::rfind_char(nc.as_slice(), '.') {
        Some(i) => if i > 0 {
            string_of(crate::text::slice_chars(nc.as_slice(), 0, i).as_slice())
        } else {
            string_of(nc.as_slice())
        },
        None => string_of(nc.as_slice()),
    };
    proof {
        if ext is Some {
            let e = ext.unwrap()@;
            assert(nc@.len() - e.len() - 1 == crate::text::last_index(nc@, '.'));
            assert(r@ =~= nc@.take(nc@.len() - e.len() - 1));
        } else {
            assert(r@ =~= nc@);
        }
    }
    push_str(&mut r, "_");
    crate::respond::push_decimal(&mut r, index);
    match &ext {
        Some(e) => {
            push_str(&mut r, ".");
            crate::text::push_chars(&mut r, e.as_slice());
        },
        None => {},
    }
    proof {
        assert(r@ =~= numbered_name(name@, index));
    }
    r
}

/// Every name ends up in the completed order, and each name is added at most once.
pub proof fn law_completed_holds_all(ordered: Seq<Seq<char>>, names: Seq<Seq<char>>, k: int)
    requires
        0 <= k < names.len(),
    ensures
        completed(ordered, names).contains(names[k]),
    decreases names.len(),
{
    let before = completed(ordered, names.drop_last());
    if k == names.len() - 1 {
        if !before.contains(names.last()) {
            assert(before.push(names.last())[before.len() as int] == names[k]);
        }
    } else {
        assert(names.drop_last()[k] == names[k]);
        law_completed_holds_all(ordered, names.drop_last(), k);
        if !before.contains(names.last()) {
            let j = choose|j: int| 0 <= j < before.len() && before[j] == names[k];
            assert(before.push(names.last())[j] == names[k]);
        }
    }
}


/// The version under which an image's likeness features are kept: the version of the
/// features' format, then the version of the file.
pub open spec fn feature_version(file_version: Seq<char>) -> Seq<char> {
    "2:"@ + file_version
}

pub fn image_feature_version(file_version: &str) -> (r: String)
    ensures
        r@ == feature_version(file_version@),
{
    let mut r = String::new();
    crate::text::push_str(&mut r, "2:");
    crate::text::push_str(&mut r, file_version);
    proof {
        assert(r@ =~= feature_version(file_version@));
    }
    r
}


/// When the likeness order names each image at most once and only images of the
/// directory, the completed order names each image of the directory exactly once:
/// every name is in it (`law_completed_holds_all`), no name twice, and nothing else.
pub proof fn law_completed_once(ordered: Seq<Seq<char>>, names: Seq<Seq<char>>)
    requires
        forall|i: int, j: int| 0 <= i < j < ordered.len() ==> ordered[i] != ordered[j],
        forall|i: int| 0 <= i < ordered.len() ==> names.contains(#[trigger] ordered[i]),
    ensures
        forall|i: int, j: int|
            0 <= i < j < completed(ordered, names).len() ==> completed(ordered, names)[i] != completed(
                ordered,
                names,
            )[j],
        forall|i: int| 0 <= i < completed(ordered, names).len() ==> names.contains(#[trigger] completed(ordered, names)[i]),
{
    lemma_completed_within(ordered, names, Seq::empty());
    let all = completed(ordered, names);
    assert forall|i: int| 0 <= i < all.len() implies names.contains(#[trigger] all[i]) by {
        if !names.contains(all[i]) {
            let k = choose|k: int| 0 <= k < Seq::<Seq<char>>::empty().len() && Seq::<Seq<char>>::empty()[k] == all[i];
        }
    }
}

/// The completed order of `names` holds no two equal names, and only names of
/// `names` or of `others`, where `ordered` holds no two equal names, and only names
/// of `names` or of `others`.
proof fn lemma_completed_within(ordered: Seq<Seq<char>>, names: Seq<Seq<char>>, others: Seq<Seq<char>>)
    requires
        forall|i: int, j: int| 0 <= i < j < ordered.len() ==> ordered[i] != ordered[j],
        forall|i: int| 0 <= i < ordered.len() ==> names.contains(#[trigger] ordered[i]) || others.contains(ordered[i]),
    ensures
        forall|i: int, j: int|
            0 <= i < j < completed(ordered, names).len() ==> completed(ordered, names)[i] != completed(
                ordered,
                names,
            )[j],
        forall|i: int|
            0 <= i < completed(ordered, names).len() ==> names.contains(#[trigger] completed(ordered, names)[i])
                || others.contains(completed(ordered, names)[i]),
    decreases names.len(),
{
    if names.len() > 0 {
        let rest = names.drop_last();
        let more = others.push(names.last());
        assert forall|i: int| 0 <= i < ordered.len() implies rest.contains(#[trigger] ordered[i]) || more.contains(
            ordered[i],
        ) by {
            if names.contains(ordered[i]) {
                let j = choose|j: int| 0 <= j < names.len() && names[j] == ordered[i];
                if j < names.len() - 1 {
                    assert(rest[j] == ordered[i]);
                } else {
                    assert(more[others.len() as int] == ordered[i]);
                }
            } else {
                let j = choose|j: int| 0 <= j < others.len() && others[j] == ordered[i];
                assert(more[j] == ordered[i]);
            }
        }
        lemma_completed_within(ordered, rest, more);
        let before = completed(ordered, rest);
        let all = completed(ordered, names);
        assert forall|i: int| 0 <= i < all.len() implies names.contains(#[trigger] all[i]) || others.contains(all[i]) by {
            if i < before.len() {
                assert(all[i] == before[i]);
                if rest.contains(before[i]) {
                    let j = choose|j: int| 0 <= j < rest.len() && rest[j] == before[i];
                    assert(names[j] == before[i]);
                } else {
                    let j = choose|j: int| 0 <= j < more.len() && more[j] == before[i];
                    if j < others.len() {
                        assert(others[j] == before[i]);
                    } else {
                        assert(names[names.len() - 1] == before[i]);
                    }
                }
            } else {
                assert(names[names.len() - 1] == all[i]);
            }
        }
        assert forall|i: int, j: int| 0 <= i < j < all.len() implies all[i] != all[j] by {
            if j == before.len() {
                assert(all[i] == before[i]);
            } else {
                assert(all[i] == before[i] && all[j] == before[j]);
            }
        }
    }
}

} // verus!
