//! A model of `/`-separated file system paths: their components, file names and
//! extensions, and the paths derived from them.
use vstd::prelude::*;
use crate::text::{
    chars_of, ends_with_text, is_last_index, is_text, last_index, lower, lower_chars, push_char,
    push_chars, rfind_char, same_chars, slice_chars, split, split_exec, string_of, views,
};

verus! {

broadcast use vstd::string::group_string_axioms;

/// A path component that names an entry (not empty, `.` or `..`).
pub open spec fn is_normal(part: Seq<char>) -> bool {
    part != Seq::<char>::empty() && part != seq!['.'] && part != seq!['.', '.']
}

/// A component that survives path normalisation (anything but empty and `.`).
pub open spec fn is_named(part: Seq<char>) -> bool {
    part != Seq::<char>::empty() && part != seq!['.']
}

/// The pieces of `parts` that satisfy `keep`, in order.
pub open spec fn keep(parts: Seq<Seq<char>>, keep_normal_only: bool) -> Seq<Seq<char>>
    decreases parts.len(),
{
    if parts.len() == 0 {
        Seq::<Seq<char>>::empty()
    } else {
        let r = keep(parts.drop_last(), keep_normal_only);
        let last = parts.last();
        if (keep_normal_only && is_normal(last)) || (!keep_normal_only && is_named(last)) {
            r.push(last)
        } else {
            r
        }
    }
}

/// The `Normal` components of a path (`Path::components` without root, `.` and `..`).
pub open spec fn normal_parts(s: Seq<char>) -> Seq<Seq<char>> {
    keep(split(s, '/'), true)
}

/// The components of a path after normalisation, `..` included.
pub open spec fn named_parts(s: Seq<char>) -> Seq<Seq<char>> {
    keep(split(s, '/'), false)
}

fn is_normal_exec(part: &[char]) -> (r: bool)
    ensures
        r == is_normal(part@),
{
    if part.len() == 0 {
        assert(part@ =~= Seq::<char>::empty());
        return false;
    }
    if part.len() == 1 && part[0] == '.' {
        assert(part@ =~= seq!['.']);
        return false;
    }
    if part.len() == 2 && part[0] == '.' && part[1] == '.' {
        assert(part@ =~= seq!['.', '.']);
        return false;
    }
    true
}

fn is_named_exec(part: &[char]) -> (r: bool)
    ensures
        r == is_named(part@),
{
    if part.len() == 0 {
        assert(part@ =~= Seq::<char>::empty());
        return false;
    }
    if part.len() == 1 && part[0] == '.' {
        assert(part@ =~= seq!['.']);
        return false;
    }
    true
}

/// The components of path `v`: its `Normal` ones when `normal_only`, else every
/// component that normalisation keeps.
pub fn path_parts(v: &[char], normal_only: bool) -> (r: Vec<Vec<char>>)
    ensures
        views(r@) == keep(split(v@, '/'), normal_only),
{
    let pieces = split_exec(v, '/');
    let ghost ps = views(pieces@);
    let mut r: Vec<Vec<char>> = Vec::new();
    let mut i: usize = 0;
    proof {
        assert(ps.take(0) =~= Seq::<Seq<char>>::empty());
        assert(views(r@) =~= Seq::<Seq<char>>::empty());
    }
    while i < pieces.len()
        invariant
            ps == views(pieces@),
            ps == split(v@, '/'),
            i <= ps.len(),
            views(r@) == keep(ps.take(i as int), normal_only),
        decreases ps.len() - i,
    {
        let piece = &pieces[i];
        proof {
            assert(ps.take(i + 1).drop_last() =~= ps.take(i as int));
            assert(ps.take(i + 1).last() == piece@);
        }
        let wanted = if normal_only {
            is_normal_exec(piece.as_slice())
        } else {
            is_named_exec(piece.as_slice())
        };
        if wanted {
            let ghost before = r@;
            r.push(slice_chars(piece.as_slice(), 0, piece.len()));
            proof {
                assert(piece@.subrange(0, piece@.len() as int) =~= piece@);
                assert(views(r@) =~= views(before).push(piece@));
            }
        }
        i = i + 1;
    }
    proof {
        assert(ps.take(ps.len() as int) =~= ps);
    }
    r
}

/// `Path::file_name`: the last component after normalisation, unless it is `..`.
pub open spec fn file_name(s: Seq<char>) -> Option<Seq<char>> {
    let parts = named_parts(s);
    if parts.len() > 0 && parts.last() != seq!['.', '.'] {
        Some(parts.last())
    } else {
        None
    }
}

/// The file name of `path`, if it has one.
pub fn file_name_of(path: &str) -> (r: Option<Vec<char>>)
    ensures
        match r {
            Some(n) => file_name(path@) == Some(n@),
            None => file_name(path@) is None,
        },
{
    let v = chars_of(path);
    let parts = path_parts(v.as_slice(), false);
    if parts.len() == 0 {
        return None;
    }
    let last = &parts[parts.len() - 1];
    proof {
        assert(views(parts@).last() == last@);
    }
    if last.len() == 2 && last[0] == '.' && last[1] == '.' {
        assert(last@ =~= seq!['.', '.']);
        return None;
    }
    proof {
        if last@ == seq!['.', '.'] {
            assert(last@.len() == 2 && last@[0] == '.' && last@[1] == '.');
        }
    }
    Some(slice_chars(last.as_slice(), 0, last.len()))
}

/// `Path::extension` of a file name: the text after its last `.`, unless that dot
/// begins the name.
pub open spec fn extension(name: Seq<char>) -> Option<Seq<char>> {
    if name.contains('.') && last_index(name, '.') > 0 {
        Some(name.skip(last_index(name, '.') + 1))
    } else {
        None
    }
}

/// The extension of the file name `name`, if it has one.
pub fn extension_of(name: &[char]) -> (r: Option<Vec<char>>)
    ensures
        match r {
            Some(e) => extension(name@) == Some(e@),
            None => extension(name@) is None,
        },
{
    match rfind_char(name, '.') {
        Some(i) => {
            if i == 0 {
                None
            } else {
                assert(i < name.len());
                let e = slice_chars(name, i + 1, name.len());
                assert(e@ =~= name@.skip(i + 1));
                Some(e)
            }
        },
        None => None,
    }
}

/// The lowercase extension of file name `name`, or the empty text when it has none.
pub open spec fn lower_extension(name: Seq<char>) -> Seq<char> {
    match extension(name) {
        Some(e) => lower(e),
        None => Seq::<char>::empty(),
    }
}

pub fn lower_extension_of(name: &[char]) -> (r: Vec<char>)
    ensures
        r@ == lower_extension(name@),
{
    match extension_of(name) {
        Some(e) => lower_chars(e.as_slice()),
        None => Vec::new(),
    }
}

/// Whether file name `name` has extension `expected`, ignoring ASCII case.
pub open spec fn has_extension(name: Seq<char>, expected: Seq<char>) -> bool {
    match extension(name) {
        Some(e) => lower(e) == lower(expected),
        None => false,
    }
}

pub fn has_extension_exec(name: &[char], expected: &str) -> (r: bool)
    ensures
        r == has_extension(name@, expected@),
{
    match extension_of(name) {
        Some(e) => {
            let a = lower_chars(e.as_slice());
            let ec = chars_of(expected);
            let b = lower_chars(ec.as_slice());
            same_chars(a.as_slice(), b.as_slice())
        },
        None => false,
    }
}


/// Components joined by `/`.
pub open spec fn join_parts(ps: Seq<Seq<char>>) -> Seq<char>
    decreases ps.len(),
{
    if ps.len() == 0 {
        Seq::<char>::empty()
    } else if ps.len() == 1 {
        ps[0]
    } else {
        join_parts(ps.drop_last()) + seq!['/'] + ps.last()
    }
}

/// Text of a path with the given root flag and components.
pub open spec fn display(absolute: bool, ps: Seq<Seq<char>>) -> Seq<char> {
    if absolute {
        seq!['/'] + join_parts(ps)
    } else {
        join_parts(ps)
    }
}

/// `Path::join` of a single name onto a directory path.
pub open spec fn join_path(dir: Seq<char>, name: Seq<char>) -> Seq<char> {
    if dir.len() == 0 {
        name
    } else if dir.last() == '/' {
        dir + name
    } else {
        dir + seq!['/'] + name
    }
}

/// The character sequences held by a vector of strings.
pub open spec fn strings(v: Seq<String>) -> Seq<Seq<char>> {
    v.map_values(|x: String| x@)
}

pub fn join_parts_exec(ps: &Vec<Vec<char>>) -> (r: String)
    ensures
        r@ == join_parts(views(ps@)),
{
    let ghost vs = views(ps@);
    let mut r = String::new();
    let mut i: usize = 0;
    proof {
        assert(vs.take(0) =~= Seq::<Seq<char>>::empty());
    }
    while i < ps.len()
        invariant
            vs == views(ps@),
            i <= vs.len(),
            r@ == join_parts(vs.take(i as int)),
        decreases vs.len() - i,
    {
        proof {
            assert(vs.take(i + 1).drop_last() =~= vs.take(i as int));
            assert(vs.take(i + 1).last() == ps@[i as int]@);
        }
        if i > 0 {
            push_char(&mut r, '/');
        } else {
            assert(vs.take(1) =~= seq![vs[0]]);
        }
        push_chars(&mut r, ps[i].as_slice());
        i = i + 1;
    }
    proof {
        assert(vs.take(vs.len() as int) =~= vs);
    }
    r
}

pub fn join_path_exec(dir: &[char], name: &[char]) -> (r: String)
    ensures
        r@ == join_path(dir@, name@),
{
    let mut r = string_of(dir);
    if dir.len() > 0 && dir[dir.len() - 1] != '/' {
        push_char(&mut r, '/');
    }
    push_chars(&mut r, name);
    r
}

/// The two paths given by component lists: `base` is a leading part of `path`
/// (`Path::starts_with`).
pub open spec fn parts_start_with(path: Seq<Seq<char>>, base: Seq<Seq<char>>) -> bool {
    base.is_prefix_of(path)
}

pub fn parts_start_with_exec(path: &Vec<Vec<char>>, base: &Vec<Vec<char>>) -> (r: bool)
    ensures
        r == parts_start_with(views(path@), views(base@)),
{
    if base.len() > path.len() {
        return false;
    }
    let mut i: usize = 0;
    while i < base.len()
        invariant
            base@.len() <= path@.len(),
            i <= base@.len(),
            forall|j: int| 0 <= j < i ==> views(base@)[j] == views(path@)[j],
        decreases base@.len() - i,
    {
        if !same_chars(base[i].as_slice(), path[i].as_slice()) {
            assert(views(base@)[i as int] != views(path@)[i as int]);
            return false;
        }
        i = i + 1;
    }
    true
}

/// The components of a request path that stays inside the served tree: `None` when a
/// `..` component would leave it, else its `Normal` components.
pub open spec fn safe_relative(s: Seq<char>) -> Option<Seq<Seq<char>>> {
    if split(s, '/').contains(seq!['.', '.']) {
        None
    } else {
        Some(normal_parts(s))
    }
}

/// The components of `path`, taken relative to the served root, or `None` when it
/// climbs out with `..`.
pub fn safe_relative_path(path: &str) -> (r: Option<Vec<String>>)
    ensures
        match r {
            Some(ps) => safe_relative(path@) == Some(strings(ps@)),
            None => safe_relative(path@) is None,
        },
{
    let v = chars_of(path);
    let pieces = split_exec(v.as_slice(), '/');
    let mut i: usize = 0;
    while i < pieces.len()
        invariant
            views(pieces@) == split(v@, '/'),
            v@ == path@,
            i <= pieces@.len(),
            forall|j: int| 0 <= j < i ==> views(pieces@)[j] != seq!['.', '.'],
        decreases pieces@.len() - i,
    {
        let p = &pieces[i];
        if p.len() == 2 && p[0] == '.' && p[1] == '.' {
            proof {
                assert(p@ =~= seq!['.', '.']);
                assert(views(pieces@)[i as int] == p@);
            }
            return None;
        }
        proof {
            if p@ == seq!['.', '.'] {
                assert(p@.len() == 2 && p@[0] == '.' && p@[1] == '.');
            }
        }
        i = i + 1;
    }
    proof {
        assert(!split(v@, '/').contains(seq!['.', '.']));
    }
    let parts = path_parts(v.as_slice(), true);
    let mut out: Vec<String> = Vec::new();
    let mut k: usize = 0;
    while k < parts.len()
        invariant
            k <= parts@.len(),
            out@.len() == k,
            forall|j: int| 0 <= j < k ==> #[trigger] out@[j]@ == parts@[j]@,
        decreases parts@.len() - k,
    {
        out.push(string_of(parts[k].as_slice()));
        k = k + 1;
    }
    proof {
        assert(strings(out@) =~= views(parts@));
    }
    Some(out)
}

/// `Path::join` of a relative component list onto `root`; the root itself when the
/// list is empty.
pub open spec fn join_relative(root: Seq<char>, relative: Seq<Seq<char>>) -> Seq<char> {
    if relative.len() == 0 {
        root
    } else {
        join_path(root, join_parts(relative))
    }
}

pub fn chars_list(v: &Vec<String>) -> (r: Vec<Vec<char>>)
    ensures
        views(r@) == strings(v@),
{
    let mut r: Vec<Vec<char>> = Vec::new();
    let mut k: usize = 0;
    while k < v.len()
        invariant
            k <= v@.len(),
            r@.len() == k,
            forall|j: int| 0 <= j < k ==> #[trigger] r@[j]@ == v@[j]@,
        decreases v@.len() - k,
    {
        r.push(chars_of(v[k].as_str()));
        k = k + 1;
    }
    proof {
        assert(views(r@) =~= strings(v@));
    }
    r
}

/// The path of `relative` under `root`.
pub fn join_relative_path(root: &str, relative: &Vec<String>) -> (r: String)
    ensures
        r@ == join_relative(root@, strings(relative@)),
{
    let rc = chars_of(root);
    if relative.len() == 0 {
        return string_of(rc.as_slice());
    }
    let parts = chars_list(relative);
    let joined = join_parts_exec(&parts);
    let jc = chars_of(joined.as_str());
    join_path_exec(rc.as_slice(), jc.as_slice())
}

/// The review file kept beside a Markdown file: the file name with `.review.json`
/// appended (`Path::with_file_name`), in normalised form.
pub open spec fn sidecar(p: Seq<char>) -> Seq<char> {
    let parts = named_parts(p);
    let absolute = p.len() > 0 && p[0] == '/';
    match file_name(p) {
        Some(n) => display(absolute, parts.drop_last().push(n + ".review.json"@)),
        None => display(absolute, parts.push(".review.json"@)),
    }
}

pub fn display_exec(absolute: bool, ps: &Vec<Vec<char>>) -> (r: String)
    ensures
        r@ == display(absolute, views(ps@)),
{
    let joined = join_parts_exec(ps);
    if absolute {
        let mut r = String::new();
        push_char(&mut r, '/');
        let jc = chars_of(joined.as_str());
        push_chars(&mut r, jc.as_slice());
        r
    } else {
        joined
    }
}

/// The review sidecar path of the Markdown file at `markdown_path`.
pub fn sidecar_path(markdown_path: &str) -> (r: String)
    ensures
        r@ == sidecar(markdown_path@),
{
    let v = chars_of(markdown_path);
    let mut parts = path_parts(v.as_slice(), false);
    let absolute = v.len() > 0 && v[0] == '/';
    let suffix = chars_of(".review.json");
    let ghost before = views(parts@);
    match file_name_of(markdown_path) {
        Some(n) => {
            let mut name = n;
            let mut k: usize = 0;
            let ghost n0 = name@;
            while k < suffix.len()
                invariant
                    k <= suffix@.len(),
                    name@ == n0 + suffix@.take(k as int),
                decreases suffix@.len() - k,
            {
                name.push(suffix[k]);
                proof {
                    assert(suffix@.take(k + 1) =~= suffix@.take(k as int).push(suffix@[k as int]));
                }
                k = k + 1;
            }
            proof {
                assert(suffix@.take(suffix@.len() as int) =~= suffix@);
            }
            parts.pop();
            parts.push(name);
            proof {
                assert(views(parts@) =~= before.drop_last().push(n0 + ".review.json"@));
            }
        },
        None => {
            parts.push(suffix);
            proof {
                assert(views(parts@) =~= before.push(".review.json"@));
            }
        },
    }
    display_exec(absolute, &parts)
}

/// Whether `path` names a review sidecar: its file name ends with `.md.review.json`,
/// ignoring ASCII case.
pub open spec fn is_sidecar(p: Seq<char>) -> bool {
    match file_name(p) {
        Some(n) => ".md.review.json"@.is_suffix_of(lower(n)),
        None => false,
    }
}

pub fn is_review_sidecar(path: &str) -> (r: bool)
    ensures
        r == is_sidecar(path@),
{
    match file_name_of(path) {
        Some(n) => {
            let l = lower_chars(n.as_slice());
            ends_with_text(l.as_slice(), ".md.review.json")
        },
        None => false,
    }
}

/// The parent directory of a path, `.` when it has none (`Path::parent`).
pub open spec fn parent_or_current(p: Seq<char>) -> Seq<char> {
    let parts = named_parts(p);
    if parts.len() > 0 {
        display(p.len() > 0 && p[0] == '/', parts.drop_last())
    } else {
        seq!['.']
    }
}

/// The gallery comments file shared by the images of one directory.
pub open spec fn gallery_comments_file(image: Seq<char>) -> Seq<char> {
    join_path(parent_or_current(image), ".gallery-comments.json"@)
}

pub fn comments_path(image_path: &str) -> (r: String)
    ensures
        r@ == gallery_comments_file(image_path@),
{
    let v = chars_of(image_path);
    let mut parts = path_parts(v.as_slice(), false);
    let parent = if parts.len() > 0 {
        let ghost before = views(parts@);
        parts.pop();
        proof {
            assert(views(parts@) =~= before.drop_last());
        }
        display_exec(v.len() > 0 && v[0] == '/', &parts)
    } else {
        let mut d = String::new();
        push_char(&mut d, '.');
        d
    };
    let pc = chars_of(parent.as_str());
    let name = chars_of(".gallery-comments.json");
    join_path_exec(pc.as_slice(), name.as_slice())
}

/// Whether `path` is a gallery comments file.
pub fn is_comments_file(path: &str) -> (r: bool)
    ensures
        r == (file_name(path@) == Some(".gallery-comments.json"@)),
{
    match file_name_of(path) {
        Some(n) => is_text(n.as_slice(), ".gallery-comments.json"),
        None => false,
    }
}

/// The URL of a list of components: each percent-encoded, joined by `/`, with a
/// leading `/`, and a trailing `/` for directories.
pub open spec fn parts_url(ps: Seq<Seq<char>>, is_dir: bool) -> Seq<char> {
    let url = seq!['/'] + join_parts(ps.map_values(|part: Seq<char>| crate::url::percent_encoded(part)));
    if is_dir && !(url.last() == '/') {
        url.push('/')
    } else {
        url
    }
}

/// The URL of a path: that of its `Normal` components.
pub open spec fn url_of(path: Seq<char>, is_dir: bool) -> Seq<char> {
    parts_url(normal_parts(path), is_dir)
}

pub fn parts_url_exec(parts: &Vec<Vec<char>>, is_dir: bool) -> (r: String)
    ensures
        r@ == parts_url(views(parts@), is_dir),
{
    let ghost ps = views(parts@);
    let mut encoded: Vec<Vec<char>> = Vec::new();
    let mut k: usize = 0;
    while k < parts.len()
        invariant
            ps == views(parts@),
            k <= ps.len(),
            encoded@.len() == k,
            forall|j: int| 0 <= j < k ==> #[trigger] encoded@[j]@ == crate::url::percent_encoded(ps[j]),
        decreases ps.len() - k,
    {
        let s = string_of(parts[k].as_slice());
        let e = crate::url::percent_encode_component(s.as_str());
        encoded.push(chars_of(e.as_str()));
        k = k + 1;
    }
    proof {
        assert(views(encoded@) =~= ps.map_values(|part: Seq<char>| crate::url::percent_encoded(part)));
    }
    let joined = join_parts_exec(&encoded);
    let mut url = String::new();
    push_char(&mut url, '/');
    let jc = chars_of(joined.as_str());
    push_chars(&mut url, jc.as_slice());
    let uc = chars_of(url.as_str());
    if is_dir && uc[uc.len() - 1] != '/' {
        push_char(&mut url, '/');
    }
    url
}

pub fn url_for_path(path: &str, is_dir: bool) -> (r: String)
    ensures
        r@ == url_of(path@, is_dir),
{
    let v = chars_of(path);
    let parts = path_parts(v.as_slice(), true);
    parts_url_exec(&parts, is_dir)
}

// ----- URLs lead back to their paths -------------------------------------------

/// `/` followed by the parts joined with `/`.
pub open spec fn rooted(ps: Seq<Seq<char>>) -> Seq<char> {
    seq!['/'] + join_parts(ps)
}

proof fn lemma_rooted_push(ps: Seq<Seq<char>>, x: Seq<char>)
    requires
        ps.len() > 0,
    ensures
        rooted(ps.push(x)) == rooted(ps) + seq!['/'] + x,
{
    assert(ps.push(x).drop_last() =~= ps);
    assert(rooted(ps.push(x)) =~= rooted(ps) + seq!['/'] + x);
}

/// The parts of `s` split at `sep` never hold `sep`.
proof fn lemma_split_parts_lack_sep(s: Seq<char>, sep: char)
    ensures
        forall|i: int| 0 <= i < split(s, sep).len() ==> !(#[trigger] split(s, sep)[i]).contains(sep),
    decreases s.len(),
{
    if s.len() > 0 {
        lemma_split_parts_lack_sep(s.drop_last(), sep);
        let p = split(s.drop_last(), sep);
        crate::text::lemma_split_nonempty(s.drop_last(), sep);
        if s.last() != sep {
            let q = p.last().push(s.last());
            assert forall|i: int| 0 <= i < split(s, sep).len() implies !(#[trigger] split(s, sep)[i]).contains(sep) by {
                if i == p.len() - 1 {
                    if q.contains(sep) {
                        let k = choose|k: int| 0 <= k < q.len() && q[k] == sep;
                        if k < p.last().len() {
                            assert(p.last()[k] == sep);
                        }
                    }
                }
            }
        } else {
            assert forall|i: int| 0 <= i < split(s, sep).len() implies !(#[trigger] split(s, sep)[i]).contains(sep) by {
                if i == p.len() {
                    assert(split(s, sep)[i] =~= Seq::<char>::empty());
                }
            }
        }
    }
}

/// Every part that `keep` keeps is one of the given parts and passes its test.
proof fn lemma_keep_parts(parts: Seq<Seq<char>>, normal_only: bool)
    ensures
        forall|i: int| 0 <= i < keep(parts, normal_only).len() ==> {
            &&& parts.contains(#[trigger] keep(parts, normal_only)[i])
            &&& normal_only ==> is_normal(keep(parts, normal_only)[i])
        },
    decreases parts.len(),
{
    if parts.len() > 0 {
        lemma_keep_parts(parts.drop_last(), normal_only);
        let r = keep(parts.drop_last(), normal_only);
        assert forall|i: int| 0 <= i < keep(parts, normal_only).len() implies {
            &&& parts.contains(#[trigger] keep(parts, normal_only)[i])
            &&& normal_only ==> is_normal(keep(parts, normal_only)[i])
        } by {
            if i < r.len() {
                assert(keep(parts, normal_only)[i] == r[i]);
                let k = choose|k: int| 0 <= k < parts.drop_last().len() && parts.drop_last()[k] == r[i];
                assert(parts[k] == r[i]);
            } else {
                assert(keep(parts, normal_only)[i] == parts.last());
                assert(parts[parts.len() - 1] == parts.last());
            }
        }
    }
}

/// The `Normal` components of a path are normal and hold no `/`.
pub proof fn lemma_normal_parts(s: Seq<char>)
    ensures
        forall|i: int| 0 <= i < normal_parts(s).len() ==> {
            &&& is_normal(#[trigger] normal_parts(s)[i])
            &&& !normal_parts(s)[i].contains('/')
        },
{
    lemma_keep_parts(split(s, '/'), true);
    lemma_split_parts_lack_sep(s, '/');
    assert forall|i: int| 0 <= i < normal_parts(s).len() implies {
        &&& is_normal(#[trigger] normal_parts(s)[i])
        &&& !normal_parts(s)[i].contains('/')
    } by {
        let parts = split(s, '/');
        let k = choose|k: int| 0 <= k < parts.len() && parts[k] == normal_parts(s)[i];
        assert(!parts[k].contains('/'));
    }
}

/// Appending text without the separator extends the last part.
proof fn lemma_split_append_plain(a: Seq<char>, x: Seq<char>, sep: char)
    requires
        !x.contains(sep),
    ensures
        split(a + x, sep) == split(a, sep).update(
            split(a, sep).len() - 1,
            split(a, sep).last() + x,
        ),
    decreases x.len(),
{
    crate::text::lemma_split_nonempty(a, sep);
    if x.len() == 0 {
        assert(a + x =~= a);
        assert(split(a, sep).last() + x =~= split(a, sep).last());
        assert(split(a, sep).update(split(a, sep).len() - 1, split(a, sep).last()) =~= split(a, sep));
    } else {
        let y = x.drop_last();
        assert(!y.contains(sep)) by {
            if y.contains(sep) {
                let k = choose|k: int| 0 <= k < y.len() && y[k] == sep;
                assert(x[k] == sep);
            }
        }
        lemma_split_append_plain(a, y, sep);
        assert((a + x).drop_last() =~= a + y);
        assert((a + x).last() == x.last());
        assert(x[x.len() - 1] == x.last());
        let p = split(a, sep);
        assert(split(a + y, sep).last() == p.last() + y);
        assert((p.last() + y).push(x.last()) =~= p.last() + x);
        assert(split(a + x, sep) =~= p.update(p.len() - 1, p.last() + x));
    }
}

/// Splitting a lone `/` gives two empty parts, which `keep` drops.
proof fn lemma_split_slash()
    ensures
        split(seq!['/'], '/') == seq![Seq::<char>::empty(), Seq::<char>::empty()],
        keep(seq![Seq::<char>::empty()], true) == Seq::<Seq<char>>::empty(),
        keep(seq![Seq::<char>::empty(), Seq::<char>::empty()], true) == Seq::<Seq<char>>::empty(),
{
    let e = Seq::<char>::empty();
    let s = seq!['/'];
    assert(s.drop_last() =~= e);
    assert(s.last() == '/');
    assert(split(e, '/') == seq![e]);
    assert(split(s, '/') =~= seq![e].push(e));
    assert(keep(Seq::<Seq<char>>::empty(), true) == Seq::<Seq<char>>::empty());
    assert(seq![e].drop_last() =~= Seq::<Seq<char>>::empty());
    assert(!is_normal(e));
    assert(keep(seq![e], true) == Seq::<Seq<char>>::empty());
    assert(seq![e, e].drop_last() =~= seq![e]);
    assert(keep(seq![e, e], true) == Seq::<Seq<char>>::empty());
}

/// Splitting `/` followed by parts joined with `/` gives an empty part, then the parts.
proof fn lemma_split_rooted(ps: Seq<Seq<char>>)
    requires
        ps.len() > 0,
        forall|i: int| 0 <= i < ps.len() ==> !(#[trigger] ps[i]).contains('/'),
    ensures
        split(rooted(ps), '/') == seq![Seq::<char>::empty()] + ps,
    decreases ps.len(),
{
    let e = Seq::<char>::empty();
    lemma_split_slash();
    if ps.len() == 1 {
        assert(rooted(ps) =~= seq!['/'] + ps[0]);
        lemma_split_append_plain(seq!['/'], ps[0], '/');
        assert(e + ps[0] =~= ps[0]);
        assert(seq![e, e].update(1, ps[0]) =~= seq![e] + ps);
    } else {
        let init = ps.drop_last();
        assert(init.push(ps.last()) =~= ps);
        lemma_split_rooted(init);
        lemma_rooted_push(init, ps.last());
        let a = rooted(init) + seq!['/'];
        assert(a.drop_last() =~= rooted(init));
        assert(split(a, '/') == (seq![e] + init).push(e));
        assert(ps[ps.len() - 1] == ps.last());
        lemma_split_append_plain(a, ps.last(), '/');
        assert(e + ps.last() =~= ps.last());
        assert((seq![e] + init).push(e).update(init.len() + 1int, ps.last()) =~= seq![e] + ps);
    }
}

/// `keep` drops a leading empty part and keeps normal ones.
proof fn lemma_keep_normal(ps: Seq<Seq<char>>)
    requires
        forall|i: int| 0 <= i < ps.len() ==> is_normal(#[trigger] ps[i]),
    ensures
        keep(seq![Seq::<char>::empty()] + ps, true) == ps,
    decreases ps.len(),
{
    let e = Seq::<char>::empty();
    lemma_split_slash();
    if ps.len() == 0 {
        assert(seq![e] + ps =~= seq![e]);
    } else {
        let init = ps.drop_last();
        assert(is_normal(ps[ps.len() - 1]));
        lemma_keep_normal(init);
        assert((seq![e] + ps).drop_last() =~= seq![e] + init);
        assert((seq![e] + ps).last() == ps.last());
        assert(ps[ps.len() - 1] == ps.last());
        assert(init.push(ps.last()) =~= ps);
    }
}

/// Text made only of percent-encodings holds no `/`.
proof fn lemma_encoded_lacks_slash(b: Seq<u8>)
    ensures
        !crate::url::encode_bytes(b).contains('/'),
    decreases b.len(),
{
    if b.len() > 0 {
        lemma_encoded_lacks_slash(b.skip(1));
        let e = crate::url::encode_byte(b[0]);
        let rest = crate::url::encode_bytes(b.skip(1));
        assert(crate::url::encode_bytes(b) == e + rest);
        if (e + rest).contains('/') {
            let k = choose|k: int| 0 <= k < (e + rest).len() && (e + rest)[k] == '/';
            if k >= e.len() {
                assert(rest[k - e.len()] == '/');
            } else {
                let x = b[0];
                if crate::url::is_unreserved(x) {
                    assert(e[0] == x as char);
                    assert((x as char) != '/');
                } else {
                    assert(e =~= seq!['%', crate::url::hex_digit((x / 16) as int), crate::url::hex_digit((x % 16) as int)]);
                }
            }
        }
    }
}

/// The encoding of a non-empty text is not empty.
proof fn lemma_encoded_nonempty(s: Seq<char>)
    requires
        s.len() > 0,
    ensures
        crate::url::percent_encoded(s).len() > 0,
{
    let b = vstd::utf8::encode_utf8(s);
    vstd::utf8::char_is_scalar(s[0]);
    assert(b =~= vstd::utf8::encode_scalar(s[0] as u32) + vstd::utf8::encode_utf8(s.drop_first()));
    assert(b.len() > 0);
    assert(crate::url::encode_bytes(b) =~= crate::url::encode_byte(b[0]) + crate::url::encode_bytes(b.skip(1)));
}

/// The bytes of the rooted, encoded parts decode to the bytes of the rooted parts.
proof fn lemma_rooted_decodes(ps: Seq<Seq<char>>)
    requires
        ps.len() > 0,
    ensures
        crate::url::decode_bytes(vstd::utf8::encode_utf8(rooted(ps.map_values(|p: Seq<char>| crate::url::percent_encoded(p)))))
            == Some(vstd::utf8::encode_utf8(rooted(ps))),
    decreases ps.len(),
{
    let es = ps.map_values(|p: Seq<char>| crate::url::percent_encoded(p));
    let slash = seq!['/'];
    crate::url::lemma_slash_bytes();
    if ps.len() == 1 {
        let e = es[0];
        assert(rooted(es) =~= slash + e);
        assert(rooted(ps) =~= slash + ps[0]);
        crate::url::lemma_encode_utf8_concat(slash, e);
        crate::url::lemma_encode_utf8_concat(slash, ps[0]);
        crate::url::lemma_encoded_bytes_decode(ps[0]);
        crate::url::lemma_decode_bytes_concat(seq![47u8], vstd::utf8::encode_utf8(e));
    } else {
        let init = ps.drop_last();
        let x = ps.last();
        let ies = init.map_values(|p: Seq<char>| crate::url::percent_encoded(p));
        assert(es.drop_last() =~= ies);
        assert(es.last() == crate::url::percent_encoded(x));
        assert(init.push(x) =~= ps);
        assert(ies.push(es.last()) =~= es);
        lemma_rooted_decodes(init);
        lemma_rooted_push(init, x);
        lemma_rooted_push(ies, es.last());
        let a = rooted(ies);
        let b = rooted(init);
        crate::url::lemma_encode_utf8_concat(a, slash);
        crate::url::lemma_encode_utf8_concat(a + slash, es.last());
        crate::url::lemma_encode_utf8_concat(b, slash);
        crate::url::lemma_encode_utf8_concat(b + slash, x);
        crate::url::lemma_encoded_bytes_decode(x);
        let ab = vstd::utf8::encode_utf8(a);
        let eb = vstd::utf8::encode_utf8(es.last());
        crate::url::lemma_decode_bytes_concat(seq![47u8], eb);
        crate::url::lemma_decode_bytes_concat(ab, seq![47u8] + eb);
        assert(ab + seq![47u8] + eb =~= ab + (seq![47u8] + eb));
        let bb = vstd::utf8::encode_utf8(b);
        assert(bb + (seq![47u8] + vstd::utf8::encode_utf8(x)) =~= bb + seq![47u8] + vstd::utf8::encode_utf8(x));
    }
}

/// The decoded form of the URL of the path with `Normal` components `ps`.
pub open spec fn decoded_url(ps: Seq<Seq<char>>, is_dir: bool) -> Seq<char> {
    if ps.len() == 0 {
        seq!['/']
    } else if is_dir {
        rooted(ps) + seq!['/']
    } else {
        rooted(ps)
    }
}

/// The URL of the `Normal` components `ps` decodes to them joined under `/`.
pub proof fn lemma_parts_url_decodes(ps: Seq<Seq<char>>, is_dir: bool)
    requires
        forall|i: int| 0 <= i < ps.len() ==> is_normal(#[trigger] ps[i]),
    ensures
        crate::url::percent_decoded(parts_url(ps, is_dir)) == Some(decoded_url(ps, is_dir)),
{
    broadcast use vstd::utf8::group_utf8_lib;

    let es = ps.map_values(|p: Seq<char>| crate::url::percent_encoded(p));
    let slash = seq!['/'];
    crate::url::lemma_slash_bytes();
    if ps.len() == 0 {
        assert(es =~= Seq::<Seq<char>>::empty());
        assert(parts_url(ps, is_dir) =~= slash);
        assert(crate::url::decode_bytes(vstd::utf8::encode_utf8(slash)) == Some(seq![47u8]));
        assert(vstd::utf8::decode_utf8(vstd::utf8::encode_utf8(slash)) == slash);
    } else {
        lemma_rooted_decodes(ps);
        let a = rooted(es);
        let last = es.last();
        assert(es[es.len() - 1] == last);
        assert(is_normal(ps[ps.len() - 1]));
        assert(ps.last().len() > 0) by {
            if ps.last().len() == 0 {
                assert(ps.last() =~= Seq::<char>::empty());
            }
        }
        lemma_encoded_nonempty(ps.last());
        lemma_encoded_lacks_slash(vstd::utf8::encode_utf8(ps.last()));
        if ps.len() == 1 {
            assert(a =~= slash + last);
        } else {
            assert(ps.drop_last().map_values(|p: Seq<char>| crate::url::percent_encoded(p)) =~= es.drop_last());
            assert(es.drop_last().push(last) =~= es);
            lemma_rooted_push(es.drop_last(), last);
        }
        assert(a.last() == last.last());
        assert(last[last.len() - 1] == last.last());
        assert(a.last() != '/');
        let d = rooted(ps);
        if is_dir {
            assert(parts_url(ps, is_dir) =~= a + slash);
            crate::url::lemma_encode_utf8_concat(a, slash);
            crate::url::lemma_encode_utf8_concat(d, slash);
            crate::url::lemma_decode_bytes_concat(vstd::utf8::encode_utf8(a), seq![47u8]);
            vstd::utf8::encode_utf8_decode_utf8(d + slash);
        } else {
            assert(parts_url(ps, is_dir) =~= a);
            vstd::utf8::encode_utf8_decode_utf8(d);
        }
    }
}

/// The decoded URL of the `Normal` components `ps` resolves to `ps` again.
pub proof fn lemma_decoded_url_resolves(ps: Seq<Seq<char>>, is_dir: bool)
    requires
        forall|i: int| 0 <= i < ps.len() ==> is_normal(#[trigger] ps[i]) && !ps[i].contains('/'),
    ensures
        safe_relative(decoded_url(ps, is_dir)) == Some(ps),
{
    let e = Seq::<char>::empty();
    let d = decoded_url(ps, is_dir);
    if ps.len() == 0 {
        lemma_split_slash();
        assert(!seq![e, e].contains(seq!['.', '.'])) by {
            if seq![e, e].contains(seq!['.', '.']) {
                let k = choose|k: int| 0 <= k < 2 && seq![e, e][k] == seq!['.', '.'];
                assert(seq!['.', '.'].len() == 2);
            }
        }
    } else {
        lemma_split_rooted(ps);
        lemma_keep_normal(ps);
        let parts = if is_dir {
            assert(d.drop_last() =~= rooted(ps));
            assert(split(d, '/') == (seq![e] + ps).push(e));
            assert((seq![e] + ps).push(e).drop_last() =~= seq![e] + ps);
            (seq![e] + ps).push(e)
        } else {
            seq![e] + ps
        };
        assert(split(d, '/') == parts);
        assert(keep(parts, true) == ps);
        assert(!parts.contains(seq!['.', '.'])) by {
            if parts.contains(seq!['.', '.']) {
                let k = choose|k: int| 0 <= k < parts.len() && parts[k] == seq!['.', '.'];
                if k == 0 || k == ps.len() + 1 {
                    assert(parts[k] == e);
                    assert(seq!['.', '.'].len() == 2);
                } else {
                    assert(parts[k] == ps[k - 1]);
                }
            }
        }
    }
}

// ----- Names of joined paths ----------------------------------------------------

/// Splitting parts joined with `/` gives the parts back.
proof fn lemma_split_joined(ps: Seq<Seq<char>>)
    requires
        ps.len() > 0,
        forall|i: int| 0 <= i < ps.len() ==> !(#[trigger] ps[i]).contains('/'),
    ensures
        split(join_parts(ps), '/') == ps,
    decreases ps.len(),
{
    let e = Seq::<char>::empty();
    if ps.len() == 1 {
        assert(split(e, '/') == seq![e]);
        assert(e + ps[0] =~= ps[0]);
        lemma_split_append_plain(e, ps[0], '/');
        assert(seq![e].update(0, ps[0]) =~= ps);
    } else {
        let init = ps.drop_last();
        assert(init.push(ps.last()) =~= ps);
        assert(ps[ps.len() - 1] == ps.last());
        lemma_split_joined(init);
        let a = join_parts(init) + seq!['/'];
        assert(a.drop_last() =~= join_parts(init));
        assert(split(a, '/') == init.push(e));
        lemma_split_append_plain(a, ps.last(), '/');
        assert(join_parts(ps) =~= a + ps.last());
        assert(e + ps.last() =~= ps.last());
        assert(init.push(e).update(init.len() as int, ps.last()) =~= ps);
    }
}

/// `keep` keeps every named part, and drops a leading empty one.
proof fn lemma_keep_named(ps: Seq<Seq<char>>, lead: bool)
    requires
        forall|i: int| 0 <= i < ps.len() ==> is_named(#[trigger] ps[i]),
    ensures
        keep(if lead { seq![Seq::<char>::empty()] + ps } else { ps }, false) == ps,
    decreases ps.len(),
{
    let e = Seq::<char>::empty();
    let full = if lead { seq![e] + ps } else { ps };
    if ps.len() == 0 {
        assert(keep(Seq::<Seq<char>>::empty(), false) == Seq::<Seq<char>>::empty());
        if lead {
            assert(full =~= seq![e]);
            assert(seq![e].drop_last() =~= Seq::<Seq<char>>::empty());
            assert(!is_named(e));
        } else {
            assert(full =~= Seq::<Seq<char>>::empty());
        }
    } else {
        let init = ps.drop_last();
        assert(is_named(ps[ps.len() - 1]));
        lemma_keep_named(init, lead);
        let finit = if lead { seq![e] + init } else { init };
        assert(full.drop_last() =~= finit);
        assert(full.last() == ps.last());
        assert(init.push(ps.last()) =~= ps);
    }
}

/// The named components of a path shown from named components without `/` are those
/// components.
proof fn lemma_named_parts_display(absolute: bool, ps: Seq<Seq<char>>)
    requires
        ps.len() > 0,
        forall|i: int| 0 <= i < ps.len() ==> is_named(#[trigger] ps[i]) && !ps[i].contains('/'),
    ensures
        named_parts(display(absolute, ps)) == ps,
{
    if absolute {
        lemma_split_rooted(ps);
        assert(display(absolute, ps) == rooted(ps));
        lemma_keep_named(ps, true);
    } else {
        lemma_split_joined(ps);
        lemma_keep_named(ps, false);
    }
}

/// Joining a name to a directory gives a path whose file name is that name.
pub proof fn lemma_file_name_of_join(dir: Seq<char>, name: Seq<char>)
    requires
        is_named(name),
        name != seq!['.', '.'],
        !name.contains('/'),
    ensures
        file_name(join_path(dir, name)) == Some(name),
{
    let e = Seq::<char>::empty();
    let p = join_path(dir, name);
    crate::text::lemma_split_nonempty(dir, '/');
    let base = if dir.len() == 0 {
        dir
    } else if dir.last() == '/' {
        dir
    } else {
        dir + seq!['/']
    };
    assert(p == base + name);
    assert(split(base, '/').last() == e) by {
        if base.len() == 0 {
            assert(split(base, '/') == seq![e]);
        } else {
            assert(base.last() == '/');
        }
    }
    crate::text::lemma_split_nonempty(base, '/');
    lemma_split_append_plain(base, name, '/');
    let b = split(base, '/');
    assert(e + name =~= name);
    assert(split(p, '/') == b.update(b.len() - 1, name));
    assert(split(p, '/').last() == name);
    assert(split(p, '/').drop_last() =~= b.drop_last());
}

/// The file name of a path is one of its named components, the last one.
proof fn lemma_file_name_parts(p: Seq<char>)
    requires
        file_name(p) is Some,
    ensures
        named_parts(p).len() > 0,
        named_parts(p).last() == file_name(p).unwrap(),
        forall|i: int| 0 <= i < named_parts(p).len() ==> is_named(#[trigger] named_parts(p)[i])
            && !named_parts(p)[i].contains('/'),
{
    let parts = split(p, '/');
    lemma_split_parts_lack_sep(p, '/');
    lemma_keep_parts(parts, false);
    assert forall|i: int| 0 <= i < named_parts(p).len() implies is_named(#[trigger] named_parts(p)[i])
        && !named_parts(p)[i].contains('/') by {
        lemma_keep_named_parts(parts, i);
        let k = choose|k: int| 0 <= k < parts.len() && parts[k] == named_parts(p)[i];
        assert(!parts[k].contains('/'));
    }
}

/// Every part `keep` keeps without the normal-only test is named.
proof fn lemma_keep_named_parts(parts: Seq<Seq<char>>, i: int)
    requires
        0 <= i < keep(parts, false).len(),
    ensures
        is_named(keep(parts, false)[i]),
    decreases parts.len(),
{
    if parts.len() > 0 {
        let r = keep(parts.drop_last(), false);
        if i < r.len() {
            lemma_keep_named_parts(parts.drop_last(), i);
            assert(keep(parts, false)[i] == r[i]);
        }
    }
}

/// The file name of a Markdown file's review sidecar is the file's name followed by
/// `.review.json`.
pub proof fn lemma_sidecar_name(p: Seq<char>, n: Seq<char>)
    requires
        file_name(p) == Some(n),
    ensures
        file_name(sidecar(p)) == Some(n + ".review.json"@),
{
    lemma_file_name_parts(p);
    let parts = named_parts(p);
    let m = n + ".review.json"@;
    let qs = parts.drop_last().push(m);
    assert(!m.contains('/')) by {
        reveal_strlit(".review.json");
        if m.contains('/') {
            let k = choose|k: int| 0 <= k < m.len() && m[k] == '/';
            if k < n.len() {
                assert(n[k] == '/');
                assert(n == parts[parts.len() - 1]);
            } else {
                assert(".review.json"@[k - n.len()] == '/');
            }
        }
    }
    assert(is_named(m) && m != seq!['.', '.']) by {
        reveal_strlit(".review.json");
        assert(m.len() >= 12);
    }
    assert forall|i: int| 0 <= i < qs.len() implies is_named(#[trigger] qs[i]) && !qs[i].contains('/') by {
        if i < qs.len() - 1 {
            assert(qs[i] == parts[i]);
        }
    }
    lemma_named_parts_display(p.len() > 0 && p[0] == '/', qs);
    assert(qs.last() == m);
}

} // verus!
