//! Directory listings: which entries are shown, their order, and the page that lists
//! them.
use vstd::prelude::*;
use crate::assets::{GALLERY_DELETE_DIALOG, GALLERY_MARKED_DELETE_DIALOG, GALLERY_ORGANISE_TOOLS};
use crate::markup::html_escaped;
use crate::order::{compare_text, text_lt};
use crate::text::{chars_of, push_str, string_of};

verus! {

broadcast use vstd::string::group_string_axioms;

/// The names a gallery comments file goes by: `.gallery-comments.json`, and the
/// same without the leading dot.
pub open spec fn is_comments_name(name: Seq<char>) -> bool {
    name == ".gallery-comments.json"@ || name == "gallery-comments.json"@
}

/// Whether a directory entry is listed: review and gallery comment files are not.
pub open spec fn is_listed(path: Seq<char>) -> bool {
    !crate::paths::is_sidecar(path) && !(crate::paths::file_name(path) matches Some(n) && is_comments_name(n))
}

pub fn listed_entry(path: &str) -> (r: bool)
    ensures
        r == is_listed(path@),
{
    if crate::paths::is_review_sidecar(path) {
        return false;
    }
    match crate::paths::file_name_of(path) {
        Some(n) => !(crate::text::is_text(n.as_slice(), ".gallery-comments.json") || crate::text::is_text(
            n.as_slice(),
            "gallery-comments.json",
        )),
        None => true,
    }
}

/// The gallery comments file of a directory never shows in its listing.
pub proof fn law_comments_file_unlisted(image: Seq<char>)
    ensures
        !is_listed(crate::paths::gallery_comments_file(image)),
{
    reveal_strlit(".gallery-comments.json");
    let name = ".gallery-comments.json"@;
    assert(name.len() == 22 && name[0] == '.' && name[1] == 'g');
    assert(!name.contains('/')) by {
        if name.contains('/') {
            let k = choose|k: int| 0 <= k < name.len() && name[k] == '/';
        }
    }
    crate::paths::lemma_file_name_of_join(crate::paths::parent_or_current(image), name);
}

/// The review sidecar of a Markdown file never shows in a listing.
pub proof fn law_sidecar_unlisted(path: Seq<char>, name: Seq<char>)
    requires
        crate::paths::file_name(path) == Some(name),
        ".md"@.is_suffix_of(crate::text::lower(name)),
    ensures
        !is_listed(crate::paths::sidecar(path)),
{
    reveal_strlit(".review.json");
    reveal_strlit(".md");
    reveal_strlit(".md.review.json");
    let tail = ".review.json"@;
    crate::paths::lemma_sidecar_name(path, name);
    let l = crate::text::lower(name + tail);
    assert(crate::text::lower(tail) =~= tail);
    assert(l =~= crate::text::lower(name) + tail);
    let ln = crate::text::lower(name);
    assert(".md.review.json"@ =~= ".md"@ + tail);
    assert(ln.len() >= 3);
    assert(l.subrange(l.len() - 15, l.len() as int) =~= ln.subrange(ln.len() - 3, ln.len() as int) + tail);
}

/// One entry of a directory listing, as the file system and the state store describe
/// it.
pub struct DirectoryEntry {
    pub name: String,
    /// The entry's path in the file system.
    pub path: String,
    pub is_dir: bool,
    pub size: u64,
    /// Milliseconds since the epoch of the last change.
    pub modified: u128,
    pub image_version: Option<String>,
    pub favourite: bool,
    pub deletion_marked: bool,
    pub directory_favourite: bool,
}

/// The lowercase form of a name under Unicode's case mapping.
pub uninterp spec fn unicode_lower(s: Seq<char>) -> Seq<char>;

/// `str::to_lowercase`: the Unicode lowercase mapping of `s`, a function of `s` alone.
#[verifier::external_body]
fn lowercase_of(s: &str) -> (r: String)
    ensures
        r@ == unicode_lower(s@),
{
    s.to_lowercase()
}

/// What entries are ordered by: favourites first, then directories, then by
/// lowercase name, then by name.
pub struct EntryKey {
    pub favourite: bool,
    pub is_dir: bool,
    pub lower: Seq<char>,
    pub name: Seq<char>,
}

pub open spec fn entry_key(e: DirectoryEntry) -> EntryKey {
    EntryKey { favourite: e.favourite, is_dir: e.is_dir, lower: unicode_lower(e.name@), name: e.name@ }
}

/// Entry key `a` comes strictly before `b`.
pub open spec fn key_lt(a: EntryKey, b: EntryKey) -> bool {
    if a.favourite != b.favourite {
        a.favourite
    } else if a.is_dir != b.is_dir {
        a.is_dir
    } else if a.lower != b.lower {
        text_lt(a.lower, b.lower)
    } else {
        text_lt(a.name, b.name)
    }
}

proof fn lemma_key_order(a: EntryKey, b: EntryKey, c: EntryKey)
    ensures
        !key_lt(a, a),
        key_lt(a, b) ==> !key_lt(b, a),
        key_lt(a, b) && key_lt(b, c) ==> key_lt(a, c),
        !key_lt(a, b) && !key_lt(b, a) ==> a == b,
{
    crate::order::lemma_text_lt_irreflexive(a.lower);
    crate::order::lemma_text_lt_irreflexive(a.name);
    crate::order::lemma_text_lt_asymmetric(a.lower, b.lower);
    crate::order::lemma_text_lt_asymmetric(a.name, b.name);
    crate::order::lemma_text_lt_total(a.lower, b.lower);
    crate::order::lemma_text_lt_total(a.name, b.name);
    if key_lt(a, b) && key_lt(b, c) {
        if a.favourite == b.favourite && b.favourite == c.favourite && a.is_dir == b.is_dir && b.is_dir
            == c.is_dir {
            if a.lower != b.lower && b.lower != c.lower {
                crate::order::lemma_text_lt_transitive(a.lower, b.lower, c.lower);
                crate::order::lemma_text_lt_irreflexive(a.lower);
            } else if a.lower == b.lower && b.lower == c.lower {
                crate::order::lemma_text_lt_transitive(a.name, b.name, c.name);
            }
        }
    }
}

/// `order` lists the indices of `keys` once each, sorted by key, equal keys in
/// index order.
pub open spec fn sorts(order: Seq<usize>, keys: Seq<EntryKey>) -> bool {
    &&& order.len() == keys.len()
    &&& forall|i: int| 0 <= i < order.len() ==> #[trigger] order[i] < keys.len()
    &&& order.no_duplicates()
    &&& forall|i: int, j: int|
        0 <= i < j < order.len() ==> !key_lt(keys[#[trigger] order[j] as int], keys[#[trigger] order[i] as int])
    &&& forall|i: int, j: int|
        0 <= i < j < order.len() && keys[#[trigger] order[i] as int] == keys[#[trigger] order[j] as int]
            ==> order[i] < order[j]
}

fn key_before(a: &DirectoryEntry, a_lower: &[char], b: &DirectoryEntry, b_lower: &[char]) -> (r: bool)
    requires
        a_lower@ == unicode_lower(a.name@),
        b_lower@ == unicode_lower(b.name@),
    ensures
        r == key_lt(entry_key(*a), entry_key(*b)),
{
    if a.favourite != b.favourite {
        a.favourite
    } else if a.is_dir != b.is_dir {
        a.is_dir
    } else {
        let c = compare_text(a_lower, b_lower);
        if c != 0 {
            c < 0
        } else {
            let an = chars_of(a.name.as_str());
            let bn = chars_of(b.name.as_str());
            compare_text(an.as_slice(), bn.as_slice()) < 0
        }
    }
}

/// The order of the listing: favourites first, then directories, then by name
/// ignoring case, then by name; entries alike keep their order.
pub fn listing_order(entries: &Vec<DirectoryEntry>) -> (r: Vec<usize>)
    ensures
        sorts(r@, entries@.map_values(|e: DirectoryEntry| entry_key(e))),
{
    let ghost keys = entries@.map_values(|e: DirectoryEntry| entry_key(e));
    let mut lowers: Vec<Vec<char>> = Vec::new();
    let mut k: usize = 0;
    while k < entries.len()
        invariant
            k <= entries@.len(),
            lowers@.len() == k,
            forall|j: int| 0 <= j < k ==> #[trigger] lowers@[j]@ == unicode_lower(entries@[j].name@),
        decreases entries@.len() - k,
    {
        let l = lowercase_of(entries[k].name.as_str());
        lowers.push(chars_of(l.as_str()));
        k = k + 1;
    }
    let mut order: Vec<usize> = Vec::new();
    let mut i: usize = 0;
    while i < entries.len()
        invariant
            keys == entries@.map_values(|e: DirectoryEntry| entry_key(e)),
            lowers@.len() == entries@.len(),
            forall|j: int| 0 <= j < entries@.len() ==> #[trigger] lowers@[j]@ == unicode_lower(entries@[j].name@),
            i <= entries@.len(),
            order@.len() == i,
            forall|j: int| 0 <= j < order@.len() ==> #[trigger] order@[j] < i,
            order@.no_duplicates(),
            forall|a: int, b: int|
                0 <= a < b < order@.len() ==> !key_lt(keys[#[trigger] order@[b] as int], keys[#[trigger] order@[a] as int]),
            forall|a: int, b: int|
                0 <= a < b < order@.len() && keys[#[trigger] order@[a] as int] == keys[#[trigger] order@[b] as int]
                    ==> order@[a] < order@[b],
        decreases entries@.len() - i,
    {
        let mut p: usize = 0;
        while p < order.len() && !key_before(
            &entries[i],
            lowers[i].as_slice(),
            &entries[order[p]],
            lowers[order[p]].as_slice(),
        )
            invariant
                keys == entries@.map_values(|e: DirectoryEntry| entry_key(e)),
                lowers@.len() == entries@.len(),
                forall|j: int| 0 <= j < entries@.len() ==> #[trigger] lowers@[j]@ == unicode_lower(entries@[j].name@),
                i < entries@.len(),
                p <= order@.len(),
                forall|j: int| 0 <= j < order@.len() ==> #[trigger] order@[j] < i,
                forall|j: int| 0 <= j < p ==> !key_lt(keys[i as int], keys[#[trigger] order@[j] as int]),
            decreases order@.len() - p,
        {
            p = p + 1;
        }
        let ghost old_order = order@;
        proof {
            if p < order@.len() {
                assert(key_lt(keys[i as int], keys[order@[p as int] as int]));
            }
        }
        order.insert(p, i);
        proof {
            let no = order@;
            assert(no =~= old_order.take(p as int).push(i).add(old_order.skip(p as int)));
            assert forall|j: int| 0 <= j < no.len() implies #[trigger] no[j] < i + 1 by {
                if j < p {
                    assert(no[j] == old_order[j]);
                } else if j > p {
                    assert(no[j] == old_order[j - 1]);
                }
            }
            assert(no.no_duplicates()) by {
                assert forall|a: int, b: int| 0 <= a < b < no.len() implies no[a] != no[b] by {
                    if a < p && b < p {
                        assert(no[a] == old_order[a] && no[b] == old_order[b]);
                    } else if a < p && b > p {
                        assert(no[a] == old_order[a] && no[b] == old_order[b - 1]);
                    } else if a > p && b > p {
                        assert(no[a] == old_order[a - 1] && no[b] == old_order[b - 1]);
                    } else if a == p {
                        if b > p {
                            assert(no[b] == old_order[b - 1]);
                        }
                    } else {
                        assert(no[a] == old_order[a]);
                    }
                }
            }
            assert forall|a: int, b: int| 0 <= a < b < no.len() implies !key_lt(keys[#[trigger] no[b] as int], keys[#[trigger] no[a] as int]) && (keys[no[a] as int] == keys[no[b] as int] ==> no[a] < no[b]) by {
                let ka = keys[no[a] as int];
                let kb = keys[no[b] as int];
                lemma_key_order(ka, kb, ka);
                if a < p && b < p {
                    assert(no[a] == old_order[a] && no[b] == old_order[b]);
                } else if a < p && b == p {
                    assert(no[a] == old_order[a]);
                    assert(no[b] == i);
                } else if a < p && b > p {
                    assert(no[a] == old_order[a] && no[b] == old_order[b - 1]);
                } else if a == p {
                    assert(no[a] == i);
                    assert(no[b] == old_order[b - 1]);
                    let q = p as int;
                    assert(key_lt(keys[i as int], keys[old_order[q] as int]));
                    if b - 1 > q {
                        lemma_key_order(keys[i as int], keys[old_order[q] as int], keys[old_order[b - 1] as int]);
                        lemma_key_order(keys[old_order[q] as int], keys[old_order[b - 1] as int], keys[old_order[q] as int]);
                        if key_lt(keys[old_order[q] as int], keys[old_order[b - 1] as int]) {
                        } else {
                            lemma_key_order(keys[old_order[b - 1] as int], keys[old_order[q] as int], keys[old_order[b - 1] as int]);
                        }
                    }
                    lemma_key_order(keys[i as int], keys[old_order[b - 1] as int], keys[i as int]);
                } else {
                    assert(no[a] == old_order[a - 1] && no[b] == old_order[b - 1]);
                }
            }
        }
        i = i + 1;
    }
    proof {
        assert forall|j: int| 0 <= j < order@.len() implies #[trigger] order@[j] < keys.len() by {}
    }
    order
}








pub struct EntryView {
    pub name: Seq<char>,
    pub path: Seq<char>,
    pub is_dir: bool,
    pub size: u64,
    pub modified: u128,
    pub image_version: Option<Seq<char>>,
    pub favourite: bool,
    pub deletion_marked: bool,
    pub directory_favourite: bool,
}

impl View for DirectoryEntry {
    type V = EntryView;

    open spec fn view(&self) -> EntryView {
        EntryView {
            name: self.name@,
            path: self.path@,
            is_dir: self.is_dir,
            size: self.size,
            modified: self.modified,
            image_version: crate::review::opt_text(self.image_version),
            favourite: self.favourite,
            deletion_marked: self.deletion_marked,
            directory_favourite: self.directory_favourite,
        }
    }
}

pub open spec fn bool_text(b: bool) -> Seq<char> {
    if b {
        "true"@
    } else {
        "false"@
    }
}

fn bool_str(b: bool) -> (r: &'static str)
    ensures
        r@ == bool_text(b),
{
    if b {
        "true"
    } else {
        "false"
    }
}

/// Where an entry of the listing of `relative` links to.
pub open spec fn entry_href(e: EntryView, relative: Seq<char>) -> Seq<char> {
    crate::paths::url_of(crate::paths::join_path(relative, e.name), e.is_dir)
}

pub open spec fn entry_is_image(e: EntryView) -> bool {
    !e.is_dir && crate::kinds::is_image_path(e.path)
}

pub open spec fn entry_is_video(e: EntryView) -> bool {
    !e.is_dir && crate::kinds::path_has_extension(e.path, "mp4"@)
}

/// The classes of an entry's row.
pub open spec fn entry_class(e: EntryView) -> Seq<char> {
    if e.is_dir {
        "folder"@
    } else if entry_is_image(e) && crate::kinds::path_has_extension(e.path, "svg"@) {
        "file image vector"@
    } else if entry_is_image(e) {
        "file image"@
    } else if entry_is_video(e) {
        "file video"@
    } else {
        "file"@
    }
}

/// The icon of an entry: a video symbol, its thumbnails, or nothing.
pub open spec fn entry_glyph(e: EntryView, href: Seq<char>, gallery_available: bool) -> Seq<char> {
    let thumb = if !e.is_dir {
        crate::kinds::thumbnail_link(href, e.path, e.size, false, e.image_version)
    } else {
        None
    };
    let gallery_thumb = if gallery_available {
        crate::kinds::thumbnail_link(href, e.path, e.size, true, e.image_version)
    } else {
        None
    };
    if entry_is_video(e) {
        "<span class=\"glyph\" aria-hidden=\"true\"><svg viewBox=\"0 0 24 18\"><rect x=\"1\" y=\"1\" width=\"22\" height=\"16\" rx=\"3\"></rect><path d=\"m10 5.5 6 3.5-6 3.5Z\"></path></svg></span>"@
    } else {
        match thumb {
            Some(src) => match gallery_thumb {
                Some(gallery_src) => "<span class=\"glyph\" aria-hidden=\"true\"><img data-list-src=\""@ + src + "\" data-gallery-src=\""@ + gallery_src + "\" alt=\"\" decoding=\"async\" draggable=\"false\" onerror=\"this.hidden=true;this.closest('.glyph').classList.add('thumbnail-error')\"></span>"@,
                None => "<span class=\"glyph\" aria-hidden=\"true\"><img data-list-src=\""@ + src + "\" alt=\"\" decoding=\"async\" draggable=\"false\" onerror=\"this.hidden=true;this.closest('.glyph').classList.add('thumbnail-error')\"></span>"@,
            },
            None => "<span class=\"glyph\" aria-hidden=\"true\"></span>"@,
        }
    }
}

/// The favourite and deletion marks of an image's icon.
pub open spec fn entry_marks(e: EntryView) -> Seq<char> {
    "<span class=\"favourite-mark\" title=\"已点赞\""@ + (if e.favourite { ""@ } else { " hidden"@ })
        + "><svg viewBox=\"0 0 24 24\" aria-hidden=\"true\"><path d=\"M12 21c-.45 0-.85-.18-1.2-.5l-6.7-6.2C1.35 11.75 1.2 7.75 3.7 5.2 6.05 2.8 10 2.85 12 5.45c2-2.6 5.95-2.65 8.3-.25 2.5 2.55 2.35 6.55-.4 9.1l-6.7 6.2c-.35.32-.75.5-1.2.5Z\"></path></svg></span><span class=\"deletion-mark\" title=\"待删除\""@
        + (if e.deletion_marked { ""@ } else { " hidden"@ }) + ">待删除</span></span>"@
}

/// The preview attributes of an image's row.
pub open spec fn entry_preview(e: EntryView, relative: Seq<char>, href: Seq<char>) -> Seq<char> {
    let version = match e.image_version {
        Some(v) => v,
        None => Seq::<char>::empty(),
    };
    let original_src = href + "?mode=asset&amp;v="@ + version;
    let preview_src = match crate::kinds::gallery_preview_link(href, e.path, e.size, e.image_version) {
        Some(u) => u,
        None => original_src,
    };
    " data-favourite=\""@ + bool_text(e.favourite) + "\" data-deletion-marked=\""@
        + bool_text(e.deletion_marked) + "\" data-file-path=\""@
        + html_escaped(crate::paths::join_path(relative, e.name)) + "\" data-file-size=\""@
        + html_escaped(crate::sizes::size_text(e.size as nat)) + "\" data-preview-src=\""@ + preview_src
        + "\" data-original-src=\""@ + original_src + "\" data-list-href=\""@ + href
        + "\" data-gallery-href=\""@ + href + "?view=gallery\""@
}

/// The row of an entry in the listing of `relative`.
pub open spec fn entry_row(e: EntryView, relative: Seq<char>, gallery_available: bool) -> Seq<char> {
    let href = entry_href(e, relative);
    let plain_glyph = entry_glyph(e, href, gallery_available);
    let glyph = if entry_is_image(e) {
        crate::text::replace_first(plain_glyph, "</span>"@, entry_marks(e))
    } else {
        plain_glyph
    };
    if e.is_dir {
        "<div class=\"entry "@ + entry_class(e) + "\" data-modified=\""@
            + crate::respond::decimal(e.modified as nat) + "\"><a class=\"folder-open\" href=\""@
            + href + "\">"@ + glyph + "<span class=\"entry-name\">"@ + html_escaped(e.name)
            + "</span><span class=\"kind\">"@ + "dir"@ + "</span><span class=\"detail\">"@ + "目录"@
            + "</span><span class=\"arrow\" aria-hidden=\"true\">→</span></a><button class=\"folder-favourite-toggle\" type=\"button\" data-directory-favourite-toggle=\""@
            + href + "\" aria-pressed=\""@ + bool_text(e.directory_favourite) + "\" aria-label=\""@
            + (if e.directory_favourite { "移出收藏夹"@ } else { "添加到收藏夹"@ }) + "："@
            + html_escaped(e.name) + "\" title=\""@
            + (if e.directory_favourite { "移出收藏夹"@ } else { "添加到收藏夹"@ }) + "\">"@
            + (if e.directory_favourite { "★"@ } else { "☆"@ }) + "</button></div>"@
    } else {
        let preview = if entry_is_image(e) {
            entry_preview(e, relative, href)
        } else {
            Seq::<char>::empty()
        };
        "<a class=\"entry "@ + entry_class(e) + "\" href=\""@ + href + "\" data-modified=\""@
            + crate::respond::decimal(e.modified as nat) + "\""@ + preview + ">"@ + glyph
            + "<span class=\"entry-name\">"@ + html_escaped(e.name)
            + "</span><span class=\"kind\">"@ + crate::kinds::file_kind_of(e.path)
            + "</span><span class=\"detail\">"@ + crate::sizes::size_text(e.size as nat)
            + "</span><span class=\"arrow\" aria-hidden=\"true\">→</span></a>"@
    }
}

fn entry_row_exec(e: &DirectoryEntry, relative: &str, gallery_available: bool) -> (r: String)
    ensures
        r@ == entry_row(e@, relative@, gallery_available),
{
    proof {
        reveal_strlit("</span>");
        assert("</span>"@.len() == 7);
    }
    let rc = chars_of(relative);
    let nc = chars_of(e.name.as_str());
    let entry_path = crate::paths::join_path_exec(rc.as_slice(), nc.as_slice());
    let href = crate::paths::url_for_path(entry_path.as_str(), e.is_dir);
    let is_image = !e.is_dir && crate::kinds::is_image_file(e.path.as_str());
    let is_video = !e.is_dir && crate::kinds::path_has_extension_exec(e.path.as_str(), "mp4");
    let version: Option<&str> = match &e.image_version {
        Some(v) => Some(v.as_str()),
        None => None,
    };
    proof {
        assert(crate::kinds::opt_view(version) == e@.image_version);
    }
    let thumb = if !e.is_dir {
        crate::kinds::thumbnail_url(href.as_str(), e.path.as_str(), e.size, false, version)
    } else {
        None
    };
    let gallery_thumb = if gallery_available {
        crate::kinds::thumbnail_url(href.as_str(), e.path.as_str(), e.size, true, version)
    } else {
        None
    };
    let class = if e.is_dir {
        "folder"
    } else if is_image && crate::kinds::path_has_extension_exec(e.path.as_str(), "svg") {
        "file image vector"
    } else if is_image {
        "file image"
    } else if is_video {
        "file video"
    } else {
        "file"
    };
    let plain_glyph = if is_video {
        string_of(chars_of("<span class=\"glyph\" aria-hidden=\"true\"><svg viewBox=\"0 0 24 18\"><rect x=\"1\" y=\"1\" width=\"22\" height=\"16\" rx=\"3\"></rect><path d=\"m10 5.5 6 3.5-6 3.5Z\"></path></svg></span>").as_slice())
    } else {
        match thumb {
            Some(src) => match gallery_thumb {
                Some(gallery_src) => {
                    let mut g = String::new();
                    push_str(&mut g, "<span class=\"glyph\" aria-hidden=\"true\"><img data-list-src=\"");
                    push_str(&mut g, src.as_str());
                    push_str(&mut g, "\" data-gallery-src=\"");
                    push_str(&mut g, gallery_src.as_str());
                    push_str(&mut g, "\" alt=\"\" decoding=\"async\" draggable=\"false\" onerror=\"this.hidden=true;this.closest('.glyph').classList.add('thumbnail-error')\"></span>");
                    g
                },
                None => {
                    let mut g = String::new();
                    push_str(&mut g, "<span class=\"glyph\" aria-hidden=\"true\"><img data-list-src=\"");
                    push_str(&mut g, src.as_str());
                    push_str(&mut g, "\" alt=\"\" decoding=\"async\" draggable=\"false\" onerror=\"this.hidden=true;this.closest('.glyph').classList.add('thumbnail-error')\"></span>");
                    g
                },
            },
            None => string_of(chars_of("<span class=\"glyph\" aria-hidden=\"true\"></span>").as_slice()),
        }
    };
    proof {
        assert(plain_glyph@ =~= entry_glyph(e@, href@, gallery_available));
    }
    let glyph = if is_image {
        let favourite_hidden = if e.favourite { "" } else { " hidden" };
        let deletion_hidden = if e.deletion_marked { "" } else { " hidden" };
        let mut m = String::new();
        push_str(&mut m, "<span class=\"favourite-mark\" title=\"已点赞\"");
        push_str(&mut m, favourite_hidden);
        push_str(&mut m, "><svg viewBox=\"0 0 24 24\" aria-hidden=\"true\"><path d=\"M12 21c-.45 0-.85-.18-1.2-.5l-6.7-6.2C1.35 11.75 1.2 7.75 3.7 5.2 6.05 2.8 10 2.85 12 5.45c2-2.6 5.95-2.65 8.3-.25 2.5 2.55 2.35 6.55-.4 9.1l-6.7 6.2c-.35.32-.75.5-1.2.5Z\"></path></svg></span><span class=\"deletion-mark\" title=\"待删除\"");
        push_str(&mut m, deletion_hidden);
        push_str(&mut m, ">待删除</span></span>");
        proof {
            assert(m@ =~= entry_marks(e@));
        }
        crate::text::replace_first_exec(plain_glyph.as_str(), "</span>", m.as_str())
    } else {
        plain_glyph
    };
    let name = crate::markup::escape_html(e.name.as_str());
    let mut modified = String::new();
    crate::respond::push_decimal_wide(&mut modified, e.modified);
    let mut r = String::new();
    if e.is_dir {
        let label = if e.directory_favourite { "移出收藏夹" } else { "添加到收藏夹" };
        let star = if e.directory_favourite { "★" } else { "☆" };
        push_str(&mut r, "<div class=\"entry ");
        push_str(&mut r, class);
        push_str(&mut r, "\" data-modified=\"");
        push_str(&mut r, modified.as_str());
        push_str(&mut r, "\"><a class=\"folder-open\" href=\"");
        push_str(&mut r, href.as_str());
        push_str(&mut r, "\">");
        push_str(&mut r, glyph.as_str());
        push_str(&mut r, "<span class=\"entry-name\">");
        push_str(&mut r, name.as_str());
        push_str(&mut r, "</span><span class=\"kind\">");
        push_str(&mut r, "dir");
        push_str(&mut r, "</span><span class=\"detail\">");
        push_str(&mut r, "目录");
        push_str(&mut r, "</span><span class=\"arrow\" aria-hidden=\"true\">→</span></a><button class=\"folder-favourite-toggle\" type=\"button\" data-directory-favourite-toggle=\"");
        push_str(&mut r, href.as_str());
        push_str(&mut r, "\" aria-pressed=\"");
        push_str(&mut r, bool_str(e.directory_favourite));
        push_str(&mut r, "\" aria-label=\"");
        push_str(&mut r, label);
        push_str(&mut r, "：");
        push_str(&mut r, name.as_str());
        push_str(&mut r, "\" title=\"");
        push_str(&mut r, label);
        push_str(&mut r, "\">");
        push_str(&mut r, star);
        push_str(&mut r, "</button></div>");
    } else {
        let shown = crate::sizes::human_size(e.size);
        let detail = crate::markup::escape_html(shown.as_str());
        let kind = crate::kinds::file_kind(e.path.as_str());
        let preview = if is_image {
            let v = match version {
                Some(v) => v,
                None => "",
            };
            proof {
                reveal_strlit("");
                assert(v@ == (match e@.image_version {
                    Some(x) => x,
                    None => Seq::<char>::empty(),
                }));
            }
            let mut original_src = string_of(chars_of(href.as_str()).as_slice());
            push_str(&mut original_src, "?mode=asset&amp;v=");
            push_str(&mut original_src, v);
            let preview_src = match crate::kinds::gallery_preview_url(href.as_str(), e.path.as_str(), e.size, version) {
                Some(u) => u,
                None => string_of(chars_of(original_src.as_str()).as_slice()),
            };
            let entry_path = crate::markup::escape_html(entry_path.as_str());
            let mut p = String::new();
            push_str(&mut p, " data-favourite=\"");
            push_str(&mut p, bool_str(e.favourite));
            push_str(&mut p, "\" data-deletion-marked=\"");
            push_str(&mut p, bool_str(e.deletion_marked));
            push_str(&mut p, "\" data-file-path=\"");
            push_str(&mut p, entry_path.as_str());
            push_str(&mut p, "\" data-file-size=\"");
            push_str(&mut p, detail.as_str());
            push_str(&mut p, "\" data-preview-src=\"");
            push_str(&mut p, preview_src.as_str());
            push_str(&mut p, "\" data-original-src=\"");
            push_str(&mut p, original_src.as_str());
            push_str(&mut p, "\" data-list-href=\"");
            push_str(&mut p, href.as_str());
            push_str(&mut p, "\" data-gallery-href=\"");
            push_str(&mut p, href.as_str());
            push_str(&mut p, "?view=gallery\"");
            proof {
                assert(p@ =~= entry_preview(e@, relative@, href@));
            }
            p
        } else {
            String::new()
        };
        push_str(&mut r, "<a class=\"entry ");
        push_str(&mut r, class);
        push_str(&mut r, "\" href=\"");
        push_str(&mut r, href.as_str());
        push_str(&mut r, "\" data-modified=\"");
        push_str(&mut r, modified.as_str());
        push_str(&mut r, "\"");
        push_str(&mut r, preview.as_str());
        push_str(&mut r, ">");
        push_str(&mut r, glyph.as_str());
        push_str(&mut r, "<span class=\"entry-name\">");
        push_str(&mut r, name.as_str());
        push_str(&mut r, "</span><span class=\"kind\">");
        push_str(&mut r, kind);
        push_str(&mut r, "</span><span class=\"detail\">");
        push_str(&mut r, shown.as_str());
        push_str(&mut r, "</span><span class=\"arrow\" aria-hidden=\"true\">→</span></a>");
    }
    proof {
        assert(r@ =~= entry_row(e@, relative@, gallery_available));
    }
    r
}


/// A favourite directory, with the name the user gave it.
pub struct FavouriteDirectory {
    pub path: String,
    pub label: Option<String>,
}

/// The components of `path` below `root`: none when it is not within `root`.
pub open spec fn relative_parts(path: Seq<char>, root: Seq<char>) -> Seq<Seq<char>> {
    if crate::favourites::path_starts_with(path, root) {
        crate::favourites::components(path).skip(crate::favourites::components(root).len() as int)
    } else {
        Seq::<Seq<char>>::empty()
    }
}

/// The link of one favourite directory; `active` when it is the directory shown.
pub open spec fn favourite_item(rel: Seq<Seq<char>>, custom: Option<Seq<char>>, active: bool) -> Seq<char> {
    let href = crate::paths::url_of(crate::paths::join_parts(rel), true);
    let path_label = if rel.len() == 0 {
        "root"@
    } else {
        crate::paths::join_parts(rel)
    };
    let label = match custom {
        Some(l) => l,
        None => path_label,
    };
    let label_html = if custom is Some {
        html_escaped(label)
    } else if rel.len() > 0 && rel.last() != seq!['.', '.'] {
        if rel.len() == 1 {
            html_escaped(label)
        } else {
"<span class=\"directory-favourite-prefix\">"@ + html_escaped(crate::paths::join_parts(rel.drop_last())) + "</span><span class=\"directory-favourite-separator\">/</span><span class=\"directory-favourite-leaf\">"@ + html_escaped(rel.last()) + "</span>"@
        }
    } else {
        html_escaped(label)
    };
    "<span class=\"directory-favourite\" data-directory-favourite-path=\""@ + href
        + "\" draggable=\"true\"><button class=\"directory-favourite-drag\" type=\"button\" aria-label=\"拖动排序："@
        + label + "\" title=\"拖动排序\">⠿</button><a href=\""@ + href + "\""@
        + (if active { " aria-current=\"page\""@ } else { ""@ }) + " title=\""@ + label + "\">"@
        + label_html + "</a><button type=\"button\" data-directory-favourite-remove=\""@ + href
        + "\" aria-label=\"移出收藏夹："@ + label + "\" title=\"移出收藏夹\">×</button></span>"@
}

/// The favourite items from the `k`th on, each with its place in the list.
pub open spec fn favourite_items(fs: Seq<(Seq<char>, Option<Seq<char>>)>, root: Seq<char>, directory: Seq<char>) -> Seq<Seq<char>> {
    fs.map_values(
        |f: (Seq<char>, Option<Seq<char>>)|
            favourite_item(
                relative_parts(f.0, root),
                f.1,
                crate::favourites::components(f.0) == crate::favourites::components(directory),
            ),
    )
}

/// Text pieces joined together.
pub open spec fn concat(pieces: Seq<Seq<char>>) -> Seq<char>
    decreases pieces.len(),
{
    if pieces.len() == 0 {
        Seq::empty()
    } else {
        concat(pieces.drop_last()) + pieces.last()
    }
}

/// The bar of favourite directories within `root`, the first three shown and the rest
/// in a menu; nothing when there are none.
pub open spec fn favourites_bar(fs: Seq<(Seq<char>, Option<Seq<char>>)>, root: Seq<char>, directory: Seq<char>) -> Seq<char> {
    if fs.len() == 0 {
        Seq::empty()
    } else {
        let all = favourite_items(fs, root, directory);
        let items = concat(all.take(if all.len() < 3 { all.len() as int } else { 3 }));
        let more_items = concat(all.skip(if all.len() < 3 { all.len() as int } else { 3 }));
        let more = if fs.len() > 3 {
            "<details class=\"directory-favourites-more\"><summary aria-label=\"展开更多收藏目录\"><span>更多</span><svg viewBox=\"0 0 16 16\" aria-hidden=\"true\"><path d=\"m4.5 6 3.5 3.5L11.5 6\"/></svg></summary><div class=\"directory-favourites-menu\">"@
                + more_items + "</div></details>"@
        } else {
            Seq::<char>::empty()
        };
        "<nav class=\"directory-favourites\" aria-label=\"收藏目录\"><span class=\"directory-favourites-label\">收藏夹</span><div class=\"directory-favourites-list\">"@
            + items + "</div>"@ + more + "</nav>"@
    }
}

pub open spec fn favourite_views(v: Seq<FavouriteDirectory>) -> Seq<(Seq<char>, Option<Seq<char>>)> {
    v.map_values(|f: FavouriteDirectory| (f.path@, crate::review::opt_text(f.label)))
}

fn relative_parts_exec(path: &str, root: &str) -> (r: Vec<Vec<char>>)
    ensures
        crate::text::views(r@) == relative_parts(path@, root@),
{
    if !crate::favourites::starts_with_path(path, root) {
        return Vec::new();
    }
    let p = crate::favourites::path_components(path);
    let b = crate::favourites::path_components(root);
    let mut r: Vec<Vec<char>> = Vec::new();
    let mut i = b.len();
    proof {
        assert(crate::text::views(p@).skip(b@.len() as int).take(0) =~= Seq::<Seq<char>>::empty());
    }
    while i < p.len()
        invariant
            crate::text::views(p@) == crate::favourites::components(path@),
            crate::text::views(b@) == crate::favourites::components(root@),
            b@.len() <= i <= p@.len(),
            crate::text::views(r@) == crate::text::views(p@).skip(b@.len() as int).take(i - b@.len()),
        decreases p@.len() - i,
    {
        let c = string_of(p[i].as_slice());
        r.push(chars_of(c.as_str()));
        proof {
            let ps = crate::text::views(p@).skip(b@.len() as int);
            assert(ps.take(i + 1 - b@.len()) =~= ps.take(i - b@.len()).push(p@[i as int]@));
            assert(crate::text::views(r@) =~= ps.take(i + 1 - b@.len()));
        }
        i = i + 1;
    }
    proof {
        let ps = crate::text::views(p@).skip(b@.len() as int);
        assert(ps.take(i - b@.len()) =~= ps);
    }
    r
}

fn favourite_item_exec(rel: &Vec<Vec<char>>, custom: &Option<String>, active: bool) -> (r: String)
    ensures
        r@ == favourite_item(crate::text::views(rel@), crate::review::opt_text(*custom), active),
{
    let ghost rv = crate::text::views(rel@);
    let joined = crate::paths::join_parts_exec(rel);
    let href = crate::paths::url_for_path(joined.as_str(), true);
    let label = match custom {
        Some(l) => string_of(chars_of(l.as_str()).as_slice()),
        None => if rel.len() == 0 {
            string_of(chars_of("root").as_slice())
        } else {
            string_of(chars_of(joined.as_str()).as_slice())
        },
    };
    let is_parent_dir = rel.len() > 0 && crate::text::is_text(rel[rel.len() - 1].as_slice(), "..");
    proof {
        reveal_strlit("..");
        assert(".."@ =~= seq!['.', '.']);
        if rel@.len() > 0 {
            assert(rv.last() == rel@[rel@.len() - 1]@);
        }
    }
    let label_html = if custom.is_some() {
        crate::markup::escape_html(label.as_str())
    } else if rel.len() > 0 && !is_parent_dir {
        if rel.len() == 1 {
            crate::markup::escape_html(label.as_str())
        } else {
            let mut parent = crate::text::views_clone(rel);
            parent.pop();
            let parent_text = crate::paths::join_parts_exec(&parent);
            let prefix = crate::markup::escape_html(parent_text.as_str());
            let leaf_text = string_of(rel[rel.len() - 1].as_slice());
            let leaf = crate::markup::escape_html(leaf_text.as_str());
            proof {
                assert(crate::text::views(parent@) =~= rv.drop_last());
            }
            let mut lh = String::new();
                push_str(&mut lh, "<span class=\"directory-favourite-prefix\">");
                push_str(&mut lh, prefix.as_str());
                push_str(&mut lh, "</span><span class=\"directory-favourite-separator\">/</span><span class=\"directory-favourite-leaf\">");
                push_str(&mut lh, leaf.as_str());
                push_str(&mut lh, "</span>");
            lh
        }
    } else {
        crate::markup::escape_html(label.as_str())
    };
    let active_attr = if active { " aria-current=\"page\"" } else { "" };
    let mut item = String::new();
        push_str(&mut item, "<span class=\"directory-favourite\" data-directory-favourite-path=\"");
        push_str(&mut item, href.as_str());
        push_str(&mut item, "\" draggable=\"true\"><button class=\"directory-favourite-drag\" type=\"button\" aria-label=\"拖动排序：");
        push_str(&mut item, label.as_str());
        push_str(&mut item, "\" title=\"拖动排序\">⠿</button><a href=\"");
        push_str(&mut item, href.as_str());
        push_str(&mut item, "\"");
        push_str(&mut item, active_attr);
        push_str(&mut item, " title=\"");
        push_str(&mut item, label.as_str());
        push_str(&mut item, "\">");
        push_str(&mut item, label_html.as_str());
        push_str(&mut item, "</a><button type=\"button\" data-directory-favourite-remove=\"");
        push_str(&mut item, href.as_str());
        push_str(&mut item, "\" aria-label=\"移出收藏夹：");
        push_str(&mut item, label.as_str());
        push_str(&mut item, "\" title=\"移出收藏夹\">×</button></span>");
    proof {
        assert(item@ =~= favourite_item(rv, crate::review::opt_text(*custom), active));
    }
    item
}

/// The bar of favourite directories shown on the listing of `directory`, in the
/// served tree `root`.
pub fn render_directory_favourites(favourites: &Vec<FavouriteDirectory>, root: &str, directory: &str) -> (r: String)
    ensures
        r@ == favourites_bar(favourite_views(favourites@), root@, directory@),
{
    let ghost fs = favourite_views(favourites@);
    if favourites.len() == 0 {
        return String::new();
    }
    let ghost all = favourite_items(fs, root@, directory@);
    let dc = crate::favourites::path_components(directory);
    let mut items = String::new();
    let mut more_items = String::new();
    let mut i: usize = 0;
    proof {
        assert(all.take(0) =~= Seq::<Seq<char>>::empty());
    }
    while i < favourites.len()
        invariant
            fs == favourite_views(favourites@),
            all == favourite_items(fs, root@, directory@),
            crate::text::views(dc@) == crate::favourites::components(directory@),
            i <= fs.len(),
            items@ == concat(all.take(if i < 3 { i as int } else { 3 })),
            more_items@ == (if i <= 3 { Seq::<char>::empty() } else { concat(all.take(i as int).skip(3)) }),
        decreases fs.len() - i,
    {
        let f = &favourites[i];
        let rel = relative_parts_exec(f.path.as_str(), root);
        let pc = crate::favourites::path_components(f.path.as_str());
        let active = crate::text::same_char_lists(&pc, &dc);
        let item = favourite_item_exec(&rel, &f.label, active);
        proof {
            assert(item@ == all[i as int]);
        }
        if i < 3 {
            push_str(&mut items, item.as_str());
            proof {
                assert(all.take(i + 1).drop_last() =~= all.take(i as int));
            }
        } else {
            push_str(&mut more_items, item.as_str());
            proof {
                if i == 3 {
                    let one = all.take(4).skip(3);
                    assert(one =~= seq![all[3]]);
                    assert(one.last() == all[3]);
                    assert(one.drop_last() =~= Seq::<Seq<char>>::empty());
                    assert(concat(one.drop_last()) =~= Seq::<char>::empty());
                    assert(concat(one) == concat(one.drop_last()) + one.last());
                    assert(more_items@ =~= concat(one));
                } else {
                    assert(all.take(i + 1).skip(3).drop_last() =~= all.take(i as int).skip(3));
                    assert(all.take(i + 1).skip(3).last() == all[i as int]);
                }
            }
        }
        i = i + 1;
    }
    proof {
        assert(all.take(i as int) =~= all);
        assert(all.len() == fs.len());
        if fs.len() > 3 {
            assert(all.skip(3) =~= all.take(i as int).skip(3));
        } else {
            assert(all.skip(all.len() as int) =~= Seq::<Seq<char>>::empty());
        }
    }
    let mut more = String::new();
    if favourites.len() > 3 {
        push_str(&mut more, "<details class=\"directory-favourites-more\"><summary aria-label=\"展开更多收藏目录\"><span>更多</span><svg viewBox=\"0 0 16 16\" aria-hidden=\"true\"><path d=\"m4.5 6 3.5 3.5L11.5 6\"/></svg></summary><div class=\"directory-favourites-menu\">");
        push_str(&mut more, more_items.as_str());
        push_str(&mut more, "</div></details>");
    }
    let mut r = String::new();
    push_str(&mut r, "<nav class=\"directory-favourites\" aria-label=\"收藏目录\"><span class=\"directory-favourites-label\">收藏夹</span><div class=\"directory-favourites-list\">");
    push_str(&mut r, items.as_str());
    push_str(&mut r, "</div>");
    push_str(&mut r, more.as_str());
    push_str(&mut r, "</nav>");
    proof {
        assert(r@ =~= favourites_bar(fs, root@, directory@));
    }
    r
}


/// How many of the entries are directories.
pub open spec fn count_dirs(es: Seq<EntryView>) -> nat
    decreases es.len(),
{
    if es.len() == 0 {
        0
    } else {
        count_dirs(es.drop_last()) + if es.last().is_dir {
            1nat
        } else {
            0nat
        }
    }
}

/// How many of the entries are images.
pub open spec fn count_images(es: Seq<EntryView>) -> nat
    decreases es.len(),
{
    if es.len() == 0 {
        0
    } else {
        count_images(es.drop_last()) + if entry_is_image(es.last()) {
            1nat
        } else {
            0nat
        }
    }
}

proof fn lemma_count_dirs_bound(es: Seq<EntryView>)
    ensures
        count_dirs(es) <= es.len(),
    decreases es.len(),
{
    if es.len() > 0 {
        lemma_count_dirs_bound(es.drop_last());
    }
}

/// The button that adds the shown directory to the favourites or takes it out; none
/// at the root.
pub open spec fn favourite_toggle(is_root: bool, directory_favourite: bool) -> Seq<char> {
    if is_root {
        ""@
    } else if directory_favourite {
        "<button class=\"directory-favourite-toggle\" id=\"directory-favourite-toggle\" type=\"button\" aria-pressed=\"true\">移出收藏夹</button>"@
    } else {
        "<button class=\"directory-favourite-toggle\" id=\"directory-favourite-toggle\" type=\"button\" aria-pressed=\"false\">添加到收藏夹</button>"@
    }
}

/// The rows of the entries in the given order.
pub open spec fn rows_html(es: Seq<EntryView>, order: Seq<usize>, relative: Seq<char>, gallery: bool) -> Seq<char> {
    concat(order.map_values(|k: usize| entry_row(es[k as int], relative, gallery)))
}

/// The listing page of the directory `relative` with entries `es` shown in `order`:
/// `is_root` for the served root, `directory_favourite` when the directory is a
/// favourite, `favourites_bar` the bar of favourites, and the page's style and scripts.
pub open spec fn directory_page(
    es: Seq<EntryView>,
    order: Seq<usize>,
    relative: Seq<char>,
    is_root: bool,
    directory_favourite: bool,
    favourites_bar: Seq<char>,
    css: Seq<char>,
    shortcuts_js: Seq<char>,
    directory_js: Seq<char>,
) -> Seq<char> {
    let gallery = (es.len() - count_dirs(es)) > 0 && count_images(es) > 0;
    let title = match crate::paths::file_name(relative) {
        Some(n) => n,
        None => "根目录"@,
    };
    let rows = rows_html(es, order, relative, gallery);
    let listing = rows + "<div class=\"empty\" id=\"directory-empty\" role=\"status\""@ + (if rows.len() == 0 { ""@ } else { " hidden"@ }) + "><span aria-hidden=\"true\">∅</span><p>这个目录是空的</p></div>"@ + "<h2 class=\"gallery-other-heading\">其他文件</h2>"@;
    "<!doctype html>\n<html lang=\"zh-CN\">\n<head>\n<meta charset=\"utf-8\">\n<meta name=\"viewport\" content=\"width=device-width, initial-scale=1\">\n<link rel=\"icon\" href=\"/favicon.svg\" type=\"image/svg+xml\">\n<title>"@
        + html_escaped(title) + " · 文件浏览</title>\n<style>"@ + css
        + "</style>\n</head>\n<body>\n<main><nav class=\"breadcrumbs\" aria-label=\"当前位置\">"@
        + crate::pages::breadcrumbs(crate::paths::normal_parts(relative)) + "</nav>"@
        + favourites_bar + "<header><p class=\"eyebrow\">WEBDIR / DIRECTORY</p><h1>"@
        + html_escaped(title) + "</h1><p class=\"summary\">"@
        + crate::respond::decimal(count_dirs(es)) + " 个目录 · "@
        + crate::respond::decimal((es.len() - count_dirs(es)) as nat) + " 个文件</p>"@
        + favourite_toggle(is_root, directory_favourite)
        + (if gallery { "<button class=\"view-toggle\" id=\"gallery-toggle\" type=\"button\" aria-pressed=\"false\"><span aria-hidden=\"true\">▦</span> Gallery</button>"@ } else { ""@ })
        + "<div class=\"directory-browser-tools\"><input class=\"directory-search\" id=\"directory-search\" type=\"search\" aria-label=\"搜索文件名\" placeholder=\"搜索当前目录的文件名…\" autocomplete=\"off\"><label class=\"directory-sort\">排序<select id=\"directory-sort\" aria-label=\"目录排序\"><option value=\"default\">默认</option><option value=\"modified\">按修改时间</option><option value=\"name\">按名称</option></select></label></div>"@
        + (if gallery { GALLERY_ORGANISE_TOOLS@ } else { ""@ })
        + "<p class=\"directory-notice\" id=\"directory-notice\" role=\"status\" hidden></p></header><section class=\"listing\" aria-label=\"目录内容\">"@
        + listing
        + "</section></main><nav class=\"scroll-jumps\" id=\"scroll-jumps\" aria-label=\"页面快速跳转\" hidden><button id=\"scroll-to-top\" type=\"button\" aria-label=\"回到顶部\" title=\"回到顶部\"><svg viewBox=\"0 0 24 24\" aria-hidden=\"true\"><path d=\"m6 14 6-6 6 6\"></path><path d=\"M6 19h12\"></path></svg></button><button id=\"scroll-to-bottom\" type=\"button\" aria-label=\"回到底部\" title=\"回到底部\"><svg viewBox=\"0 0 24 24\" aria-hidden=\"true\"><path d=\"m6 10 6 6 6-6\"></path><path d=\"M6 5h12\"></path></svg></button></nav><div class=\"image-lightbox\" id=\"image-lightbox\" role=\"dialog\" aria-modal=\"true\" aria-label=\"图片预览\" hidden><button class=\"lightbox-close\" type=\"button\" aria-label=\"关闭图片预览\">×</button><div class=\"lightbox-shell\"><div class=\"lightbox-position\" id=\"lightbox-position\" aria-live=\"polite\"></div><nav class=\"lightbox-filmstrip\" id=\"lightbox-filmstrip\" aria-label=\"图片缩略图导航\"></nav><figure><div class=\"lightbox-stage\"><img class=\"lightbox-image\" alt=\"\"><div class=\"favourite-burst\" id=\"favourite-burst\" aria-hidden=\"true\" hidden><svg viewBox=\"0 0 24 24\"><path d=\"M20.8 4.6a5.5 5.5 0 0 0-7.8 0L12 5.7l-1.1-1.1a5.5 5.5 0 0 0-7.8 7.8l1.1 1.1L12 21l7.7-7.5 1.1-1.1a5.5 5.5 0 0 0 0-7.8Z\"></path></svg></div></div><figcaption><span class=\"lightbox-name\"></span><span class=\"lightbox-controls\"><button class=\"preview-step\" id=\"preview-previous\" type=\"button\" aria-label=\"上一张\" title=\"上一张\">←</button><button class=\"favourite-toggle\" id=\"favourite-toggle\" type=\"button\" aria-label=\"点赞 (f)\" aria-pressed=\"false\" title=\"点赞 (f)\">♡</button><button class=\"preview-step\" id=\"preview-next\" type=\"button\" aria-label=\"下一张\" title=\"下一张\">→</button><button class=\"deletion-toggle\" id=\"deletion-toggle\" type=\"button\" aria-label=\"标记待删除 (d)\" aria-pressed=\"false\" title=\"标记待删除 (d)\">标记删除</button><button class=\"carousel-toggle\" id=\"carousel-toggle\" type=\"button\" aria-label=\"进入轮播 (p)\" aria-pressed=\"false\" title=\"进入轮播 (p)\">轮播</button></span></figcaption><p class=\"lightbox-error\" id=\"favourite-error\" role=\"status\" hidden></p><p class=\"lightbox-error\" id=\"deletion-mark-error\" role=\"status\" hidden></p></figure></div>"@
        + GALLERY_DELETE_DIALOG@ + "</div>"@ + GALLERY_MARKED_DELETE_DIALOG@ + "\n<script>"@
        + shortcuts_js + "</script><script>"@ + directory_js + "</script>\n</body>\n</html>"@
}

pub open spec fn entry_views(v: Seq<DirectoryEntry>) -> Seq<EntryView> {
    v.map_values(|e: DirectoryEntry| e@)
}

/// The listing page of the directory `relative`.
pub fn render_directory_page(
    entries: &Vec<DirectoryEntry>,
    relative: &str,
    is_root: bool,
    directory_favourite: bool,
    favourites_bar: &str,
    css: &str,
    shortcuts_js: &str,
    directory_js: &str,
) -> (r: String)
    ensures
        exists|order: Seq<usize>|
            sorts(order, entries@.map_values(|e: DirectoryEntry| entry_key(e))) && r@ == directory_page(
                entry_views(entries@),
                order,
                relative@,
                is_root,
                directory_favourite,
                favourites_bar@,
                css@,
                shortcuts_js@,
                directory_js@,
            ),
{
    let ghost es = entry_views(entries@);
    let mut dirs: usize = 0;
    let mut images: usize = 0;
    let mut k: usize = 0;
    proof {
        assert(es.take(0) =~= Seq::<EntryView>::empty());
    }
    while k < entries.len()
        invariant
            es == entry_views(entries@),
            k <= es.len(),
            dirs == count_dirs(es.take(k as int)),
            images == count_images(es.take(k as int)),
            dirs <= k,
            images <= k,
        decreases es.len() - k,
    {
        proof {
            assert(es.take(k + 1).drop_last() =~= es.take(k as int));
            assert(es.take(k + 1).last() == entries@[k as int]@);
        }
        if entries[k].is_dir {
            dirs = dirs + 1;
        }
        if !entries[k].is_dir && crate::kinds::is_image_file(entries[k].path.as_str()) {
            images = images + 1;
        }
        k = k + 1;
    }
    proof {
        assert(es.take(k as int) =~= es);
    }
    let gallery = (entries.len() - dirs) > 0 && images > 0;
    let order = listing_order(entries);
    let ghost ov = order@;
    let mut rows = String::new();
    let ghost pieces = ov.map_values(|j: usize| entry_row(es[j as int], relative@, gallery));
    let mut i: usize = 0;
    proof {
        assert(pieces.take(0) =~= Seq::<Seq<char>>::empty());
    }
    while i < order.len()
        invariant
            es == entry_views(entries@),
            ov == order@,
            sorts(ov, entries@.map_values(|e: DirectoryEntry| entry_key(e))),
            pieces == ov.map_values(|j: usize| entry_row(es[j as int], relative@, gallery)),
            i <= ov.len(),
            rows@ == concat(pieces.take(i as int)),
        decreases ov.len() - i,
    {
        let row = entry_row_exec(&entries[order[i]], relative, gallery);
        push_str(&mut rows, row.as_str());
        proof {
            assert(pieces.take(i + 1).drop_last() =~= pieces.take(i as int));
            assert(pieces.take(i + 1).last() == pieces[i as int]);
        }
        i = i + 1;
    }
    proof {
        assert(pieces.take(i as int) =~= pieces);
    }
    let ghost row_text = rows@;
    let empty_hidden = if crate::text::chars_of(rows.as_str()).len() == 0 { "" } else { " hidden" };
    proof {
        reveal_strlit("");
    }
    push_str(&mut rows, "<div class=\"empty\" id=\"directory-empty\" role=\"status\"");
    push_str(&mut rows, empty_hidden);
    push_str(&mut rows, "><span aria-hidden=\"true\">∅</span><p>这个目录是空的</p></div>");
    push_str(&mut rows, "<h2 class=\"gallery-other-heading\">其他文件</h2>");
    let title = match crate::paths::file_name_of(relative) {
        Some(n) => crate::markup::escape_html(string_of(n.as_slice()).as_str()),
        None => crate::markup::escape_html("根目录"),
    };
    let crumbs = crate::pages::render_breadcrumbs(relative);
    let mut dir_count = String::new();
    crate::respond::push_decimal(&mut dir_count, dirs as u64);
    let mut file_count = String::new();
    crate::respond::push_decimal(&mut file_count, (entries.len() - dirs) as u64);
    let toggle = if is_root {
        ""
    } else if directory_favourite {
        "<button class=\"directory-favourite-toggle\" id=\"directory-favourite-toggle\" type=\"button\" aria-pressed=\"true\">移出收藏夹</button>"
    } else {
        "<button class=\"directory-favourite-toggle\" id=\"directory-favourite-toggle\" type=\"button\" aria-pressed=\"false\">添加到收藏夹</button>"
    };
    let gallery_toggle = if gallery {
        "<button class=\"view-toggle\" id=\"gallery-toggle\" type=\"button\" aria-pressed=\"false\"><span aria-hidden=\"true\">▦</span> Gallery</button>"
    } else {
        ""
    };
    let gallery_tools = if gallery { GALLERY_ORGANISE_TOOLS } else { "" };
    let mut r = String::new();
    push_str(&mut r, "<!doctype html>\n<html lang=\"zh-CN\">\n<head>\n<meta charset=\"utf-8\">\n<meta name=\"viewport\" content=\"width=device-width, initial-scale=1\">\n<link rel=\"icon\" href=\"/favicon.svg\" type=\"image/svg+xml\">\n<title>");
    push_str(&mut r, title.as_str());
    push_str(&mut r, " · 文件浏览</title>\n<style>");
    push_str(&mut r, css);
    push_str(&mut r, "</style>\n</head>\n<body>\n<main><nav class=\"breadcrumbs\" aria-label=\"当前位置\">");
    push_str(&mut r, crumbs.as_str());
    push_str(&mut r, "</nav>");
    push_str(&mut r, favourites_bar);
    push_str(&mut r, "<header><p class=\"eyebrow\">WEBDIR / DIRECTORY</p><h1>");
    push_str(&mut r, title.as_str());
    push_str(&mut r, "</h1><p class=\"summary\">");
    push_str(&mut r, dir_count.as_str());
    push_str(&mut r, " 个目录 · ");
    push_str(&mut r, file_count.as_str());
    push_str(&mut r, " 个文件</p>");
    push_str(&mut r, toggle);
    push_str(&mut r, gallery_toggle);
    push_str(&mut r, "<div class=\"directory-browser-tools\"><input class=\"directory-search\" id=\"directory-search\" type=\"search\" aria-label=\"搜索文件名\" placeholder=\"搜索当前目录的文件名…\" autocomplete=\"off\"><label class=\"directory-sort\">排序<select id=\"directory-sort\" aria-label=\"目录排序\"><option value=\"default\">默认</option><option value=\"modified\">按修改时间</option><option value=\"name\">按名称</option></select></label></div>");
    push_str(&mut r, gallery_tools);
    push_str(&mut r, "<p class=\"directory-notice\" id=\"directory-notice\" role=\"status\" hidden></p></header><section class=\"listing\" aria-label=\"目录内容\">");
    push_str(&mut r, rows.as_str());
    push_str(&mut r, "</section></main><nav class=\"scroll-jumps\" id=\"scroll-jumps\" aria-label=\"页面快速跳转\" hidden><button id=\"scroll-to-top\" type=\"button\" aria-label=\"回到顶部\" title=\"回到顶部\"><svg viewBox=\"0 0 24 24\" aria-hidden=\"true\"><path d=\"m6 14 6-6 6 6\"></path><path d=\"M6 19h12\"></path></svg></button><button id=\"scroll-to-bottom\" type=\"button\" aria-label=\"回到底部\" title=\"回到底部\"><svg viewBox=\"0 0 24 24\" aria-hidden=\"true\"><path d=\"m6 10 6 6 6-6\"></path><path d=\"M6 5h12\"></path></svg></button></nav><div class=\"image-lightbox\" id=\"image-lightbox\" role=\"dialog\" aria-modal=\"true\" aria-label=\"图片预览\" hidden><button class=\"lightbox-close\" type=\"button\" aria-label=\"关闭图片预览\">×</button><div class=\"lightbox-shell\"><div class=\"lightbox-position\" id=\"lightbox-position\" aria-live=\"polite\"></div><nav class=\"lightbox-filmstrip\" id=\"lightbox-filmstrip\" aria-label=\"图片缩略图导航\"></nav><figure><div class=\"lightbox-stage\"><img class=\"lightbox-image\" alt=\"\"><div class=\"favourite-burst\" id=\"favourite-burst\" aria-hidden=\"true\" hidden><svg viewBox=\"0 0 24 24\"><path d=\"M20.8 4.6a5.5 5.5 0 0 0-7.8 0L12 5.7l-1.1-1.1a5.5 5.5 0 0 0-7.8 7.8l1.1 1.1L12 21l7.7-7.5 1.1-1.1a5.5 5.5 0 0 0 0-7.8Z\"></path></svg></div></div><figcaption><span class=\"lightbox-name\"></span><span class=\"lightbox-controls\"><button class=\"preview-step\" id=\"preview-previous\" type=\"button\" aria-label=\"上一张\" title=\"上一张\">←</button><button class=\"favourite-toggle\" id=\"favourite-toggle\" type=\"button\" aria-label=\"点赞 (f)\" aria-pressed=\"false\" title=\"点赞 (f)\">♡</button><button class=\"preview-step\" id=\"preview-next\" type=\"button\" aria-label=\"下一张\" title=\"下一张\">→</button><button class=\"deletion-toggle\" id=\"deletion-toggle\" type=\"button\" aria-label=\"标记待删除 (d)\" aria-pressed=\"false\" title=\"标记待删除 (d)\">标记删除</button><button class=\"carousel-toggle\" id=\"carousel-toggle\" type=\"button\" aria-label=\"进入轮播 (p)\" aria-pressed=\"false\" title=\"进入轮播 (p)\">轮播</button></span></figcaption><p class=\"lightbox-error\" id=\"favourite-error\" role=\"status\" hidden></p><p class=\"lightbox-error\" id=\"deletion-mark-error\" role=\"status\" hidden></p></figure></div>");
    push_str(&mut r, GALLERY_DELETE_DIALOG);
    push_str(&mut r, "</div>");
    push_str(&mut r, GALLERY_MARKED_DELETE_DIALOG);
    push_str(&mut r, "\n<script>");
    push_str(&mut r, shortcuts_js);
    push_str(&mut r, "</script><script>");
    push_str(&mut r, directory_js);
    push_str(&mut r, "</script>\n</body>\n</html>");
    proof {
        assert(r@ =~= directory_page(
            es,
            ov,
            relative@,
            is_root,
            directory_favourite,
            favourites_bar@,
            css@,
            shortcuts_js@,
            directory_js@,
        ));
    }
    r
}

} // verus!
