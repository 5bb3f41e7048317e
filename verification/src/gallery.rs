//! The comments left on the images of a gallery, kept in one document per directory.
use vstd::prelude::*;
use crate::paths::file_name;
use crate::review::opt_text;
use crate::text::{chars_of, same_chars, string_of};

verus! {

/// One comment on one image of the directory.
pub struct GalleryComment {
    pub id: String,
    pub image: String,
    pub author: String,
    pub body: String,
    pub created_at: String,
    pub edited_at: Option<String>,
}

pub struct GalleryCommentView {
    pub id: Seq<char>,
    pub image: Seq<char>,
    pub author: Seq<char>,
    pub body: Seq<char>,
    pub created_at: Seq<char>,
    pub edited_at: Option<Seq<char>>,
}

impl View for GalleryComment {
    type V = GalleryCommentView;

    open spec fn view(&self) -> GalleryCommentView {
        GalleryCommentView {
            id: self.id@,
            image: self.image@,
            author: self.author@,
            body: self.body@,
            created_at: self.created_at@,
            edited_at: opt_text(self.edited_at),
        }
    }
}

/// The comments document of a directory.
pub struct GalleryComments {
    pub version: u32,
    pub comments: Vec<GalleryComment>,
}

pub struct GalleryCommentsView {
    pub version: u32,
    pub comments: Seq<GalleryCommentView>,
}

pub open spec fn gallery_comments_view(v: Seq<GalleryComment>) -> Seq<GalleryCommentView> {
    v.map_values(|c: GalleryComment| c@)
}

impl View for GalleryComments {
    type V = GalleryCommentsView;

    open spec fn view(&self) -> GalleryCommentsView {
        GalleryCommentsView { version: self.version, comments: gallery_comments_view(self.comments@) }
    }
}

/// A change asked of the comments document.
pub enum GalleryCommentAction {
    Add { comment: GalleryComment },
    Edit { comment_id: String, body: String, edited_at: String },
    Delete { comment_id: String },
    DeleteAll,
}

pub enum GalleryActionView {
    Add { comment: GalleryCommentView },
    Edit { comment_id: Seq<char>, body: Seq<char>, edited_at: Seq<char> },
    Delete { comment_id: Seq<char> },
    DeleteAll,
}

impl View for GalleryCommentAction {
    type V = GalleryActionView;

    open spec fn view(&self) -> GalleryActionView {
        match self {
            GalleryCommentAction::Add { comment } => GalleryActionView::Add { comment: comment@ },
            GalleryCommentAction::Edit { comment_id, body, edited_at } => GalleryActionView::Edit {
                comment_id: comment_id@,
                body: body@,
                edited_at: edited_at@,
            },
            GalleryCommentAction::Delete { comment_id } => GalleryActionView::Delete {
                comment_id: comment_id@,
            },
            GalleryCommentAction::DeleteAll => GalleryActionView::DeleteAll,
        }
    }
}

/// The version a new comments document gets.
pub fn gallery_version() -> (r: u32)
    ensures
        r == 1,
{
    1
}

impl GalleryComments {
    /// The document of a directory that has no comments yet.
    pub fn new() -> (r: Self)
        ensures
            r@.version == 1,
            r@.comments == Seq::<GalleryCommentView>::empty(),
    {
        let r = GalleryComments { version: gallery_version(), comments: Vec::new() };
        assert(gallery_comments_view(r.comments@) =~= Seq::<GalleryCommentView>::empty());
        r
    }
}

/// `i` is the first comment with id `id`.
pub open spec fn is_first_gallery_comment(cs: Seq<GalleryCommentView>, id: Seq<char>, i: int) -> bool {
    &&& 0 <= i < cs.len()
    &&& cs[i].id == id
    &&& forall|j: int| 0 <= j < i ==> cs[j].id != id
}

pub open spec fn has_gallery_comment(cs: Seq<GalleryCommentView>, id: Seq<char>) -> bool {
    exists|i: int| 0 <= i < cs.len() && cs[i].id == id
}

pub open spec fn gallery_comment_index(cs: Seq<GalleryCommentView>, id: Seq<char>) -> int {
    choose|i: int| is_first_gallery_comment(cs, id, i)
}

/// The name of the image a path points at: its file name, or nothing.
pub open spec fn image_name(image_path: Seq<char>) -> Seq<char> {
    match file_name(image_path) {
        Some(n) => n,
        None => Seq::<char>::empty(),
    }
}

/// The comments that are not on image `image`, in their order.
pub open spec fn without_image(cs: Seq<GalleryCommentView>, image: Seq<char>) -> Seq<GalleryCommentView> {
    cs.filter(|c: GalleryCommentView| c.image != image)
}

/// What an action makes of the document, for the image at `image_path`: the new
/// document, or the error that refuses the action (and leaves it unchanged).
pub open spec fn apply_gallery(d: GalleryCommentsView, image_path: Seq<char>, action: GalleryActionView) -> Result<
    GalleryCommentsView,
    Seq<char>,
> {
    match action {
        GalleryActionView::Add { comment } => if has_gallery_comment(d.comments, comment.id) {
            Err(crate::review::err_comment_exists())
        } else {
            Ok(GalleryCommentsView { comments: d.comments.push(comment), ..d })
        },
        GalleryActionView::Edit { comment_id, body, edited_at } => if has_gallery_comment(d.comments, comment_id) {
            let i = gallery_comment_index(d.comments, comment_id);
            let c = d.comments[i];
            Ok(
                GalleryCommentsView {
                    comments: d.comments.update(
                        i,
                        GalleryCommentView { body, edited_at: Some(edited_at), ..c },
                    ),
                    ..d
                },
            )
        } else {
            Err(crate::review::err_no_comment())
        },
        GalleryActionView::Delete { comment_id } => if has_gallery_comment(d.comments, comment_id) {
            Ok(
                GalleryCommentsView {
                    comments: d.comments.remove(gallery_comment_index(d.comments, comment_id)),
                    ..d
                },
            )
        } else {
            Err(crate::review::err_no_comment())
        },
        GalleryActionView::DeleteAll => Ok(
            GalleryCommentsView { comments: without_image(d.comments, image_name(image_path)), ..d },
        ),
    }
}

proof fn lemma_first_gallery_comment(cs: Seq<GalleryCommentView>, id: Seq<char>, w: int)
    requires
        0 <= w < cs.len(),
        cs[w].id == id,
    ensures
        is_first_gallery_comment(cs, id, gallery_comment_index(cs, id)),
    decreases w,
{
    if forall|j: int| 0 <= j < w ==> cs[j].id != id {
        assert(is_first_gallery_comment(cs, id, w));
    } else {
        let j = choose|j: int| 0 <= j < w && cs[j].id == id;
        lemma_first_gallery_comment(cs, id, j);
    }
}

/// The position of the first comment with id `id`, if any.
fn find_gallery_comment(cs: &Vec<GalleryComment>, id: &String) -> (r: Option<usize>)
    ensures
        match r {
            Some(i) => is_first_gallery_comment(gallery_comments_view(cs@), id@, i as int),
            None => !has_gallery_comment(gallery_comments_view(cs@), id@),
        },
{
    let ghost v = gallery_comments_view(cs@);
    let want = chars_of(id.as_str());
    let mut i: usize = 0;
    while i < cs.len()
        invariant
            v == gallery_comments_view(cs@),
            want@ == id@,
            i <= cs@.len(),
            forall|j: int| 0 <= j < i ==> v[j].id != id@,
        decreases cs@.len() - i,
    {
        let have = chars_of(cs[i].id.as_str());
        if same_chars(have.as_slice(), want.as_slice()) {
            return Some(i);
        }
        i = i + 1;
    }
    None
}

fn copy_text(s: &String) -> (r: String)
    ensures
        r@ == s@,
{
    string_of(chars_of(s.as_str()).as_slice())
}

fn copy_comment(c: &GalleryComment) -> (r: GalleryComment)
    ensures
        r@ == c@,
{
    let edited_at = match &c.edited_at {
        Some(e) => Some(copy_text(e)),
        None => None,
    };
    GalleryComment {
        id: copy_text(&c.id),
        image: copy_text(&c.image),
        author: copy_text(&c.author),
        body: copy_text(&c.body),
        created_at: copy_text(&c.created_at),
        edited_at,
    }
}

/// The comments of `cs` that are not on image `image`, in their order.
fn retain_other_images(cs: &Vec<GalleryComment>, image: &[char]) -> (r: Vec<GalleryComment>)
    ensures
        gallery_comments_view(r@) == without_image(gallery_comments_view(cs@), image@),
{
    let ghost v = gallery_comments_view(cs@);
    let ghost keep = |c: GalleryCommentView| c.image != image@;
    let mut kept: Vec<GalleryComment> = Vec::new();
    let mut i: usize = 0;
    proof {
        assert(v.take(0) =~= Seq::<GalleryCommentView>::empty());
        reveal(Seq::filter);
    }
    while i < cs.len()
        invariant
            v == gallery_comments_view(cs@),
            keep == (|c: GalleryCommentView| c.image != image@),
            i <= cs@.len(),
            gallery_comments_view(kept@) == v.take(i as int).filter(keep),
        decreases cs@.len() - i,
    {
        let ci = chars_of(cs[i].image.as_str());
        let ghost before = kept@;
        if !same_chars(ci.as_slice(), image) {
            kept.push(copy_comment(&cs[i]));
        }
        proof {
            assert(v.take(i + 1) =~= v.take(i as int).push(v[i as int]));
            v.take(i as int).lemma_filter_push(v[i as int], keep);
            assert(gallery_comments_view(kept@) =~= v.take(i + 1).filter(keep));
        }
        i = i + 1;
    }
    proof {
        assert(v.take(i as int) =~= v);
    }
    kept
}

impl GalleryComments {
    /// Applies `action` for the image at `image_path`; on an error the document is
    /// left as it was.
    pub fn apply(&mut self, image_path: &str, action: GalleryCommentAction) -> (r: Result<(), String>)
        ensures
            match apply_gallery(old(self)@, image_path@, action@) {
                Ok(d) => r is Ok && final(self)@ == d,
                Err(e) => r matches Err(m) && m@ == e && final(self)@ == old(self)@,
            },
    {
        let ghost d0 = self@;
        match action {
            GalleryCommentAction::Add { comment } => {
                match find_gallery_comment(&self.comments, &comment.id) {
                    Some(_) => {
                        return Err(string_of(chars_of("评论 ID 已存在").as_slice()));
                    },
                    None => {
                        self.comments.push(comment);
                        proof {
                            assert(gallery_comments_view(self.comments@) =~= d0.comments.push(comment@));
                        }
                    },
                }
            },
            GalleryCommentAction::Edit { comment_id, body, edited_at } => {
                match find_gallery_comment(&self.comments, &comment_id) {
                    Some(i) => {
                        proof {
                            lemma_first_gallery_comment(d0.comments, comment_id@, i as int);
                        }
                        let ghost before = self.comments@;
                        let old = self.comments.remove(i);
                        let c = GalleryComment {
                            id: old.id,
                            image: old.image,
                            author: old.author,
                            body,
                            created_at: old.created_at,
                            edited_at: Some(edited_at),
                        };
                        self.comments.insert(i, c);
                        proof {
                            assert(self.comments@ =~= before.update(i as int, c));
                            assert(gallery_comments_view(self.comments@) =~= gallery_comments_view(before).update(
                                i as int,
                                c@,
                            ));
                        }
                    },
                    None => {
                        return Err(string_of(chars_of("评论不存在").as_slice()));
                    },
                }
            },
            GalleryCommentAction::Delete { comment_id } => {
                match find_gallery_comment(&self.comments, &comment_id) {
                    Some(i) => {
                        proof {
                            lemma_first_gallery_comment(d0.comments, comment_id@, i as int);
                        }
                        let ghost before = self.comments@;
                        self.comments.remove(i);
                        proof {
                            assert(gallery_comments_view(self.comments@) =~= gallery_comments_view(before).remove(
                                i as int,
                            ));
                        }
                    },
                    None => {
                        return Err(string_of(chars_of("评论不存在").as_slice()));
                    },
                }
            },
            GalleryCommentAction::DeleteAll => {
                let image = match crate::paths::file_name_of(image_path) {
                    Some(n) => n,
                    None => Vec::new(),
                };
                self.comments = retain_other_images(&self.comments, image.as_slice());
            },
        }
        Ok(())
    }

    /// Drops the comments on the image at `image_path`, as when the image is deleted;
    /// `true` when any were dropped, so that the document needs writing.
    pub fn remove_for_image(&mut self, image_path: &str) -> (changed: bool)
        ensures
            final(self)@ == (GalleryCommentsView {
                comments: without_image(old(self)@.comments, image_name(image_path@)),
                ..old(self)@
            }),
            changed == (final(self)@.comments.len() != old(self)@.comments.len()),
    {
        let image = match crate::paths::file_name_of(image_path) {
            Some(n) => n,
            None => Vec::new(),
        };
        let before = self.comments.len();
        self.comments = retain_other_images(&self.comments, image.as_slice());
        self.comments.len() != before
    }
}

/// Deleting all comments of an image leaves none on it, and keeps every comment on
/// another image.
pub proof fn law_delete_all_keeps_other_images(d: GalleryCommentsView, image_path: Seq<char>)
    ensures
        apply_gallery(d, image_path, GalleryActionView::DeleteAll) matches Ok(d2) && {
            &&& forall|i: int| 0 <= i < d2.comments.len() ==> d2.comments[i].image != image_name(image_path)
            &&& forall|i: int|
                0 <= i < d.comments.len() && d.comments[i].image != image_name(image_path)
                    ==> d2.comments.contains(d.comments[i])
        },
{
    let name = image_name(image_path);
    let keep = |c: GalleryCommentView| c.image != name;
    let d2 = without_image(d.comments, name);
    assert forall|i: int| 0 <= i < d2.len() implies d2[i].image != name by {
        d.comments.lemma_filter_pred(keep, i);
    }
    assert forall|i: int| 0 <= i < d.comments.len() && d.comments[i].image != name implies d2.contains(
        d.comments[i],
    ) by {
        d.comments.lemma_filter_contains(keep, i);
    }
}

/// Deleting a comment by id removes exactly one comment, the first with that id:
/// the document has one comment fewer, the comments before it stay where they were
/// and those after it move up by one, in order.
pub proof fn law_delete_removes_one_comment(
    d: GalleryCommentsView,
    image_path: Seq<char>,
    id: Seq<char>,
    i: int,
)
    requires
        is_first_gallery_comment(d.comments, id, i),
    ensures
        apply_gallery(d, image_path, GalleryActionView::Delete { comment_id: id }) matches Ok(d2) && {
            &&& d2.version == d.version
            &&& d2.comments.len() + 1 == d.comments.len()
            &&& forall|j: int| 0 <= j < i ==> d2.comments[j] == d.comments[j]
            &&& forall|j: int| i <= j < d2.comments.len() ==> d2.comments[j] == d.comments[j + 1]
        },
{
    lemma_first_gallery_comment(d.comments, id, i);
    assert(gallery_comment_index(d.comments, id) == i);
}

/// Deleting a comment just added gives back the document as it was.
pub proof fn law_delete_undoes_add(d: GalleryCommentsView, image_path: Seq<char>, c: GalleryCommentView)
    requires
        !has_gallery_comment(d.comments, c.id),
    ensures
        apply_gallery(d, image_path, GalleryActionView::Add { comment: c }) matches Ok(d2)
            && apply_gallery(d2, image_path, GalleryActionView::Delete { comment_id: c.id }) == Ok::<
            GalleryCommentsView,
            Seq<char>,
        >(d),
{
    let cs = d.comments.push(c);
    let n = d.comments.len() as int;
    assert(cs[n].id == c.id);
    lemma_first_gallery_comment(cs, c.id, n);
    let i = gallery_comment_index(cs, c.id);
    if i < n {
        assert(d.comments[i].id == c.id);
    }
    assert(i == n);
    assert(cs.remove(n) =~= d.comments);
}

} // verus!
