//! Markdown review threads: the review document kept beside a Markdown file, the
//! actions commenters apply to it, and the hub that tracks who is reviewing a file.
use vstd::prelude::*;
use crate::text::{chars_of, is_text, string_of};

verus! {

broadcast use vstd::string::group_string_axioms;

/// The text of an optional string.
pub open spec fn opt_text(o: Option<String>) -> Option<Seq<char>> {
    match o {
        Some(s) => Some(s@),
        None => None,
    }
}

/// Fields the library does not interpret, as `(name, JSON text)` pairs, kept as read.
pub open spec fn fields_view(v: Seq<(String, String)>) -> Seq<(Seq<char>, Seq<char>)> {
    v.map_values(|p: (String, String)| (p.0@, p.1@))
}

/// One message of a review thread.
pub struct ReviewMessage {
    pub id: Option<String>,
    pub author: String,
    pub body: String,
    pub created_at: String,
    pub edited_at: Option<String>,
    pub extra: Vec<(String, String)>,
}

pub struct MessageView {
    pub id: Option<Seq<char>>,
    pub author: Seq<char>,
    pub body: Seq<char>,
    pub created_at: Seq<char>,
    pub edited_at: Option<Seq<char>>,
    pub extra: Seq<(Seq<char>, Seq<char>)>,
}

impl View for ReviewMessage {
    type V = MessageView;

    open spec fn view(&self) -> MessageView {
        MessageView {
            id: opt_text(self.id),
            author: self.author@,
            body: self.body@,
            created_at: self.created_at@,
            edited_at: opt_text(self.edited_at),
            extra: fields_view(self.extra@),
        }
    }
}

/// A review thread: what it is about (`scope`, as JSON text), its status and messages.
pub struct ReviewComment {
    pub id: String,
    pub scope: String,
    pub status: String,
    pub messages: Vec<ReviewMessage>,
    pub extra: Vec<(String, String)>,
}

pub struct CommentView {
    pub id: Seq<char>,
    pub scope: Seq<char>,
    pub status: Seq<char>,
    pub messages: Seq<MessageView>,
    pub extra: Seq<(Seq<char>, Seq<char>)>,
}

pub open spec fn messages_view(v: Seq<ReviewMessage>) -> Seq<MessageView> {
    v.map_values(|m: ReviewMessage| m@)
}

impl View for ReviewComment {
    type V = CommentView;

    open spec fn view(&self) -> CommentView {
        CommentView {
            id: self.id@,
            scope: self.scope@,
            status: self.status@,
            messages: messages_view(self.messages@),
            extra: fields_view(self.extra@),
        }
    }
}

/// The review document of one Markdown file.
pub struct ReviewDocument {
    pub version: u32,
    pub instructions: Vec<String>,
    pub comments: Vec<ReviewComment>,
    pub extra: Vec<(String, String)>,
}

pub struct DocumentView {
    pub version: u32,
    pub instructions: Seq<Seq<char>>,
    pub comments: Seq<CommentView>,
    pub extra: Seq<(Seq<char>, Seq<char>)>,
}

pub open spec fn comments_view(v: Seq<ReviewComment>) -> Seq<CommentView> {
    v.map_values(|c: ReviewComment| c@)
}

impl View for ReviewDocument {
    type V = DocumentView;

    open spec fn view(&self) -> DocumentView {
        DocumentView {
            version: self.version,
            instructions: crate::paths::strings(self.instructions@),
            comments: comments_view(self.comments@),
            extra: fields_view(self.extra@),
        }
    }
}

/// A change a commenter asks for.
#[allow(inconsistent_fields)]
pub enum ReviewAction {
    AddComment { comment: ReviewComment },
    AddMessage { comment_id: String, message: ReviewMessage, status: Option<String> },
    SetStatus { comment_id: String, status: String },
    EditMessage {
        comment_id: String,
        message_id: Option<String>,
        message_index: usize,
        body: String,
        edited_at: String,
    },
    DeleteMessage { comment_id: String, message_id: Option<String>, message_index: usize },
    DeleteComment { comment_id: String },
}

#[allow(inconsistent_fields)]
pub enum ActionView {
    AddComment { comment: CommentView },
    AddMessage { comment_id: Seq<char>, message: MessageView, status: Option<Seq<char>> },
    SetStatus { comment_id: Seq<char>, status: Seq<char> },
    EditMessage {
        comment_id: Seq<char>,
        message_id: Option<Seq<char>>,
        message_index: int,
        body: Seq<char>,
        edited_at: Seq<char>,
    },
    DeleteMessage { comment_id: Seq<char>, message_id: Option<Seq<char>>, message_index: int },
    DeleteComment { comment_id: Seq<char> },
}

impl View for ReviewAction {
    type V = ActionView;

    open spec fn view(&self) -> ActionView {
        match self {
            ReviewAction::AddComment { comment } => ActionView::AddComment { comment: comment@ },
            ReviewAction::AddMessage { comment_id, message, status } => ActionView::AddMessage {
                comment_id: comment_id@,
                message: message@,
                status: opt_text(*status),
            },
            ReviewAction::SetStatus { comment_id, status } => ActionView::SetStatus {
                comment_id: comment_id@,
                status: status@,
            },
            ReviewAction::EditMessage { comment_id, message_id, message_index, body, edited_at } =>
            ActionView::EditMessage {
                comment_id: comment_id@,
                message_id: opt_text(*message_id),
                message_index: *message_index as int,
                body: body@,
                edited_at: edited_at@,
            },
            ReviewAction::DeleteMessage { comment_id, message_id, message_index } =>
            ActionView::DeleteMessage {
                comment_id: comment_id@,
                message_id: opt_text(*message_id),
                message_index: *message_index as int,
            },
            ReviewAction::DeleteComment { comment_id } => ActionView::DeleteComment {
                comment_id: comment_id@,
            },
        }
    }
}

/// The review format version written into new documents.
pub fn review_version() -> (r: u32)
    ensures
        r == 1,
{
    1
}

pub open spec fn review_instruction_text() -> Seq<char> {
    "AI 只处理 status 不为 resolved 的评论。处理每条评论时，必须在该评论的 messages 中追加回复，并直接修改对应的 Markdown 正文；如果处理结果不需要进一步讨论，将该评论的 status 改为 resolved。"@
}

/// The instructions for automated assistants written into new documents.
pub fn review_instructions() -> (r: Vec<String>)
    ensures
        crate::paths::strings(r@) == seq![review_instruction_text()],
{
    let mut r: Vec<String> = Vec::new();
    r.push(string_of(chars_of("AI 只处理 status 不为 resolved 的评论。处理每条评论时，必须在该评论的 messages 中追加回复，并直接修改对应的 Markdown 正文；如果处理结果不需要进一步讨论，将该评论的 status 改为 resolved。").as_slice()));
    assert(crate::paths::strings(r@) =~= seq![review_instruction_text()]);
    r
}

/// The document of a Markdown file that has no review yet.
pub open spec fn new_document() -> DocumentView {
    DocumentView {
        version: 1,
        instructions: seq![review_instruction_text()],
        comments: Seq::empty(),
        extra: Seq::empty(),
    }
}

impl ReviewDocument {
    pub fn new() -> (r: Self)
        ensures
            r@ == new_document(),
    {
        let r = ReviewDocument {
            version: review_version(),
            instructions: review_instructions(),
            comments: Vec::new(),
            extra: Vec::new(),
        };
        assert(r@.comments =~= Seq::<CommentView>::empty());
        assert(r@.extra =~= Seq::<(Seq<char>, Seq<char>)>::empty());
        r
    }
}

// ----- Applying actions -------------------------------------------------------

pub open spec fn err_comment_exists() -> Seq<char> {
    "评论 ID 已存在"@
}

pub open spec fn err_no_comment() -> Seq<char> {
    "评论不存在"@
}

pub open spec fn err_bad_status() -> Seq<char> {
    "未知的评论状态"@
}

pub open spec fn err_no_message() -> Seq<char> {
    "消息不存在"@
}

/// The statuses a thread can have.
pub open spec fn is_status(s: Seq<char>) -> bool {
    s == "open"@ || s == "addressed"@ || s == "resolved"@
}

/// `i` is the first thread with id `id`.
pub open spec fn is_first_comment(cs: Seq<CommentView>, id: Seq<char>, i: int) -> bool {
    &&& 0 <= i < cs.len()
    &&& cs[i].id == id
    &&& forall|j: int| 0 <= j < i ==> cs[j].id != id
}

pub open spec fn has_comment(cs: Seq<CommentView>, id: Seq<char>) -> bool {
    exists|i: int| 0 <= i < cs.len() && cs[i].id == id
}

/// The first thread with id `id` (meaningful when there is one).
pub open spec fn comment_index(cs: Seq<CommentView>, id: Seq<char>) -> int {
    choose|i: int| is_first_comment(cs, id, i)
}

/// `i` is the first message with id `id`.
pub open spec fn is_first_message(ms: Seq<MessageView>, id: Seq<char>, i: int) -> bool {
    &&& 0 <= i < ms.len()
    &&& ms[i].id == Some(id)
    &&& forall|j: int| 0 <= j < i ==> ms[j].id != Some(id)
}

/// The message an edit or delete addresses: the first with the given id when an id
/// is given, else the one at `index`; `None` when there is no such message.
pub open spec fn message_position(ms: Seq<MessageView>, id: Option<Seq<char>>, index: int) -> Option<
    int,
> {
    match id {
        Some(mid) => if exists|i: int| 0 <= i < ms.len() && ms[i].id == Some(mid) {
            Some(choose|i: int| is_first_message(ms, mid, i))
        } else {
            None
        },
        None => if 0 <= index < ms.len() {
            Some(index)
        } else {
            None
        },
    }
}

/// The document after `action`, or the message of the error that refuses it.
pub open spec fn apply_review(d: DocumentView, action: ActionView) -> Result<DocumentView, Seq<char>> {
    match action {
        ActionView::AddComment { comment } => if has_comment(d.comments, comment.id) {
            Err(err_comment_exists())
        } else {
            Ok(DocumentView { comments: d.comments.push(comment), ..d })
        },
        ActionView::AddMessage { comment_id, message, status } => if !has_comment(
            d.comments,
            comment_id,
        ) {
            Err(err_no_comment())
        } else {
            let i = comment_index(d.comments, comment_id);
            let c = d.comments[i];
            match status {
                Some(s) => if is_status(s) {
                    Ok(
                        DocumentView {
                            comments: d.comments.update(
                                i,
                                CommentView { messages: c.messages.push(message), status: s, ..c },
                            ),
                            ..d
                        },
                    )
                } else {
                    Err(err_bad_status())
                },
                None => Ok(
                    DocumentView {
                        comments: d.comments.update(
                            i,
                            CommentView { messages: c.messages.push(message), ..c },
                        ),
                        ..d
                    },
                ),
            }
        },
        ActionView::SetStatus { comment_id, status } => if !has_comment(d.comments, comment_id) {
            Err(err_no_comment())
        } else if !is_status(status) {
            Err(err_bad_status())
        } else {
            let i = comment_index(d.comments, comment_id);
            Ok(
                DocumentView {
                    comments: d.comments.update(i, CommentView { status: status, ..d.comments[i] }),
                    ..d
                },
            )
        },
        ActionView::EditMessage { comment_id, message_id, message_index, body, edited_at } =>
        if !has_comment(d.comments, comment_id) {
            Err(err_no_comment())
        } else {
            let i = comment_index(d.comments, comment_id);
            let c = d.comments[i];
            match message_position(c.messages, message_id, message_index) {
                None => Err(err_no_message()),
                Some(k) => Ok(
                    DocumentView {
                        comments: d.comments.update(
                            i,
                            CommentView {
                                messages: c.messages.update(
                                    k,
                                    MessageView {
                                        body: body,
                                        edited_at: Some(edited_at),
                                        ..c.messages[k]
                                    },
                                ),
                                ..c
                            },
                        ),
                        ..d
                    },
                ),
            }
        },
        ActionView::DeleteMessage { comment_id, message_id, message_index } => if !has_comment(
            d.comments,
            comment_id,
        ) {
            Err(err_no_comment())
        } else {
            let i = comment_index(d.comments, comment_id);
            let c = d.comments[i];
            match message_position(c.messages, message_id, message_index) {
                None => Err(err_no_message()),
                Some(k) => if c.messages.len() == 1 {
                    Ok(DocumentView { comments: d.comments.remove(i), ..d })
                } else {
                    Ok(
                        DocumentView {
                            comments: d.comments.update(
                                i,
                                CommentView { messages: c.messages.remove(k), ..c },
                            ),
                            ..d
                        },
                    )
                },
            }
        },
        ActionView::DeleteComment { comment_id } => if !has_comment(d.comments, comment_id) {
            Err(err_no_comment())
        } else {
            Ok(
                DocumentView {
                    comments: d.comments.remove(comment_index(d.comments, comment_id)),
                    ..d
                },
            )
        },
    }
}

fn text(s: &str) -> (r: String)
    ensures
        r@ == s@,
{
    string_of(chars_of(s).as_slice())
}

/// The status itself when it is one a thread can have, else the error that refuses it.
pub fn checked_status(status: String) -> (r: Result<String, String>)
    ensures
        is_status(status@) ==> (r matches Ok(s) && s@ == status@),
        !is_status(status@) ==> (r matches Err(e) && e@ == err_bad_status()),
{
    let sc = chars_of(status.as_str());
    if is_text(sc.as_slice(), "open") || is_text(sc.as_slice(), "addressed") || is_text(
        sc.as_slice(),
        "resolved",
    ) {
        Ok(status)
    } else {
        Err(text("未知的评论状态"))
    }
}

/// The first thread with id `id`, if any.
fn find_comment(cs: &Vec<ReviewComment>, id: &String) -> (r: Option<usize>)
    ensures
        match r {
            Some(i) => is_first_comment(comments_view(cs@), id@, i as int) && comment_index(
                comments_view(cs@),
                id@,
            ) == i && has_comment(comments_view(cs@), id@),
            None => !has_comment(comments_view(cs@), id@),
        },
{
    let ghost v = comments_view(cs@);
    let mut i: usize = 0;
    while i < cs.len()
        invariant
            v == comments_view(cs@),
            i <= v.len(),
            forall|j: int| 0 <= j < i ==> v[j].id != id@,
        decreases v.len() - i,
    {
        if cs[i].id == *id {
            proof {
                assert(is_first_comment(v, id@, i as int));
                let k = comment_index(v, id@);
                assert(is_first_comment(v, id@, k));
                if k < i {
                    assert(v[k].id != id@);
                }
                if k > i {
                    assert(v[i as int].id != id@);
                }
            }
            return Some(i);
        }
        i = i + 1;
    }
    None
}

/// The message an edit or delete addresses, if there is one.
fn find_message_index(comment: &ReviewComment, message_id: &Option<String>, fallback_index: usize) -> (r:
    Option<usize>)
    ensures
        match r {
            Some(k) => message_position(comment@.messages, opt_text(*message_id), fallback_index as int)
                == Some(k as int) && k < comment@.messages.len(),
            None => message_position(comment@.messages, opt_text(*message_id), fallback_index as int)
                is None,
        },
{
    let ghost ms = comment@.messages;
    match message_id {
        Some(mid) => {
            let mut i: usize = 0;
            while i < comment.messages.len()
                invariant
                    ms == messages_view(comment.messages@),
                    ms == comment@.messages,
                    opt_text(*message_id) == Some(mid@),
                    i <= ms.len(),
                    forall|j: int| 0 <= j < i ==> ms[j].id != Some(mid@),
                decreases ms.len() - i,
            {
                let same = match &comment.messages[i].id {
                    Some(x) => *x == *mid,
                    None => false,
                };
                if same {
                    proof {
                        assert(ms[i as int].id == Some(mid@));
                        assert(is_first_message(ms, mid@, i as int));
                        let k = choose|k: int| is_first_message(ms, mid@, k);
                        assert(is_first_message(ms, mid@, k));
                        if k < i {
                            assert(ms[k].id != Some(mid@));
                        }
                        if k > i {
                            assert(ms[i as int].id != Some(mid@));
                        }
                        assert(exists|j: int| 0 <= j < ms.len() && ms[j].id == Some(mid@));
                        assert(ms == comment@.messages);
                    }
                    return Some(i);
                }
                proof {
                    assert(ms[i as int].id != Some(mid@));
                }
                i = i + 1;
            }
            None
        },
        None => {
            if fallback_index < comment.messages.len() {
                Some(fallback_index)
            } else {
                None
            }
        },
    }
}

impl ReviewDocument {
    /// Applies `action`. On success the document holds the result; on failure it is
    /// unchanged and the error says why the action was refused.
    pub fn apply(&mut self, action: ReviewAction) -> (r: Result<(), String>)
        ensures
            match apply_review(old(self)@, action@) {
                Ok(d) => r is Ok && final(self)@ == d,
                Err(e) => r matches Err(m) && m@ == e && final(self)@ == old(self)@,
            },
    {
        let ghost d0 = self@;
        match action {
            ReviewAction::AddComment { comment } => {
                match find_comment(&self.comments, &comment.id) {
                    Some(_) => return Err(text("评论 ID 已存在")),
                    None => {},
                }
                self.comments.push(comment);
                assert(self@.comments =~= d0.comments.push(comment@));
                Ok(())
            },
            ReviewAction::AddMessage { comment_id, message, status } => {
                let i = match find_comment(&self.comments, &comment_id) {
                    Some(i) => i,
                    None => return Err(text("评论不存在")),
                };
                let status = match status {
                    Some(s) => match checked_status(s) {
                        Ok(s) => Some(s),
                        Err(e) => return Err(e),
                    },
                    None => None,
                };
                let mut c = self.comments.remove(i);
                let ghost c0 = c@;
                c.messages.push(message);
                match status {
                    Some(s) => {
                        c.status = s;
                    },
                    None => {},
                }
                proof {
                    assert(c@.messages =~= c0.messages.push(message@));
                }
                self.comments.insert(i, c);
                assert(self@.comments =~= d0.comments.update(i as int, c@));
                Ok(())
            },
            ReviewAction::SetStatus { comment_id, status } => {
                let i = match find_comment(&self.comments, &comment_id) {
                    Some(i) => i,
                    None => return Err(text("评论不存在")),
                };
                let s = match checked_status(status) {
                    Ok(s) => s,
                    Err(e) => return Err(e),
                };
                let mut c = self.comments.remove(i);
                c.status = s;
                self.comments.insert(i, c);
                assert(self@.comments =~= d0.comments.update(i as int, c@));
                Ok(())
            },
            ReviewAction::EditMessage { comment_id, message_id, message_index, body, edited_at } => {
                let i = match find_comment(&self.comments, &comment_id) {
                    Some(i) => i,
                    None => return Err(text("评论不存在")),
                };
                let k = match find_message_index(&self.comments[i], &message_id, message_index) {
                    Some(k) => k,
                    None => return Err(text("消息不存在")),
                };
                let mut c = self.comments.remove(i);
                let ghost c0 = c@;
                let mut m = c.messages.remove(k);
                m.body = body;
                m.edited_at = Some(edited_at);
                c.messages.insert(k, m);
                proof {
                    assert(c@.messages =~= c0.messages.update(k as int, m@));
                }
                self.comments.insert(i, c);
                assert(self@.comments =~= d0.comments.update(i as int, c@));
                Ok(())
            },
            ReviewAction::DeleteMessage { comment_id, message_id, message_index } => {
                let i = match find_comment(&self.comments, &comment_id) {
                    Some(i) => i,
                    None => return Err(text("评论不存在")),
                };
                let k = match find_message_index(&self.comments[i], &message_id, message_index) {
                    Some(k) => k,
                    None => return Err(text("消息不存在")),
                };
                let mut c = self.comments.remove(i);
                let ghost c0 = c@;
                c.messages.remove(k);
                proof {
                    assert(c@.messages =~= c0.messages.remove(k as int));
                }
                if c.messages.len() == 0 {
                    assert(d0.comments.remove(i as int) =~= self@.comments);
                } else {
                    self.comments.insert(i, c);
                    assert(self@.comments =~= d0.comments.update(i as int, c@));
                }
                Ok(())
            },
            ReviewAction::DeleteComment { comment_id } => {
                let i = match find_comment(&self.comments, &comment_id) {
                    Some(i) => i,
                    None => return Err(text("评论不存在")),
                };
                self.comments.remove(i);
                assert(self@.comments =~= d0.comments.remove(i as int));
                Ok(())
            },
        }
    }
}

// ----- Laws of review documents -----------------------------------------------

/// No two threads share an id.
pub open spec fn unique_ids(cs: Seq<CommentView>) -> bool {
    forall|i: int, j: int| 0 <= i < cs.len() && 0 <= j < cs.len() && i != j ==> cs[i].id != cs[j].id
}

/// The thread an action names.
pub open spec fn target(action: ActionView) -> Seq<char> {
    match action {
        ActionView::AddComment { comment } => comment.id,
        ActionView::AddMessage { comment_id, .. } => comment_id,
        ActionView::SetStatus { comment_id, .. } => comment_id,
        ActionView::EditMessage { comment_id, .. } => comment_id,
        ActionView::DeleteMessage { comment_id, .. } => comment_id,
        ActionView::DeleteComment { comment_id } => comment_id,
    }
}

proof fn lemma_first_comment(cs: Seq<CommentView>, id: Seq<char>)
    requires
        has_comment(cs, id),
    ensures
        is_first_comment(cs, id, comment_index(cs, id)),
{
    let w = choose|i: int| 0 <= i < cs.len() && cs[i].id == id;
    assert(exists|i: int| is_first_comment(cs, id, i)) by {
        lemma_some_first(cs, id, w);
    }
}

proof fn lemma_some_first(cs: Seq<CommentView>, id: Seq<char>, w: int)
    requires
        0 <= w < cs.len(),
        cs[w].id == id,
    ensures
        exists|i: int| is_first_comment(cs, id, i),
    decreases w,
{
    if forall|j: int| 0 <= j < w ==> cs[j].id != id {
        assert(is_first_comment(cs, id, w));
    } else {
        let v = choose|j: int| 0 <= j < w && cs[j].id == id;
        lemma_some_first(cs, id, v);
    }
}

/// Thread `n` keeps the id, scope and unknown fields of one of the threads `cs`.
pub open spec fn kept_from(cs: Seq<CommentView>, n: CommentView) -> bool {
    exists|k: int| 0 <= k < cs.len() && cs[k].id == n.id && cs[k].scope == n.scope && cs[k].extra == n.extra
}

/// Applying an action keeps the fields the review does not know: the document's own
/// fields, its version and instructions, and for every thread that was there before,
/// its id, scope and unknown fields.
pub proof fn law_unknown_fields_kept(d: DocumentView, action: ActionView)
    ensures
        apply_review(d, action) matches Ok(r) ==> {
            &&& r.extra == d.extra
            &&& r.version == d.version
            &&& r.instructions == d.instructions
            &&& forall|j: int|
                0 <= j < r.comments.len() ==> kept_from(d.comments, #[trigger] r.comments[j]) || (
                action is AddComment && j == d.comments.len())
        },
{
    let t = target(action);
    if has_comment(d.comments, t) {
        lemma_first_comment(d.comments, t);
    }
    match apply_review(d, action) {
        Ok(r) => {
            let cs = d.comments;
            let rs = r.comments;
            assert forall|j: int| 0 <= j < rs.len() implies kept_from(cs, #[trigger] rs[j]) || (
                action is AddComment && j == cs.len()) by {
                match action {
                    ActionView::AddComment { .. } => {
                        if j < cs.len() {
                            assert(rs[j] == cs[j]);
                        }
                    },
                    ActionView::DeleteMessage { .. } => {
                        let k = comment_index(cs, t);
                        if rs.len() < cs.len() {
                            let a = if j < k { j } else { j + 1 };
                            assert(rs[j] == cs[a]);
                        } else {
                            assert(rs[j].id == cs[j].id && rs[j].scope == cs[j].scope && rs[j].extra
                                == cs[j].extra);
                        }
                    },
                    ActionView::DeleteComment { .. } => {
                        let k = comment_index(cs, t);
                        let a = if j < k { j } else { j + 1 };
                        assert(rs[j] == cs[a]);
                    },
                    _ => {
                        assert(rs[j].id == cs[j].id && rs[j].scope == cs[j].scope && rs[j].extra
                            == cs[j].extra);
                    },
                }
            }
        },
        Err(_) => {},
    }
}

/// Every applied action keeps thread ids unique.
pub proof fn law_unique_ids_kept(d: DocumentView, action: ActionView)
    requires
        unique_ids(d.comments),
    ensures
        apply_review(d, action) matches Ok(r) ==> unique_ids(r.comments),
{
    let t = target(action);
    if has_comment(d.comments, t) {
        lemma_first_comment(d.comments, t);
    }
    match apply_review(d, action) {
        Ok(r) => {
            let cs = d.comments;
            let rs = r.comments;
            match action {
                ActionView::AddComment { comment } => {
                    assert forall|i: int, j: int|
                        0 <= i < rs.len() && 0 <= j < rs.len() && i != j implies rs[i].id
                        != rs[j].id by {
                        if i == cs.len() {
                            assert(rs[j] == cs[j]);
                        } else if j == cs.len() {
                            assert(rs[i] == cs[i]);
                        }
                    }
                },
                ActionView::DeleteMessage { .. } => {
                    assert forall|i: int, j: int|
                        0 <= i < rs.len() && 0 <= j < rs.len() && i != j implies rs[i].id
                        != rs[j].id by {
                        let k = comment_index(cs, t);
                        if rs.len() < cs.len() {
                            let a = if i < k { i } else { i + 1 };
                            let b = if j < k { j } else { j + 1 };
                            assert(rs[i] == cs[a]);
                            assert(rs[j] == cs[b]);
                        } else {
                            assert(rs[i].id == cs[i].id);
                            assert(rs[j].id == cs[j].id);
                        }
                    }
                },
                ActionView::DeleteComment { .. } => {
                    assert forall|i: int, j: int|
                        0 <= i < rs.len() && 0 <= j < rs.len() && i != j implies rs[i].id
                        != rs[j].id by {
                        let k = comment_index(cs, t);
                        let a = if i < k { i } else { i + 1 };
                        let b = if j < k { j } else { j + 1 };
                        assert(rs[i] == cs[a]);
                        assert(rs[j] == cs[b]);
                    }
                },
                _ => {
                    assert forall|i: int, j: int|
                        0 <= i < rs.len() && 0 <= j < rs.len() && i != j implies rs[i].id
                        != rs[j].id by {
                        assert(rs[i].id == cs[i].id);
                        assert(rs[j].id == cs[j].id);
                    }
                },
            }
        },
        Err(_) => {},
    }
}

/// Threads other than the one an action names are kept unchanged.
pub proof fn law_other_threads_kept(d: DocumentView, action: ActionView, j: int)
    requires
        0 <= j < d.comments.len(),
        d.comments[j].id != target(action),
    ensures
        apply_review(d, action) matches Ok(r) ==> r.comments.contains(d.comments[j]),
{
    let t = target(action);
    let cs = d.comments;
    if has_comment(cs, t) {
        lemma_first_comment(cs, t);
    }
    match apply_review(d, action) {
        Ok(r) => {
            let rs = r.comments;
            match action {
                ActionView::AddComment { .. } => {
                    assert(rs[j] == cs[j]);
                },
                ActionView::DeleteMessage { .. } => {
                    let k = comment_index(cs, t);
                    if rs.len() < cs.len() {
                        let p = if j < k { j } else { j - 1 };
                        assert(rs[p] == cs[j]);
                    } else {
                        assert(rs[j] == cs[j]);
                    }
                },
                ActionView::DeleteComment { .. } => {
                    let k = comment_index(cs, t);
                    let p = if j < k { j } else { j - 1 };
                    assert(rs[p] == cs[j]);
                },
                _ => {
                    assert(rs[j] == cs[j]);
                },
            }
        },
        Err(_) => {},
    }
}

/// After a thread is deleted no thread has its id (ids being unique).
pub proof fn law_deleted_thread_gone(d: DocumentView, id: Seq<char>)
    requires
        unique_ids(d.comments),
    ensures
        apply_review(d, ActionView::DeleteComment { comment_id: id }) matches Ok(r) ==> !has_comment(
            r.comments,
            id,
        ),
{
    if has_comment(d.comments, id) {
        lemma_first_comment(d.comments, id);
        let k = comment_index(d.comments, id);
        let rs = d.comments.remove(k);
        assert forall|i: int| 0 <= i < rs.len() implies rs[i].id != id by {
            let a = if i < k { i } else { i + 1 };
            assert(rs[i] == d.comments[a]);
        }
    }
}

/// Deleting the only message of a thread deletes the thread (ids being unique).
pub proof fn law_last_message_deletes_thread(
    d: DocumentView,
    id: Seq<char>,
    message_id: Option<Seq<char>>,
    index: int,
)
    requires
        unique_ids(d.comments),
        has_comment(d.comments, id),
        d.comments[comment_index(d.comments, id)].messages.len() == 1,
    ensures
        apply_review(
            d,
            ActionView::DeleteMessage { comment_id: id, message_id: message_id, message_index: index },
        ) matches Ok(r) ==> !has_comment(r.comments, id) && r.comments.len() + 1 == d.comments.len(),
{
    lemma_first_comment(d.comments, id);
    let k = comment_index(d.comments, id);
    let rs = d.comments.remove(k);
    assert forall|i: int| 0 <= i < rs.len() implies rs[i].id != id by {
        let a = if i < k { i } else { i + 1 };
        assert(rs[i] == d.comments[a]);
    }
}

/// Deleting one message of a thread that has several removes exactly the message
/// addressed (the first with the given id, or the one at the given index) and keeps
/// every other message in order; the thread keeps its place, id and status, and the
/// other threads are unchanged.
pub proof fn law_delete_message_removes_addressed(
    d: DocumentView,
    id: Seq<char>,
    message_id: Option<Seq<char>>,
    index: int,
    i: int,
    k: int,
)
    requires
        is_first_comment(d.comments, id, i),
        d.comments[i].messages.len() > 1,
        match message_id {
            Some(mid) => is_first_message(d.comments[i].messages, mid, k),
            None => k == index && 0 <= k < d.comments[i].messages.len(),
        },
    ensures
        apply_review(
            d,
            ActionView::DeleteMessage { comment_id: id, message_id: message_id, message_index: index },
        ) matches Ok(r) && {
            let ms = d.comments[i].messages;
            let ns = r.comments[i].messages;
            &&& r.comments.len() == d.comments.len()
            &&& r.comments[i].id == id
            &&& r.comments[i].status == d.comments[i].status
            &&& ns.len() + 1 == ms.len()
            &&& forall|j: int| 0 <= j < k ==> ns[j] == ms[j]
            &&& forall|j: int| k <= j < ns.len() ==> ns[j] == ms[j + 1]
            &&& forall|j: int|
                0 <= j < r.comments.len() && j != i ==> r.comments[j] == d.comments[j]
        },
{
    let cs = d.comments;
    assert(has_comment(cs, id));
    lemma_first_comment(cs, id);
    assert(comment_index(cs, id) == i);
    let ms = cs[i].messages;
    match message_id {
        Some(mid) => {
            assert(ms[k].id == Some(mid));
            let p = choose|a: int| is_first_message(ms, mid, a);
            assert(is_first_message(ms, mid, p));
            assert(p == k);
        },
        None => {},
    }
}

/// A new thread with a fresh id is appended after the existing ones.
pub proof fn law_add_comment_appends(d: DocumentView, c: CommentView)
    requires
        !has_comment(d.comments, c.id),
    ensures
        apply_review(d, ActionView::AddComment { comment: c }) == Ok::<DocumentView, Seq<char>>(
            DocumentView { comments: d.comments.push(c), ..d },
        ),
{
}

// ----- Who is reviewing -------------------------------------------------------

/// A client connected to the review of one Markdown file, with the name it joined as.
pub struct ReviewClient {
    pub path: String,
    pub id: u64,
    pub user: Option<String>,
}

/// The clients connected to reviews, by file and client id.
pub struct ReviewHub {
    clients: Vec<ReviewClient>,
    next_client_id: u64,
}

/// One client's connection to the review of a file.
pub struct ReviewConnection {
    pub path: String,
    pub client_id: u64,
}

/// A message to hand to the given clients.
pub struct Delivery {
    pub recipients: Vec<u64>,
    pub message: String,
}

pub open spec fn client_key(c: ReviewClient) -> (Seq<char>, u64) {
    (c.path@, c.id)
}

pub open spec fn unique_keys(cs: Seq<ReviewClient>) -> bool {
    forall|i: int, j: int|
        0 <= i < cs.len() && 0 <= j < cs.len() && i != j ==> client_key(cs[i]) != client_key(cs[j])
}

/// The connected clients: for each (file, client id), the name the client joined as.
pub open spec fn clients_map(cs: Seq<ReviewClient>) -> Map<(Seq<char>, u64), Option<Seq<char>>> {
    Map::new(
        |k: (Seq<char>, u64)| exists|i: int| 0 <= i < cs.len() && client_key(cs[i]) == k,
        |k: (Seq<char>, u64)|
            opt_text(cs[choose|i: int| 0 <= i < cs.len() && client_key(cs[i]) == k].user),
    )
}

pub struct HubView {
    pub clients: Map<(Seq<char>, u64), Option<Seq<char>>>,
    pub next_client_id: u64,
}

impl View for ReviewHub {
    type V = HubView;

    closed spec fn view(&self) -> HubView {
        HubView { clients: clients_map(self.clients@), next_client_id: self.next_client_id }
    }
}

impl ReviewHub {
    #[verifier::type_invariant]
    closed spec fn wf(self) -> bool {
        unique_keys(self.clients@)
    }
}

proof fn lemma_clients_lookup(cs: Seq<ReviewClient>, i: int)
    requires
        unique_keys(cs),
        0 <= i < cs.len(),
    ensures
        clients_map(cs).dom().contains(client_key(cs[i])),
        clients_map(cs)[client_key(cs[i])] == opt_text(cs[i].user),
{
    let k = client_key(cs[i]);
    assert(clients_map(cs).dom().contains(k));
    let j = choose|j: int| 0 <= j < cs.len() && client_key(cs[j]) == k;
    assert(j == i);
}

/// The ids of the clients of file `path`.
pub open spec fn recipients_of(m: Map<(Seq<char>, u64), Option<Seq<char>>>, path: Seq<char>) -> Set<u64> {
    Set::new(|id: u64| m.dom().contains((path, id)))
}

/// The names the clients of file `path` joined as.
pub open spec fn users_of(m: Map<(Seq<char>, u64), Option<Seq<char>>>, path: Seq<char>) -> Set<Seq<char>> {
    Set::new(|u: Seq<char>| exists|id: u64| m.dom().contains((path, id)) && m[(path, id)] == Some(u))
}

/// A JSON list of JSON strings, without the brackets.
pub open spec fn json_items(us: Seq<Seq<char>>) -> Seq<char>
    decreases us.len(),
{
    if us.len() == 0 {
        Seq::<char>::empty()
    } else if us.len() == 1 {
        crate::markup::json_quoted(us[0])
    } else {
        json_items(us.drop_last()) + seq![','] + crate::markup::json_quoted(us.last())
    }
}

/// The presence message listing the names of a file's commenters.
pub open spec fn presence_text(us: Seq<Seq<char>>) -> Seq<char> {
    "{\"type\":\"review-presence\",\"users\":["@ + json_items(us) + "]}"@
}

/// `d` tells every client of `path` the sorted, distinct names of its commenters.
pub open spec fn is_presence(d: DeliveryView, m: Map<(Seq<char>, u64), Option<Seq<char>>>, path: Seq<char>) -> bool {
    &&& d.recipients.no_duplicates()
    &&& d.recipients.to_set() == recipients_of(m, path)
    &&& exists|us: Seq<Seq<char>>|
        crate::order::strictly_sorted(us) && us.to_set() == users_of(m, path) && d.message
            == presence_text(us)
}

pub struct DeliveryView {
    pub recipients: Seq<u64>,
    pub message: Seq<char>,
}

impl View for Delivery {
    type V = DeliveryView;

    open spec fn view(&self) -> DeliveryView {
        DeliveryView { recipients: self.recipients@, message: self.message@ }
    }
}

/// The message telling clients that the review document changed.
pub open spec fn updated_text() -> Seq<char> {
    "{\"type\":\"review-updated\"}"@
}

/// The message telling a client its control message was not understood.
pub open spec fn unknown_control_text() -> Seq<char> {
    "{\"message\":\"未知的审阅消息\",\"type\":\"review-error\"}"@
}

/// Every client id in use lies below the next one to hand out, so that the next one
/// is free.
pub open spec fn ids_below_next(v: HubView) -> bool {
    forall|k: (Seq<char>, u64)| #[trigger] v.clients.dom().contains(k) ==> k.1 < v.next_client_id
}

impl ReviewHub {
    pub fn new() -> (r: Self)
        ensures
            r@.clients == Map::<(Seq<char>, u64), Option<Seq<char>>>::empty(),
            r@.next_client_id == 1,
            ids_below_next(r@),
    {
        let r = ReviewHub { clients: Vec::new(), next_client_id: 1 };
        assert(clients_map(r.clients@) =~= Map::<(Seq<char>, u64), Option<Seq<char>>>::empty());
        r
    }

    /// The position of the client `(path, id)`, if connected.
    fn find(&self, path: &str, id: u64) -> (r: Option<usize>)
        ensures
            match r {
                Some(i) => i < self.clients@.len() && client_key(self.clients@[i as int]) == (path@, id),
                None => !self@.clients.dom().contains((path@, id)),
            },
    {
        proof {
            use_type_invariant(self);
        }
        let pc = chars_of(path);
        let mut i: usize = 0;
        while i < self.clients.len()
            invariant
                i <= self.clients@.len(),
                pc@ == path@,
                forall|j: int| 0 <= j < i ==> client_key(self.clients@[j]) != (path@, id),
            decreases self.clients@.len() - i,
        {
            let c = &self.clients[i];
            if c.id == id {
                let cc = chars_of(c.path.as_str());
                if crate::text::same_chars(cc.as_slice(), pc.as_slice()) {
                    return Some(i);
                }
            }
            i = i + 1;
        }
        None
    }

    /// The ids of the clients connected to the review of `path`.
    pub fn recipients(&self, path: &str) -> (r: Vec<u64>)
        ensures
            r@.no_duplicates(),
            r@.to_set() == recipients_of(self@.clients, path@),
    {
        proof {
            use_type_invariant(self);
        }
        let ghost cs = self.clients@;
        let pc = chars_of(path);
        let mut r: Vec<u64> = Vec::new();
        let mut i: usize = 0;
        while i < self.clients.len()
            invariant
                cs == self.clients@,
                unique_keys(cs),
                i <= cs.len(),
                pc@ == path@,
                r@.no_duplicates(),
                forall|id: u64| r@.contains(id) <==> exists|j: int| 0 <= j < i && client_key(cs[j]) == (path@, id),
            decreases cs.len() - i,
        {
            let c = &self.clients[i];
            let cc = chars_of(c.path.as_str());
            let ghost old_r = r@;
            if crate::text::same_chars(cc.as_slice(), pc.as_slice()) {
                proof {
                    assert(client_key(cs[i as int]) == (path@, c.id));
                    assert(!r@.contains(c.id)) by {
                        if r@.contains(c.id) {
                            let j = choose|j: int| 0 <= j < i && client_key(cs[j]) == (path@, c.id);
                            assert(client_key(cs[j]) == client_key(cs[i as int]));
                        }
                    }
                }
                r.push(c.id);
                proof {
                    assert forall|id: u64| r@.contains(id) <==> exists|j: int| 0 <= j < i + 1 && client_key(cs[j]) == (path@, id) by {
                        if r@.contains(id) {
                            let k = choose|k: int| 0 <= k < r@.len() && r@[k] == id;
                            if k < old_r.len() {
                                assert(old_r.contains(id));
                            } else {
                                assert(client_key(cs[i as int]) == (path@, id));
                            }
                        }
                        if exists|j: int| 0 <= j < i + 1 && client_key(cs[j]) == (path@, id) {
                            let j = choose|j: int| 0 <= j < i + 1 && client_key(cs[j]) == (path@, id);
                            if j < i {
                                assert(old_r.contains(id));
                                let k = choose|k: int| 0 <= k < old_r.len() && old_r[k] == id;
                                assert(r@[k] == id);
                            } else {
                                assert(r@[old_r.len() as int] == id);
                            }
                        }
                    }
                }
            } else {
                proof {
                    assert(cc@ != pc@);
                    assert forall|id: u64| r@.contains(id) <==> exists|j: int| 0 <= j < i + 1 && client_key(cs[j]) == (path@, id) by {
                        if exists|j: int| 0 <= j < i + 1 && client_key(cs[j]) == (path@, id) {
                            let j = choose|j: int| 0 <= j < i + 1 && client_key(cs[j]) == (path@, id);
                            assert(j != i);
                        }
                    }
                }
            }
            i = i + 1;
        }
        proof {
            let m = clients_map(cs);
            assert(r@.to_set() =~= recipients_of(m, path@)) by {
                assert forall|id: u64| r@.to_set().contains(id) <==> recipients_of(m, path@).contains(id) by {
                    if m.dom().contains((path@, id)) {
                        let j = choose|j: int| 0 <= j < cs.len() && client_key(cs[j]) == (path@, id);
                        assert(r@.contains(id));
                    }
                }
            }
        }
        r
    }

    /// The presence message for `path`: the sorted distinct names its clients joined
    /// as, to every client of `path`.
    pub fn presence(&self, path: &str) -> (d: Delivery)
        ensures
            is_presence(d@, self@.clients, path@),
    {
        proof {
            use_type_invariant(self);
        }
        let ghost cs = self.clients@;
        let pc = chars_of(path);
        let mut users: Vec<Vec<char>> = Vec::new();
        let mut i: usize = 0;
        while i < self.clients.len()
            invariant
                cs == self.clients@,
                unique_keys(cs),
                i <= cs.len(),
                pc@ == path@,
                crate::order::strictly_sorted(crate::text::views(users@)),
                forall|u: Seq<char>| crate::text::views(users@).to_set().contains(u) <==> exists|j: int|
                    0 <= j < i && client_key(cs[j]) == (path@, cs[j].id) && opt_text(cs[j].user) == Some(u),
            decreases cs.len() - i,
        {
            let c = &self.clients[i];
            let cc = chars_of(c.path.as_str());
            let ghost before = crate::text::views(users@).to_set();
            if crate::text::same_chars(cc.as_slice(), pc.as_slice()) {
                match &c.user {
                    Some(u) => {
                        let uc = chars_of(u.as_str());
                        crate::order::insert_sorted(&mut users, uc);
                    },
                    None => {},
                }
            }
            proof {
                assert forall|u: Seq<char>| crate::text::views(users@).to_set().contains(u) <==> exists|j: int|
                    0 <= j < i + 1 && client_key(cs[j]) == (path@, cs[j].id) && opt_text(cs[j].user) == Some(u) by {
                    if client_key(cs[i as int]) == (path@, cs[i as int].id) && opt_text(cs[i as int].user) == Some(u) {
                        assert(crate::text::views(users@).to_set().contains(u));
                    }
                    if crate::text::views(users@).to_set().contains(u) && !before.contains(u) {
                        assert(client_key(cs[i as int]) == (path@, cs[i as int].id) && opt_text(cs[i as int].user) == Some(u));
                    }
                }
            }
            i = i + 1;
        }
        let recipients = self.recipients(path);
        let message = presence_message(&users);
        proof {
            let m = clients_map(cs);
            let us = crate::text::views(users@);
            assert(us.to_set() =~= users_of(m, path@)) by {
                assert forall|u: Seq<char>| us.to_set().contains(u) <==> users_of(m, path@).contains(u) by {
                    if us.to_set().contains(u) {
                        let j = choose|j: int| 0 <= j < cs.len() && client_key(cs[j]) == (path@, cs[j].id) && opt_text(cs[j].user) == Some(u);
                        lemma_clients_lookup(cs, j);
                    }
                    if users_of(m, path@).contains(u) {
                        let id = choose|id: u64| m.dom().contains((path@, id)) && m[(path@, id)] == Some(u);
                        let j = choose|j: int| 0 <= j < cs.len() && client_key(cs[j]) == (path@, id);
                        lemma_clients_lookup(cs, j);
                    }
                }
            }
        }
        Delivery { recipients, message }
    }
}

proof fn lemma_clients_push(cs: Seq<ReviewClient>, c: ReviewClient)
    requires
        unique_keys(cs),
        !clients_map(cs).dom().contains(client_key(c)),
    ensures
        unique_keys(cs.push(c)),
        clients_map(cs.push(c)) == clients_map(cs).insert(client_key(c), opt_text(c.user)),
{
    let ns = cs.push(c);
    assert forall|i: int| 0 <= i < cs.len() implies client_key(cs[i]) != client_key(c) by {
        if client_key(cs[i]) == client_key(c) {
            assert(clients_map(cs).dom().contains(client_key(c)));
        }
    }
    assert(unique_keys(ns)) by {
        assert forall|i: int, j: int| 0 <= i < ns.len() && 0 <= j < ns.len() && i != j
            implies client_key(ns[i]) != client_key(ns[j]) by {
            if i < cs.len() && j < cs.len() {
                assert(ns[i] == cs[i] && ns[j] == cs[j]);
            }
        }
    }
    let m = clients_map(cs).insert(client_key(c), opt_text(c.user));
    assert forall|k: (Seq<char>, u64)| clients_map(ns).dom().contains(k) <==> m.dom().contains(k) by {
        if clients_map(ns).dom().contains(k) {
            let i = choose|i: int| 0 <= i < ns.len() && client_key(ns[i]) == k;
            if i < cs.len() {
                assert(ns[i] == cs[i]);
                assert(clients_map(cs).dom().contains(k));
            }
        }
        if clients_map(cs).dom().contains(k) {
            let i = choose|i: int| 0 <= i < cs.len() && client_key(cs[i]) == k;
            assert(ns[i] == cs[i]);
            assert(clients_map(ns).dom().contains(k));
        }
        if k == client_key(c) {
            assert(ns[cs.len() as int] == c);
            assert(clients_map(ns).dom().contains(k));
        }
    }
    assert forall|k: (Seq<char>, u64)| clients_map(ns).dom().contains(k) implies clients_map(ns)[k] == m[k] by {
        let i = choose|i: int| 0 <= i < ns.len() && client_key(ns[i]) == k;
        lemma_clients_lookup(ns, i);
        if i < cs.len() {
            assert(ns[i] == cs[i]);
            lemma_clients_lookup(cs, i);
        }
    }
    assert(clients_map(ns) =~= m);
}

proof fn lemma_clients_update(cs: Seq<ReviewClient>, i: int, c: ReviewClient)
    requires
        unique_keys(cs),
        0 <= i < cs.len(),
        client_key(c) == client_key(cs[i]),
    ensures
        unique_keys(cs.update(i, c)),
        clients_map(cs.update(i, c)) == clients_map(cs).insert(client_key(c), opt_text(c.user)),
{
    let ns = cs.update(i, c);
    assert forall|a: int, b: int| 0 <= a < ns.len() && 0 <= b < ns.len() && a != b
        implies client_key(ns[a]) != client_key(ns[b]) by {
        assert(client_key(ns[a]) == client_key(cs[a]));
        assert(client_key(ns[b]) == client_key(cs[b]));
    }
    let m = clients_map(cs).insert(client_key(c), opt_text(c.user));
    assert forall|k: (Seq<char>, u64)| clients_map(ns).dom().contains(k) <==> m.dom().contains(k) by {
        if clients_map(ns).dom().contains(k) {
            let j = choose|j: int| 0 <= j < ns.len() && client_key(ns[j]) == k;
            assert(client_key(cs[j]) == k);
        }
        if clients_map(cs).dom().contains(k) {
            let j = choose|j: int| 0 <= j < cs.len() && client_key(cs[j]) == k;
            assert(client_key(ns[j]) == k);
        }
        if k == client_key(c) {
            assert(client_key(ns[i]) == k);
        }
    }
    assert forall|k: (Seq<char>, u64)| clients_map(ns).dom().contains(k) implies clients_map(ns)[k] == m[k] by {
        let j = choose|j: int| 0 <= j < ns.len() && client_key(ns[j]) == k;
        lemma_clients_lookup(ns, j);
        if j != i {
            assert(ns[j] == cs[j]);
            lemma_clients_lookup(cs, j);
        }
    }
    assert(clients_map(ns) =~= m);
}

proof fn lemma_clients_remove(cs: Seq<ReviewClient>, i: int)
    requires
        unique_keys(cs),
        0 <= i < cs.len(),
    ensures
        unique_keys(cs.remove(i)),
        clients_map(cs.remove(i)) == clients_map(cs).remove(client_key(cs[i])),
{
    let ns = cs.remove(i);
    let gone = client_key(cs[i]);
    assert forall|a: int, b: int| 0 <= a < ns.len() && 0 <= b < ns.len() && a != b
        implies client_key(ns[a]) != client_key(ns[b]) by {
        let oa = if a < i { a } else { a + 1 };
        let ob = if b < i { b } else { b + 1 };
        assert(ns[a] == cs[oa] && ns[b] == cs[ob]);
    }
    let m = clients_map(cs).remove(gone);
    assert forall|k: (Seq<char>, u64)| clients_map(ns).dom().contains(k) <==> m.dom().contains(k) by {
        if clients_map(ns).dom().contains(k) {
            let a = choose|a: int| 0 <= a < ns.len() && client_key(ns[a]) == k;
            let oa = if a < i { a } else { a + 1 };
            assert(ns[a] == cs[oa]);
            assert(oa != i);
            assert(clients_map(cs).dom().contains(k));
        }
        if m.dom().contains(k) {
            let j = choose|j: int| 0 <= j < cs.len() && client_key(cs[j]) == k;
            assert(j != i);
            let a = if j < i { j } else { j - 1 };
            assert(ns[a] == cs[j]);
            assert(clients_map(ns).dom().contains(k));
        }
    }
    assert forall|k: (Seq<char>, u64)| clients_map(ns).dom().contains(k) implies clients_map(ns)[k] == m[k] by {
        let a = choose|a: int| 0 <= a < ns.len() && client_key(ns[a]) == k;
        let oa = if a < i { a } else { a + 1 };
        assert(ns[a] == cs[oa]);
        lemma_clients_lookup(ns, a);
        lemma_clients_lookup(cs, oa);
    }
    assert(clients_map(ns) =~= m);
}

/// A parsed control message from a review client.
pub struct ReviewControl {
    pub kind: String,
    pub user: Option<String>,
}

/// What a connection does with a control message: `Some` names the user to join as.
pub open spec fn joined_user(control: Option<(Seq<char>, Option<Seq<char>>)>) -> Option<Seq<char>> {
    match control {
        Some((kind, Some(user))) => if kind == "join"@ && crate::text::trim(user).len() > 0 {
            Some(user)
        } else {
            None
        },
        _ => None,
    }
}

/// Whether a control message is refused (anything but a `join`).
pub open spec fn is_unknown_control(control: Option<(Seq<char>, Option<Seq<char>>)>) -> bool {
    match control {
        Some((kind, _)) => kind != "join"@,
        None => true,
    }
}

pub open spec fn control_view(c: Option<ReviewControl>) -> Option<(Seq<char>, Option<Seq<char>>)> {
    match c {
        Some(c) => Some((c.kind@, opt_text(c.user))),
        None => None,
    }
}

impl ReviewHub {
    /// Takes the next client id, one past the last, wrapping around at the end of
    /// the range.
    pub open spec fn after(id: u64) -> u64 {
        if id == u64::MAX { 0 } else { (id + 1) as u64 }
    }

    /// Connects a new client to the review of `path`; the file's commenters are then
    /// told who is present.
    pub fn connect(&mut self, path: &str) -> (r: (ReviewConnection, Delivery))
        ensures
            r.0.path@ == path@,
            r.0.client_id == old(self)@.next_client_id,
            final(self)@.next_client_id == Self::after(old(self)@.next_client_id),
            final(self)@.clients == old(self)@.clients.insert((path@, r.0.client_id), None),
            is_presence(r.1@, final(self)@.clients, path@),
            ids_below_next(old(self)@) ==> !old(self)@.clients.dom().contains((path@, r.0.client_id)) && forall|
                k: (Seq<char>, u64),
            | #[trigger] old(self)@.clients.dom().contains(k) ==> k.1 != r.0.client_id,
            ids_below_next(old(self)@) && old(self)@.next_client_id < u64::MAX ==> ids_below_next(final(self)@),
    {
        proof {
            use_type_invariant(&*self);
        }
        let id = self.next_client_id;
        let found = self.find(path, id);
        let mut cs: Vec<ReviewClient> = Vec::new();
        std::mem::swap(&mut cs, &mut self.clients);
        let ghost old_cs = cs@;
        let client = ReviewClient { path: string_of(chars_of(path).as_slice()), id, user: None };
        match found {
            Some(i) => {
                proof {
                    lemma_clients_update(old_cs, i as int, client);
                }
                cs.set(i, client);
            },
            None => {
                proof {
                    lemma_clients_push(old_cs, client);
                }
                cs.push(client);
            },
        }
        self.clients = cs;
        self.next_client_id = id.wrapping_add(1);
        let d = self.presence(path);
        proof {
            if ids_below_next(old(self)@) && id < u64::MAX {
                assert(self.next_client_id == id + 1);
                assert(self@.clients == old(self)@.clients.insert((path@, id), None));
                assert forall|k: (Seq<char>, u64)| #[trigger] self@.clients.dom().contains(k) implies k.1
                    < self@.next_client_id by {
                    if k != (path@, id) {
                        assert(old(self)@.clients.dom().contains(k));
                    }
                }
            }
        }
        (ReviewConnection { path: string_of(chars_of(path).as_slice()), client_id: id }, d)
    }

    /// Records the name a client joined as; the file's commenters are then told who is
    /// present. Nothing changes for a client that is not connected.
    pub fn set_user(&mut self, path: &str, client_id: u64, user: String) -> (d: Delivery)
        ensures
            final(self)@.next_client_id == old(self)@.next_client_id,
            final(self)@.clients == (if old(self)@.clients.dom().contains((path@, client_id)) {
                old(self)@.clients.insert((path@, client_id), Some(user@))
            } else {
                old(self)@.clients
            }),
            is_presence(d@, final(self)@.clients, path@),
    {
        proof {
            use_type_invariant(&*self);
        }
        let found = self.find(path, client_id);
        match found {
            Some(i) => {
                let mut cs: Vec<ReviewClient> = Vec::new();
                std::mem::swap(&mut cs, &mut self.clients);
                let ghost old_cs = cs@;
                let client = ReviewClient { path: string_of(chars_of(path).as_slice()), id: client_id, user: Some(user) };
                proof {
                    lemma_clients_update(old_cs, i as int, client);
                    lemma_clients_lookup(old_cs, i as int);
                }
                cs.set(i, client);
                self.clients = cs;
            },
            None => {},
        }
        self.presence(path)
    }

    /// Disconnects a client; the file's commenters are then told who is present.
    pub fn disconnect(&mut self, path: &str, client_id: u64) -> (d: Delivery)
        ensures
            final(self)@.next_client_id == old(self)@.next_client_id,
            final(self)@.clients == old(self)@.clients.remove((path@, client_id)),
            is_presence(d@, final(self)@.clients, path@),
    {
        proof {
            use_type_invariant(&*self);
        }
        let found = self.find(path, client_id);
        match found {
            Some(i) => {
                let mut cs: Vec<ReviewClient> = Vec::new();
                std::mem::swap(&mut cs, &mut self.clients);
                proof {
                    lemma_clients_remove(cs@, i as int);
                }
                cs.remove(i);
                self.clients = cs;
            },
            None => {
                proof {
                    assert(self@.clients.remove((path@, client_id)) =~= self@.clients);
                }
            },
        }
        self.presence(path)
    }

    /// `message` to every client of `path`.
    pub fn broadcast(&self, path: &str, message: String) -> (d: Delivery)
        ensures
            d@.recipients.no_duplicates(),
            d@.recipients.to_set() == recipients_of(self@.clients, path@),
            d@.message == message@,
    {
        Delivery { recipients: self.recipients(path), message }
    }

    /// `message` to the one client `(path, client_id)`, or to nobody when it is not
    /// connected.
    pub fn send_to(&self, path: &str, client_id: u64, message: String) -> (d: Delivery)
        ensures
            d@.recipients == (if self@.clients.dom().contains((path@, client_id)) {
                seq![client_id]
            } else {
                Seq::<u64>::empty()
            }),
            d@.message == message@,
    {
        proof {
            use_type_invariant(self);
        }
        let mut recipients: Vec<u64> = Vec::new();
        match self.find(path, client_id) {
            Some(i) => {
                proof {
                    lemma_clients_lookup(self.clients@, i as int);
                }
                recipients.push(client_id);
            },
            None => {},
        }
        Delivery { recipients, message }
    }

    /// Applies `action` to `review`, the document read from the sidecar of
    /// `markdown_path`. On success the updated document comes back with the notice
    /// that the file's commenters get once it is written; on failure the error, and
    /// nothing is sent.
    pub fn apply_action(&self, markdown_path: &str, review: ReviewDocument, action: ReviewAction) -> (r: Result<
        (ReviewDocument, Delivery),
        String,
    >)
        ensures
            match r {
                Ok((doc, d)) => {
                    &&& apply_review(review@, action@) == Ok::<DocumentView, Seq<char>>(doc@)
                    &&& d@.recipients.no_duplicates()
                    &&& d@.recipients.to_set() == recipients_of(self@.clients, markdown_path@)
                    &&& d@.message == updated_text()
                },
                Err(e) => apply_review(review@, action@) == Err::<DocumentView, Seq<char>>(e@),
            },
    {
        let mut review = review;
        match review.apply(action) {
            Ok(()) => {
                let d = self.broadcast(markdown_path, text("{\"type\":\"review-updated\"}"));
                Ok((review, d))
            },
            Err(e) => Err(e),
        }
    }
}

impl ReviewConnection {
    /// Handles a control message from this connection's client: `None` when it did
    /// not parse. A `join` with a name that is not blank records the name and tells
    /// the file's commenters who is present; a `join` without one sends nothing;
    /// anything else is answered with an error to this client alone.
    pub fn handle_control(&self, hub: &mut ReviewHub, control: Option<ReviewControl>) -> (d: Delivery)
        ensures
            final(hub)@.next_client_id == old(hub)@.next_client_id,
            match joined_user(control_view(control)) {
                Some(user) => {
                    &&& final(hub)@.clients == (if old(hub)@.clients.dom().contains((self.path@, self.client_id)) {
                        old(hub)@.clients.insert((self.path@, self.client_id), Some(user))
                    } else {
                        old(hub)@.clients
                    })
                    &&& is_presence(d@, final(hub)@.clients, self.path@)
                },
                None => {
                    &&& final(hub)@.clients == old(hub)@.clients
                    &&& d@.recipients == (if is_unknown_control(control_view(control))
                        && old(hub)@.clients.dom().contains((self.path@, self.client_id)) {
                        seq![self.client_id]
                    } else {
                        Seq::<u64>::empty()
                    })
                    &&& is_unknown_control(control_view(control)) ==> d@.message == unknown_control_text()
                },
            },
    {
        let unknown = text("{\"message\":\"未知的审阅消息\",\"type\":\"review-error\"}");
        match control {
            Some(c) => {
                let kc = chars_of(c.kind.as_str());
                if crate::text::is_text(kc.as_slice(), "join") {
                    match c.user {
                        Some(u) => {
                            let uc = chars_of(u.as_str());
                            let t = crate::text::trim_exec(uc.as_slice());
                            if t.len() > 0 {
                                hub.set_user(self.path.as_str(), self.client_id, u)
                            } else {
                                Delivery { recipients: Vec::new(), message: unknown }
                            }
                        },
                        None => Delivery { recipients: Vec::new(), message: unknown },
                    }
                } else {
                    hub.send_to(self.path.as_str(), self.client_id, unknown)
                }
            },
            None => hub.send_to(self.path.as_str(), self.client_id, unknown),
        }
    }

    /// Closes this connection: the client leaves the hub and the file's remaining
    /// commenters are told who is present.
    pub fn close(self, hub: &mut ReviewHub) -> (d: Delivery)
        ensures
            final(hub)@.next_client_id == old(hub)@.next_client_id,
            final(hub)@.clients == old(hub)@.clients.remove((self.path@, self.client_id)),
            is_presence(d@, final(hub)@.clients, self.path@),
    {
        hub.disconnect(self.path.as_str(), self.client_id)
    }
}

/// After a connected client of `path` joins as `user`, the presence message that
/// follows names `user`, and names nobody twice.
pub proof fn law_presence_names_joined_user(
    m: Map<(Seq<char>, u64), Option<Seq<char>>>,
    path: Seq<char>,
    id: u64,
    user: Seq<char>,
    d: DeliveryView,
)
    requires
        m.dom().contains((path, id)),
        is_presence(d, m.insert((path, id), Some(user)), path),
    ensures
        exists|us: Seq<Seq<char>>| d.message == presence_text(us) && us.contains(user) && us.no_duplicates(),
{
    let m2 = m.insert((path, id), Some(user));
    let us = choose|us: Seq<Seq<char>>|
        crate::order::strictly_sorted(us) && us.to_set() == users_of(m2, path) && d.message == presence_text(us);
    assert(m2.dom().contains((path, id)) && m2[(path, id)] == Some(user));
    assert(users_of(m2, path).contains(user));
    assert(us.to_set().contains(user));
    assert(us.no_duplicates()) by {
        assert forall|i: int, j: int| 0 <= i < us.len() && 0 <= j < us.len() && i != j implies us[i] != us[j] by {
            if i < j {
                assert(crate::order::text_lt(us[i], us[j]));
                crate::order::lemma_text_lt_irreflexive(us[i]);
            } else {
                assert(crate::order::text_lt(us[j], us[i]));
                crate::order::lemma_text_lt_irreflexive(us[j]);
            }
        }
    }
}

/// Closing a connection leaves the hub's clients as they were before it connected.
pub proof fn law_close_undoes_connect(m: Map<(Seq<char>, u64), Option<Seq<char>>>, path: Seq<char>, id: u64)
    requires
        !m.dom().contains((path, id)),
    ensures
        m.insert((path, id), None).remove((path, id)) == m,
{
    assert(m.insert((path, id), None).remove((path, id)) =~= m);
}

/// The presence message naming `users`.
fn presence_message(users: &Vec<Vec<char>>) -> (r: String)
    ensures
        r@ == presence_text(crate::text::views(users@)),
{
    let ghost us = crate::text::views(users@);
    let mut r = text("{\"type\":\"review-presence\",\"users\":[");
    let ghost head = r@;
    let mut i: usize = 0;
    proof {
        assert(us.take(0) =~= Seq::<Seq<char>>::empty());
        assert(r@ =~= head + json_items(us.take(0)));
    }
    while i < users.len()
        invariant
            us == crate::text::views(users@),
            head == "{\"type\":\"review-presence\",\"users\":["@,
            i <= us.len(),
            r@ == head + json_items(us.take(i as int)),
        decreases us.len() - i,
    {
        let ghost before = r@;
        if i > 0 {
            crate::text::push_char(&mut r, ',');
        }
        let s = string_of(users[i].as_slice());
        crate::markup::push_json_string(&mut r, s.as_str());
        proof {
            assert(us.take(i + 1).drop_last() =~= us.take(i as int));
            assert(us.take(i + 1).last() == users@[i as int]@);
            if i == 0 {
                assert(us.take(1) =~= seq![us[0]]);
            }
            assert(r@ =~= head + json_items(us.take(i + 1)));
        }
        i = i + 1;
    }
    crate::text::push_str(&mut r, "]}");
    proof {
        assert(us.take(us.len() as int) =~= us);
    }
    r
}

} // verus!
