//! How a request is answered: the checks made before the requested file is looked up,
//! and the choice made from what the file system says about it.
use vstd::prelude::*;
use crate::kinds::{is_image_path, is_raster_path, mime_type_of, path_has_extension};
use crate::paths::{extension, file_name};
use crate::text::{chars_of, is_text, push_str, split_once, string_of};
use crate::url::query_value;

verus! {

broadcast use vstd::string::group_string_axioms;

/// The largest request body, and the largest Markdown file edited together.
pub const MAX_REQUEST_BODY: usize = 16777216;

/// The largest file shown in the text viewer.
pub const MAX_TEXT_VIEWER_FILE: u64 = 4194304;

/// The largest Draw.io file shown in the diagram viewer.
pub const MAX_DRAWIO_VIEWER_FILE: u64 = 16777216;

/// The longest edge of the thumbnails of listings, of the gallery and of gallery
/// previews.
pub const THUMBNAIL_MAX_EDGE: u32 = 128;

pub const GALLERY_THUMBNAIL_MAX_EDGE: u32 = 512;

pub const GALLERY_PREVIEW_MAX_EDGE: u32 = 2560;

/// A plain-text answer: status, reason phrase and body, which is left out when only
/// the head is sent.
pub struct Reply {
    pub status: u16,
    pub reason: String,
    pub body: String,
    pub head_only: bool,
}

pub struct ReplyView {
    pub status: u16,
    pub reason: Seq<char>,
    pub body: Seq<char>,
    pub head_only: bool,
}

impl View for Reply {
    type V = ReplyView;

    open spec fn view(&self) -> ReplyView {
        ReplyView { status: self.status, reason: self.reason@, body: self.body@, head_only: self.head_only }
    }
}

pub open spec fn reply(status: u16, reason: Seq<char>, body: Seq<char>, head_only: bool) -> ReplyView {
    ReplyView { status, reason, body, head_only }
}

fn make_reply(status: u16, reason: &str, body: &str, head_only: bool) -> (r: Reply)
    ensures
        r@ == reply(status, reason@, body@, head_only),
{
    Reply {
        status,
        reason: string_of(chars_of(reason).as_slice()),
        body: string_of(chars_of(body).as_slice()),
        head_only,
    }
}

pub open spec fn is_get_or_head(method: Seq<char>) -> bool {
    method == "GET"@ || method == "HEAD"@
}

fn get_or_head(method: &[char]) -> (r: bool)
    ensures
        r == is_get_or_head(method@),
{
    is_text(method, "GET") || is_text(method, "HEAD")
}

/// The path where a client proves it holds the access token.
pub open spec fn auth_path() -> Seq<char> {
    "/__webdir/auth"@
}

/// The page shown when access is refused.
pub open spec fn invalid_access_path() -> Seq<char> {
    "/__webdir/invalid-access"@
}

/// The `405` answer to a method the server does not serve, or `None` when it does:
/// as a static site only `GET` and `HEAD` are served.
pub open spec fn method_refusal(raw: bool, method: Seq<char>, target: Seq<char>) -> Option<ReplyView> {
    let served = if raw {
        is_get_or_head(method)
    } else {
        is_get_or_head(method) || method == "POST"@ || method == "PUT"@ || method == "DELETE"@
    };
    if served {
        None
    } else {
        Some(
            reply(
                405,
                "Method Not Allowed"@,
                if raw {
                    "仅支持 GET 和 HEAD\n"@
                } else {
                    "仅支持 GET、HEAD、POST、PUT 和 DELETE\n"@
                },
                method == "HEAD"@,
            ),
        )
    }
}

pub fn check_method(raw: bool, method: &str, target: &str) -> (r: Option<Reply>)
    ensures
        match r {
            Some(reply) => method_refusal(raw, method@, target@) == Some(reply@),
            None => method_refusal(raw, method@, target@) is None,
        },
{
    let m = chars_of(method);
    let head_only = is_text(m.as_slice(), "HEAD");
    let served = if raw {
        get_or_head(m.as_slice())
    } else {
        get_or_head(m.as_slice()) || is_text(m.as_slice(), "POST") || is_text(m.as_slice(), "PUT")
            || is_text(m.as_slice(), "DELETE")
    };
    if served {
        None
    } else if raw {
        Some(make_reply(405, "Method Not Allowed", "仅支持 GET 和 HEAD\n", head_only))
    } else {
        Some(make_reply(405, "Method Not Allowed", "仅支持 GET、HEAD、POST、PUT 和 DELETE\n", head_only))
    }
}

/// The answer to headers that could not be read (`400`) or that announce a body
/// larger than the server takes (`413`); `None` when the request goes on.
pub open spec fn header_refusal(valid: bool, content_length: int, head_only: bool) -> Option<ReplyView> {
    if !valid {
        Some(reply(400, "Bad Request"@, "无效的请求头\n"@, head_only))
    } else if content_length > MAX_REQUEST_BODY {
        Some(reply(413, "Content Too Large"@, "请求内容不能超过 16 MB\n"@, head_only))
    } else {
        None
    }
}

pub fn check_headers(valid: bool, content_length: usize, head_only: bool) -> (r: Option<Reply>)
    ensures
        match r {
            Some(reply) => header_refusal(valid, content_length as int, head_only) == Some(reply@),
            None => header_refusal(valid, content_length as int, head_only) is None,
        },
{
    if !valid {
        Some(make_reply(400, "Bad Request", "无效的请求头\n", head_only))
    } else if content_length > MAX_REQUEST_BODY {
        Some(make_reply(413, "Content Too Large", "请求内容不能超过 16 MB\n", head_only))
    } else {
        None
    }
}

/// The path and the query of a request target: the path stops at `?` or `#`, the
/// query is what follows the first `?`.
pub open spec fn target_parts(target: Seq<char>) -> (Seq<char>, Seq<char>) {
    let (path, query) = match split_once(target, '?') {
        Some(p) => p,
        None => (target, Seq::<char>::empty()),
    };
    let path = match split_once(path, '#') {
        Some((a, _)) => a,
        None => path,
    };
    (path, query)
}

pub fn split_target(target: &str) -> (r: (String, String))
    ensures
        (r.0@, r.1@) == target_parts(target@),
{
    let t = chars_of(target);
    let (path, query) = match crate::text::split_once_exec(t.as_slice(), '?') {
        Some(p) => p,
        None => (t, Vec::new()),
    };
    let path = match crate::text::split_once_exec(path.as_slice(), '#') {
        Some((a, _)) => a,
        None => path,
    };
    (string_of(path.as_slice()), string_of(query.as_slice()))
}

/// An HTML answer with the given status.
pub open spec fn html_text(status: u16, reason: Seq<char>, body: Seq<char>, head_only: bool) -> Seq<char> {
    crate::respond::with_body(
        crate::respond::content_head(status, reason, crate::respond::byte_len(body), "text/html; charset=utf-8"@),
        body,
        head_only,
    )
}

/// What the access check makes of a request when the server was started with token
/// `auth_token`: `None` lets the request through, `Some` is the whole response that
/// answers it instead. Without a token every request goes through.
pub open spec fn access_response(
    auth_token: Option<Seq<char>>,
    method: Seq<char>,
    request_path: Seq<char>,
    target: Seq<char>,
    h: crate::http::HeadersView,
) -> Option<Seq<char>> {
    match auth_token {
        None => None,
        Some(expected) => {
            let head_only = method == "HEAD"@;
            let refused = html_text(403, "Forbidden"@, crate::pages::invalid_access_page(), head_only);
            if request_path == auth_path() && method == "POST"@ {
                Some(
                    if h.auth_token == expected {
                        crate::respond::authenticated_text(expected)
                    } else {
                        refused
                    },
                )
            } else if request_path == invalid_access_path() && is_get_or_head(method) {
                Some(refused)
            } else {
                match crate::url::cookie_lookup(h.cookie, crate::respond::auth_cookie_name()) {
                    Some(token) => if token == expected {
                        None
                    } else {
                        Some(refused)
                    },
                    None => if is_get_or_head(method) && crate::http::wants_html(h) {
                        Some(html_text(401, "Unauthorized"@, crate::pages::auth_page(target), head_only))
                    } else {
                        Some(html_text(401, "Unauthorized"@, crate::pages::invalid_access_page(), head_only))
                    },
                }
            }
        },
    }
}

/// A URL made from a path leads back to it: the path of the URL that `url_for_path`
/// gives decodes and resolves to that path's `Normal` components.
pub proof fn law_url_resolves_to_path(path: Seq<char>, is_dir: bool, head_only: bool)
    ensures
        resolution(crate::paths::url_of(path, is_dir), head_only) == Ok::<(Seq<char>, Seq<Seq<char>>), ReplyView>(
            (crate::paths::decoded_url(crate::paths::normal_parts(path), is_dir), crate::paths::normal_parts(path)),
        ),
{
    let ps = crate::paths::normal_parts(path);
    crate::paths::lemma_normal_parts(path);
    crate::paths::lemma_parts_url_decodes(ps, is_dir);
    crate::paths::lemma_decoded_url_resolves(ps, is_dir);
}

/// Checks a request against the access token the server was started with.
pub fn authorize(
    auth_token: Option<&str>,
    method: &str,
    request_path: &str,
    target: &str,
    headers: &crate::http::RequestHeaders,
) -> (r: Option<String>)
    ensures
        match r {
            Some(response) => access_response(
                crate::kinds::opt_view(auth_token),
                method@,
                request_path@,
                target@,
                headers@,
            ) == Some(response@),
            None => access_response(
                crate::kinds::opt_view(auth_token),
                method@,
                request_path@,
                target@,
                headers@,
            ) is None,
        },
{
    let expected = match auth_token {
        Some(t) => t,
        None => return None,
    };
    let m = chars_of(method);
    let p = chars_of(request_path);
    let head_only = is_text(m.as_slice(), "HEAD");
    if is_text(p.as_slice(), "/__webdir/auth") && is_text(m.as_slice(), "POST") {
        let given = chars_of(headers.auth_token.as_str());
        if is_text(given.as_slice(), expected) {
            return Some(crate::respond::authenticated_response(expected));
        }
        let page = crate::pages::render_invalid_access_page();
        return Some(crate::respond::html_response(403, "Forbidden", page.as_str(), head_only));
    }
    if is_text(p.as_slice(), "/__webdir/invalid-access") && get_or_head(m.as_slice()) {
        let page = crate::pages::render_invalid_access_page();
        return Some(crate::respond::html_response(403, "Forbidden", page.as_str(), head_only));
    }
    match crate::url::cookie_value(headers.cookie.as_str(), "webdir_auth_token") {
        Some(token) => {
            let tc = chars_of(token.as_str());
            if is_text(tc.as_slice(), expected) {
                None
            } else {
                let page = crate::pages::render_invalid_access_page();
                Some(crate::respond::html_response(403, "Forbidden", page.as_str(), head_only))
            }
        },
        None => {
            if get_or_head(m.as_slice()) && crate::http::request_wants_html(headers) {
                let page = crate::pages::render_auth_page(target);
                Some(crate::respond::html_response(401, "Unauthorized", page.as_str(), head_only))
            } else {
                let page = crate::pages::render_invalid_access_page();
                Some(crate::respond::html_response(401, "Unauthorized", page.as_str(), head_only))
            }
        },
    }
}

/// The files the server itself provides at fixed paths.
pub enum Builtin {
    DrawioViewer,
    Mermaid,
    Yjs,
    SiteIcon,
}

pub open spec fn drawio_viewer_path() -> Seq<char> {
    "/__webdir/drawio-viewer-31.3.1.js"@
}

pub open spec fn mermaid_path() -> Seq<char> {
    "/__webdir/mermaid-11.17.2.min.js"@
}

pub open spec fn yjs_path() -> Seq<char> {
    "/__webdir/yjs-13.6.32.min.js"@
}

/// The built-in file a read of `path` gets, if any; the site icon stands in for a
/// favicon the served tree lacks.
pub open spec fn builtin_of(method: Seq<char>, path: Seq<char>, favicon_exists: bool) -> Option<Builtin> {
    if !is_get_or_head(method) {
        None
    } else if path == drawio_viewer_path() {
        Some(Builtin::DrawioViewer)
    } else if path == mermaid_path() {
        Some(Builtin::Mermaid)
    } else if path == yjs_path() {
        Some(Builtin::Yjs)
    } else if (path == "/favicon.svg"@ || path == "/favicon.ico"@) && !favicon_exists {
        Some(Builtin::SiteIcon)
    } else {
        None
    }
}

pub fn builtin_file(method: &str, path: &str, favicon_exists: bool) -> (r: Option<Builtin>)
    ensures
        r == builtin_of(method@, path@, favicon_exists),
{
    let m = chars_of(method);
    let p = chars_of(path);
    if !get_or_head(m.as_slice()) {
        None
    } else if is_text(p.as_slice(), "/__webdir/drawio-viewer-31.3.1.js") {
        Some(Builtin::DrawioViewer)
    } else if is_text(p.as_slice(), "/__webdir/mermaid-11.17.2.min.js") {
        Some(Builtin::Mermaid)
    } else if is_text(p.as_slice(), "/__webdir/yjs-13.6.32.min.js") {
        Some(Builtin::Yjs)
    } else if (is_text(p.as_slice(), "/favicon.svg") || is_text(p.as_slice(), "/favicon.ico"))
        && !favicon_exists {
        Some(Builtin::SiteIcon)
    } else {
        None
    }
}

/// A request path decoded and taken apart: `Err` holds the `400` answer to a path
/// that does not decode and the `403` answer to one that climbs out of the tree.
pub open spec fn resolution(path: Seq<char>, head_only: bool) -> Result<
    (Seq<char>, Seq<Seq<char>>),
    ReplyView,
> {
    match crate::url::percent_decoded(path) {
        None => Err(reply(400, "Bad Request"@, "无效的 URL\n"@, head_only)),
        Some(decoded) => match crate::paths::safe_relative(decoded) {
            None => Err(reply(403, "Forbidden"@, "禁止访问\n"@, head_only)),
            Some(relative) => Ok((decoded, relative)),
        },
    }
}

pub fn resolve(path: &str, head_only: bool) -> (r: Result<(String, Vec<String>), Reply>)
    ensures
        match r {
            Ok((decoded, relative)) => resolution(path@, head_only) == Ok::<
                (Seq<char>, Seq<Seq<char>>),
                ReplyView,
            >((decoded@, crate::paths::strings(relative@))),
            Err(reply) => resolution(path@, head_only) == Err::<(Seq<char>, Seq<Seq<char>>), ReplyView>(
                reply@,
            ),
        },
{
    let decoded = match crate::url::percent_decode(path) {
        Some(d) => d,
        None => return Err(make_reply(400, "Bad Request", "无效的 URL\n", head_only)),
    };
    match crate::paths::safe_relative_path(decoded.as_str()) {
        Some(relative) => Ok((decoded, relative)),
        None => Err(make_reply(403, "Forbidden", "禁止访问\n", head_only)),
    }
}

/// What the file system and the headers say about a request whose path was resolved.
pub struct RequestFacts {
    pub method: String,
    /// The request path as sent (before decoding).
    pub request_path: String,
    pub query: String,
    /// The resolved file system path.
    pub canonical: String,
    pub is_dir: bool,
    pub is_file: bool,
    pub size: u64,
    pub wants_html: bool,
    pub websocket_upgrade: bool,
}

pub struct FactsView {
    pub method: Seq<char>,
    pub request_path: Seq<char>,
    pub query: Seq<char>,
    pub canonical: Seq<char>,
    pub is_dir: bool,
    pub is_file: bool,
    pub size: u64,
    pub wants_html: bool,
    pub websocket_upgrade: bool,
}

impl View for RequestFacts {
    type V = FactsView;

    open spec fn view(&self) -> FactsView {
        FactsView {
            method: self.method@,
            request_path: self.request_path@,
            query: self.query@,
            canonical: self.canonical@,
            is_dir: self.is_dir,
            is_file: self.is_file,
            size: self.size,
            wants_html: self.wants_html,
            websocket_upgrade: self.websocket_upgrade,
        }
    }
}

/// What is done with a request.
pub enum Route {
    /// Answer with this plain text.
    Text(Reply),
    /// The not-found page for the decoded path.
    NotFound,
    SimilarityOrder,
    SetFavouriteLabel,
    ReorderFavourites,
    SetDirectoryFavourite { favourite: bool },
    MoveFavourites,
    SetFavourite { favourite: bool },
    SetDeletionMark { marked: bool },
    DeleteMarked,
    ClearDeletionMarks,
    DeleteImage,
    Redirect { location: String },
    DirectoryPage,
    ReadGalleryComments,
    ApplyGalleryComments,
    ReviewSocket,
    ReadReview,
    CollaborationSocket,
    ApplyReviewAction,
    MarkdownPreview,
    SaveMarkdown,
    /// The image itself, with the version the request asked for.
    ImageAsset { requested_version: Option<String> },
    File { content_type: String },
    RangedFile { content_type: String },
    Thumbnail { max_edge: u32, requested_version: Option<String> },
    SvgPage { title: String },
    ImagePage { title: String, kind: String },
    VideoPage { title: String },
    DrawioPage { title: String },
    MarkdownPage { title: String },
    /// The text viewer if the file reads as text, else [`file_route`].
    TextPage,
}

pub enum RouteView {
    Text(ReplyView),
    NotFound,
    SimilarityOrder,
    SetFavouriteLabel,
    ReorderFavourites,
    SetDirectoryFavourite { favourite: bool },
    MoveFavourites,
    SetFavourite { favourite: bool },
    SetDeletionMark { marked: bool },
    DeleteMarked,
    ClearDeletionMarks,
    DeleteImage,
    Redirect { location: Seq<char> },
    DirectoryPage,
    ReadGalleryComments,
    ApplyGalleryComments,
    ReviewSocket,
    ReadReview,
    CollaborationSocket,
    ApplyReviewAction,
    MarkdownPreview,
    SaveMarkdown,
    ImageAsset { requested_version: Option<Seq<char>> },
    File { content_type: Seq<char> },
    RangedFile { content_type: Seq<char> },
    Thumbnail { max_edge: u32, requested_version: Option<Seq<char>> },
    SvgPage { title: Seq<char> },
    ImagePage { title: Seq<char>, kind: Seq<char> },
    VideoPage { title: Seq<char> },
    DrawioPage { title: Seq<char> },
    MarkdownPage { title: Seq<char> },
    TextPage,
}

impl View for Route {
    type V = RouteView;

    open spec fn view(&self) -> RouteView {
        match self {
            Route::Text(r) => RouteView::Text(r@),
            Route::NotFound => RouteView::NotFound,
            Route::SimilarityOrder => RouteView::SimilarityOrder,
            Route::SetFavouriteLabel => RouteView::SetFavouriteLabel,
            Route::ReorderFavourites => RouteView::ReorderFavourites,
            Route::SetDirectoryFavourite { favourite } => RouteView::SetDirectoryFavourite {
                favourite: *favourite,
            },
            Route::MoveFavourites => RouteView::MoveFavourites,
            Route::SetFavourite { favourite } => RouteView::SetFavourite { favourite: *favourite },
            Route::SetDeletionMark { marked } => RouteView::SetDeletionMark { marked: *marked },
            Route::DeleteMarked => RouteView::DeleteMarked,
            Route::ClearDeletionMarks => RouteView::ClearDeletionMarks,
            Route::DeleteImage => RouteView::DeleteImage,
            Route::Redirect { location } => RouteView::Redirect { location: location@ },
            Route::DirectoryPage => RouteView::DirectoryPage,
            Route::ReadGalleryComments => RouteView::ReadGalleryComments,
            Route::ApplyGalleryComments => RouteView::ApplyGalleryComments,
            Route::ReviewSocket => RouteView::ReviewSocket,
            Route::ReadReview => RouteView::ReadReview,
            Route::CollaborationSocket => RouteView::CollaborationSocket,
            Route::ApplyReviewAction => RouteView::ApplyReviewAction,
            Route::MarkdownPreview => RouteView::MarkdownPreview,
            Route::SaveMarkdown => RouteView::SaveMarkdown,
            Route::ImageAsset { requested_version } => RouteView::ImageAsset {
                requested_version: crate::review::opt_text(*requested_version),
            },
            Route::File { content_type } => RouteView::File { content_type: content_type@ },
            Route::RangedFile { content_type } => RouteView::RangedFile { content_type: content_type@ },
            Route::Thumbnail { max_edge, requested_version } => RouteView::Thumbnail {
                max_edge: *max_edge,
                requested_version: crate::review::opt_text(*requested_version),
            },
            Route::SvgPage { title } => RouteView::SvgPage { title: title@ },
            Route::ImagePage { title, kind } => RouteView::ImagePage { title: title@, kind: kind@ },
            Route::VideoPage { title } => RouteView::VideoPage { title: title@ },
            Route::DrawioPage { title } => RouteView::DrawioPage { title: title@ },
            Route::MarkdownPage { title } => RouteView::MarkdownPage { title: title@ },
            Route::TextPage => RouteView::TextPage,
        }
    }
}

/// A `405 Method Not Allowed` answer.
pub open spec fn not_allowed(body: Seq<char>, head_only: bool) -> RouteView {
    RouteView::Text(reply(405, "Method Not Allowed"@, body, head_only))
}

/// The file name of `path`, or `fallback` when it has none.
pub open spec fn title_or(path: Seq<char>, fallback: Seq<char>) -> Seq<char> {
    match file_name(path) {
        Some(n) => n,
        None => fallback,
    }
}

/// The uppercase extension of the file `path` names, or `IMAGE`.
pub open spec fn image_kind(path: Seq<char>) -> Seq<char> {
    match file_name(path) {
        Some(n) => match extension(n) {
            Some(e) => crate::text::upper(e),
            None => "IMAGE"@,
        },
        None => "IMAGE"@,
    }
}

/// How a file is sent as it is: MP4 video in ranges, anything else whole.
pub open spec fn file_route_of(path: Seq<char>) -> RouteView {
    if path_has_extension(path, "mp4"@) {
        RouteView::RangedFile { content_type: mime_type_of(path) }
    } else {
        RouteView::File { content_type: mime_type_of(path) }
    }
}

/// The mode a request asks for is `mode`.
pub open spec fn mode_is(f: FactsView, mode: Seq<char>) -> bool {
    query_value(f.query, "mode"@) == Some(mode)
}

/// Routes of the modes that act on a directory or on the marks of an image.
pub open spec fn mark_route(f: FactsView) -> Option<RouteView> {
    let m = f.method;
    let head_only = m == "HEAD"@;
    let image_file = f.is_file && is_image_path(f.canonical);
    if mode_is(f, "similarity-order"@) {
        Some(
            if !is_get_or_head(m) || !f.is_dir {
                not_allowed("请从 Gallery 使用相似图片排序\n"@, head_only)
            } else {
                RouteView::SimilarityOrder
            },
        )
    } else if mode_is(f, "directory-favourite-label"@) {
        Some(
            if m != "POST"@ || !f.is_dir {
                not_allowed("请从目录页修改收藏名称\n"@, head_only)
            } else {
                RouteView::SetFavouriteLabel
            },
        )
    } else if mode_is(f, "directory-favourite-order"@) {
        Some(
            if m != "POST"@ || !f.is_dir {
                not_allowed("请从目录页调整收藏夹顺序\n"@, head_only)
            } else {
                RouteView::ReorderFavourites
            },
        )
    } else if mode_is(f, "directory-favourite"@) {
        Some(
            if !(m == "PUT"@ || m == "DELETE"@) || !f.is_dir {
                not_allowed("仅支持收藏或取消收藏目录\n"@, head_only)
            } else {
                RouteView::SetDirectoryFavourite { favourite: m == "PUT"@ }
            },
        )
    } else if mode_is(f, "move-favourites"@) {
        Some(
            if m != "POST"@ || !f.is_dir {
                not_allowed("请从目录页整理图片\n"@, head_only)
            } else {
                RouteView::MoveFavourites
            },
        )
    } else if mode_is(f, "favourite"@) {
        Some(
            if !(m == "PUT"@ || m == "DELETE"@) || !image_file {
                not_allowed("仅支持点赞或取消点赞图片\n"@, head_only)
            } else {
                RouteView::SetFavourite { favourite: m == "PUT"@ }
            },
        )
    } else if mode_is(f, "deletion-mark"@) {
        Some(
            if !(m == "PUT"@ || m == "DELETE"@) || !image_file {
                not_allowed("仅支持标记或取消标记待删除图片\n"@, head_only)
            } else {
                RouteView::SetDeletionMark { marked: m == "PUT"@ }
            },
        )
    } else if mode_is(f, "delete-marked"@) {
        Some(
            if m != "POST"@ || !f.is_dir {
                not_allowed("请从目录页删除已标记图片\n"@, head_only)
            } else {
                RouteView::DeleteMarked
            },
        )
    } else if mode_is(f, "clear-deletion-marks"@) {
        Some(
            if m != "POST"@ || !f.is_dir {
                not_allowed("请从目录页取消待删除标记\n"@, head_only)
            } else {
                RouteView::ClearDeletionMarks
            },
        )
    } else {
        None
    }
}

/// The redirect of a directory requested without its trailing `/`.
pub open spec fn directory_location(path: Seq<char>, query: Seq<char>) -> Seq<char> {
    if query.len() == 0 {
        path + "/"@
    } else {
        path + "/?"@ + query
    }
}

/// Routes of a file with one of the modes that read or change what belongs to it.
pub open spec fn file_mode_route(f: FactsView) -> Option<RouteView> {
    let m = f.method;
    let head_only = m == "HEAD"@;
    let md = path_has_extension(f.canonical, "md"@);
    if mode_is(f, "gallery-comments"@) {
        Some(
            if !is_image_path(f.canonical) {
                not_allowed("仅支持图片评论\n"@, head_only)
            } else if is_get_or_head(m) {
                RouteView::ReadGalleryComments
            } else if m == "POST"@ {
                RouteView::ApplyGalleryComments
            } else {
                not_allowed("仅支持读取或更新图片评论\n"@, head_only)
            },
        )
    } else if mode_is(f, "review-collab"@) {
        Some(
            if m != "GET"@ || !md {
                not_allowed("仅支持协同审阅 Markdown 文件\n"@, head_only)
            } else if !f.websocket_upgrade {
                RouteView::Text(reply(426, "Upgrade Required"@, "该接口需要 WebSocket 连接\n"@, false))
            } else {
                RouteView::ReviewSocket
            },
        )
    } else if mode_is(f, "review-data"@) {
        Some(
            if !is_get_or_head(m) || !md {
                not_allowed("仅支持读取 Markdown 审阅数据\n"@, head_only)
            } else {
                RouteView::ReadReview
            },
        )
    } else if mode_is(f, "collab"@) {
        Some(
            if m != "GET"@ || !md {
                not_allowed("仅支持协同编辑 Markdown 文件\n"@, head_only)
            } else if !f.websocket_upgrade {
                RouteView::Text(reply(426, "Upgrade Required"@, "该接口需要 WebSocket 连接\n"@, false))
            } else if f.size > MAX_REQUEST_BODY {
                RouteView::Text(
                    reply(413, "Content Too Large"@, "协同编辑的 Markdown 文件不能超过 16 MB\n"@, false),
                )
            } else {
                RouteView::CollaborationSocket
            },
        )
    } else {
        None
    }
}

/// Routes of a file read as a page or as content.
pub open spec fn view_route(f: FactsView) -> RouteView {
    let m = f.method;
    let head_only = m == "HEAD"@;
    let p = f.canonical;
    let version = query_value(f.query, "v"@);
    if mode_is(f, "asset"@) && is_image_path(p) {
        RouteView::ImageAsset { requested_version: version }
    } else if mode_is(f, "asset"@) {
        file_route_of(p)
    } else if mode_is(f, "thumb"@) || mode_is(f, "gallery-thumb"@) || mode_is(f, "gallery-preview"@) {
        RouteView::Thumbnail {
            max_edge: if mode_is(f, "gallery-preview"@) {
                GALLERY_PREVIEW_MAX_EDGE
            } else if mode_is(f, "gallery-thumb"@) {
                GALLERY_THUMBNAIL_MAX_EDGE
            } else {
                THUMBNAIL_MAX_EDGE
            },
            requested_version: version,
        }
    } else if mode_is(f, "raw"@) {
        RouteView::File { content_type: "text/plain; charset=utf-8"@ }
    } else if path_has_extension(p, "html"@) || path_has_extension(p, "htm"@) {
        RouteView::File { content_type: mime_type_of(p) }
    } else if path_has_extension(p, "svg"@) && f.wants_html {
        RouteView::SvgPage { title: title_or(p, "SVG image"@) }
    } else if is_raster_path(p) && f.wants_html {
        RouteView::ImagePage { title: title_or(p, "Image"@), kind: image_kind(p) }
    } else if path_has_extension(p, "mp4"@) && f.wants_html {
        RouteView::VideoPage { title: title_or(p, "Video"@) }
    } else if path_has_extension(p, "drawio"@) && f.wants_html {
        if f.size > MAX_DRAWIO_VIEWER_FILE {
            RouteView::Text(
                reply(413, "Content Too Large"@, "Draw.io 文件超过 16 MB，请使用 ?mode=raw 查看源码\n"@, head_only),
            )
        } else {
            RouteView::DrawioPage { title: title_or(p, "Draw.io diagram"@) }
        }
    } else if path_has_extension(p, "md"@) {
        RouteView::MarkdownPage { title: title_or(p, "Markdown"@) }
    } else if f.wants_html && f.size <= MAX_TEXT_VIEWER_FILE {
        RouteView::TextPage
    } else {
        file_route_of(p)
    }
}

/// What is done with a request whose path resolved to an existing entry.
pub open spec fn route_of(f: FactsView) -> RouteView {
    let m = f.method;
    let head_only = m == "HEAD"@;
    let md = path_has_extension(f.canonical, "md"@);
    match mark_route(f) {
        Some(r) => r,
        None => if m == "DELETE"@ {
            if !f.is_file || !is_image_path(f.canonical) {
                not_allowed("仅支持删除图片文件\n"@, false)
            } else {
                RouteView::DeleteImage
            }
        } else if f.is_dir {
            if f.request_path.len() == 0 || f.request_path.last() != '/' {
                RouteView::Redirect { location: directory_location(f.request_path, f.query) }
            } else {
                RouteView::DirectoryPage
            }
        } else if !f.is_file {
            RouteView::NotFound
        } else {
            match file_mode_route(f) {
                Some(r) => r,
                None => if m == "POST"@ {
                    if mode_is(f, "review-action"@) && md {
                        RouteView::ApplyReviewAction
                    } else if !mode_is(f, "preview"@) || !md {
                        not_allowed("该资源不支持预览\n"@, false)
                    } else {
                        RouteView::MarkdownPreview
                    }
                } else if m == "PUT"@ {
                    if !mode_is(f, "raw"@) || !md {
                        not_allowed("仅支持保存 Markdown 文件\n"@, false)
                    } else {
                        RouteView::SaveMarkdown
                    }
                } else {
                    view_route(f)
                },
            }
        },
    }
}

fn mode_matches(mode: &Option<String>, expected: &str) -> (r: bool)
    ensures
        r == (crate::review::opt_text(*mode) == Some(expected@)),
{
    match mode {
        Some(m) => {
            let mc = chars_of(m.as_str());
            is_text(mc.as_slice(), expected)
        },
        None => false,
    }
}

fn text_route(status: u16, reason: &str, body: &str, head_only: bool) -> (r: Route)
    ensures
        r@ == RouteView::Text(reply(status, reason@, body@, head_only)),
{
    Route::Text(make_reply(status, reason, body, head_only))
}

/// How a file is sent as it is: MP4 video in ranges, anything else whole.
pub fn file_route(path: &str) -> (r: Route)
    ensures
        r@ == file_route_of(path@),
{
    let content_type = string_of(chars_of(crate::kinds::mime_type(path)).as_slice());
    if crate::kinds::path_has_extension_exec(path, "mp4") {
        Route::RangedFile { content_type }
    } else {
        Route::File { content_type }
    }
}

fn title_of(path: &str, fallback: &str) -> (r: String)
    ensures
        r@ == title_or(path@, fallback@),
{
    match crate::paths::file_name_of(path) {
        Some(n) => string_of(n.as_slice()),
        None => string_of(chars_of(fallback).as_slice()),
    }
}

fn image_kind_of(path: &str) -> (r: String)
    ensures
        r@ == image_kind(path@),
{
    match crate::paths::file_name_of(path) {
        Some(n) => match crate::paths::extension_of(n.as_slice()) {
            Some(e) => string_of(crate::text::upper_chars(e.as_slice()).as_slice()),
            None => string_of(chars_of("IMAGE").as_slice()),
        },
        None => string_of(chars_of("IMAGE").as_slice()),
    }
}

fn mark_route_exec(f: &RequestFacts, mode: &Option<String>) -> (r: Option<Route>)
    requires
        crate::review::opt_text(*mode) == query_value(f.query@, "mode"@),
    ensures
        match r {
            Some(route) => mark_route(f@) == Some(route@),
            None => mark_route(f@) is None,
        },
{
    let m = chars_of(f.method.as_str());
    let head_only = is_text(m.as_slice(), "HEAD");
    let post = is_text(m.as_slice(), "POST");
    let put = is_text(m.as_slice(), "PUT");
    let put_or_delete = put || is_text(m.as_slice(), "DELETE");
    let image_file = f.is_file && crate::kinds::is_image_file(f.canonical.as_str());
    if mode_matches(mode, "similarity-order") {
        Some(
            if !get_or_head(m.as_slice()) || !f.is_dir {
                text_route(405, "Method Not Allowed", "请从 Gallery 使用相似图片排序\n", head_only)
            } else {
                Route::SimilarityOrder
            },
        )
    } else if mode_matches(mode, "directory-favourite-label") {
        Some(
            if !post || !f.is_dir {
                text_route(405, "Method Not Allowed", "请从目录页修改收藏名称\n", head_only)
            } else {
                Route::SetFavouriteLabel
            },
        )
    } else if mode_matches(mode, "directory-favourite-order") {
        Some(
            if !post || !f.is_dir {
                text_route(405, "Method Not Allowed", "请从目录页调整收藏夹顺序\n", head_only)
            } else {
                Route::ReorderFavourites
            },
        )
    } else if mode_matches(mode, "directory-favourite") {
        Some(
            if !put_or_delete || !f.is_dir {
                text_route(405, "Method Not Allowed", "仅支持收藏或取消收藏目录\n", head_only)
            } else {
                Route::SetDirectoryFavourite { favourite: put }
            },
        )
    } else if mode_matches(mode, "move-favourites") {
        Some(
            if !post || !f.is_dir {
                text_route(405, "Method Not Allowed", "请从目录页整理图片\n", head_only)
            } else {
                Route::MoveFavourites
            },
        )
    } else if mode_matches(mode, "favourite") {
        Some(
            if !put_or_delete || !image_file {
                text_route(405, "Method Not Allowed", "仅支持点赞或取消点赞图片\n", head_only)
            } else {
                Route::SetFavourite { favourite: put }
            },
        )
    } else if mode_matches(mode, "deletion-mark") {
        Some(
            if !put_or_delete || !image_file {
                text_route(405, "Method Not Allowed", "仅支持标记或取消标记待删除图片\n", head_only)
            } else {
                Route::SetDeletionMark { marked: put }
            },
        )
    } else if mode_matches(mode, "delete-marked") {
        Some(
            if !post || !f.is_dir {
                text_route(405, "Method Not Allowed", "请从目录页删除已标记图片\n", head_only)
            } else {
                Route::DeleteMarked
            },
        )
    } else if mode_matches(mode, "clear-deletion-marks") {
        Some(
            if !post || !f.is_dir {
                text_route(405, "Method Not Allowed", "请从目录页取消待删除标记\n", head_only)
            } else {
                Route::ClearDeletionMarks
            },
        )
    } else {
        None
    }
}

fn file_mode_route_exec(f: &RequestFacts, mode: &Option<String>) -> (r: Option<Route>)
    requires
        crate::review::opt_text(*mode) == query_value(f.query@, "mode"@),
    ensures
        match r {
            Some(route) => file_mode_route(f@) == Some(route@),
            None => file_mode_route(f@) is None,
        },
{
    let m = chars_of(f.method.as_str());
    let head_only = is_text(m.as_slice(), "HEAD");
    let get = is_text(m.as_slice(), "GET");
    let md = crate::kinds::path_has_extension_exec(f.canonical.as_str(), "md");
    if mode_matches(mode, "gallery-comments") {
        Some(
            if !crate::kinds::is_image_file(f.canonical.as_str()) {
                text_route(405, "Method Not Allowed", "仅支持图片评论\n", head_only)
            } else if get_or_head(m.as_slice()) {
                Route::ReadGalleryComments
            } else if is_text(m.as_slice(), "POST") {
                Route::ApplyGalleryComments
            } else {
                text_route(405, "Method Not Allowed", "仅支持读取或更新图片评论\n", head_only)
            },
        )
    } else if mode_matches(mode, "review-collab") {
        Some(
            if !get || !md {
                text_route(405, "Method Not Allowed", "仅支持协同审阅 Markdown 文件\n", head_only)
            } else if !f.websocket_upgrade {
                text_route(426, "Upgrade Required", "该接口需要 WebSocket 连接\n", false)
            } else {
                Route::ReviewSocket
            },
        )
    } else if mode_matches(mode, "review-data") {
        Some(
            if !get_or_head(m.as_slice()) || !md {
                text_route(405, "Method Not Allowed", "仅支持读取 Markdown 审阅数据\n", head_only)
            } else {
                Route::ReadReview
            },
        )
    } else if mode_matches(mode, "collab") {
        Some(
            if !get || !md {
                text_route(405, "Method Not Allowed", "仅支持协同编辑 Markdown 文件\n", head_only)
            } else if !f.websocket_upgrade {
                text_route(426, "Upgrade Required", "该接口需要 WebSocket 连接\n", false)
            } else if f.size > MAX_REQUEST_BODY as u64 {
                text_route(413, "Content Too Large", "协同编辑的 Markdown 文件不能超过 16 MB\n", false)
            } else {
                Route::CollaborationSocket
            },
        )
    } else {
        None
    }
}

fn view_route_exec(f: &RequestFacts, mode: &Option<String>) -> (r: Route)
    requires
        crate::review::opt_text(*mode) == query_value(f.query@, "mode"@),
    ensures
        r@ == view_route(f@),
{
    let m = chars_of(f.method.as_str());
    let head_only = is_text(m.as_slice(), "HEAD");
    let p = f.canonical.as_str();
    let version = crate::url::query_parameter(f.query.as_str(), "v");
    proof {
        assert(crate::review::opt_text(version) == query_value(f.query@, "v"@));
    }
    if mode_matches(mode, "asset") && crate::kinds::is_image_file(p) {
        Route::ImageAsset { requested_version: version }
    } else if mode_matches(mode, "asset") {
        file_route(p)
    } else if mode_matches(mode, "thumb") || mode_matches(mode, "gallery-thumb") || mode_matches(
        mode,
        "gallery-preview",
    ) {
        let max_edge = if mode_matches(mode, "gallery-preview") {
            GALLERY_PREVIEW_MAX_EDGE
        } else if mode_matches(mode, "gallery-thumb") {
            GALLERY_THUMBNAIL_MAX_EDGE
        } else {
            THUMBNAIL_MAX_EDGE
        };
        Route::Thumbnail { max_edge, requested_version: version }
    } else if mode_matches(mode, "raw") {
        Route::File { content_type: string_of(chars_of("text/plain; charset=utf-8").as_slice()) }
    } else if crate::kinds::path_has_extension_exec(p, "html") || crate::kinds::path_has_extension_exec(
        p,
        "htm",
    ) {
        Route::File { content_type: string_of(chars_of(crate::kinds::mime_type(p)).as_slice()) }
    } else if crate::kinds::path_has_extension_exec(p, "svg") && f.wants_html {
        Route::SvgPage { title: title_of(p, "SVG image") }
    } else if crate::kinds::is_raster_image(p) && f.wants_html {
        Route::ImagePage { title: title_of(p, "Image"), kind: image_kind_of(p) }
    } else if crate::kinds::path_has_extension_exec(p, "mp4") && f.wants_html {
        Route::VideoPage { title: title_of(p, "Video") }
    } else if crate::kinds::path_has_extension_exec(p, "drawio") && f.wants_html {
        if f.size > MAX_DRAWIO_VIEWER_FILE {
            text_route(413, "Content Too Large", "Draw.io 文件超过 16 MB，请使用 ?mode=raw 查看源码\n", head_only)
        } else {
            Route::DrawioPage { title: title_of(p, "Draw.io diagram") }
        }
    } else if crate::kinds::path_has_extension_exec(p, "md") {
        Route::MarkdownPage { title: title_of(p, "Markdown") }
    } else if f.wants_html && f.size <= MAX_TEXT_VIEWER_FILE {
        Route::TextPage
    } else {
        file_route(p)
    }
}

/// Chooses what is done with a request whose path resolved to an existing entry.
pub fn route(f: &RequestFacts) -> (r: Route)
    ensures
        r@ == route_of(f@),
{
    let mode = crate::url::query_parameter(f.query.as_str(), "mode");
    proof {
        assert(crate::review::opt_text(mode) == query_value(f.query@, "mode"@));
    }
    match mark_route_exec(f, &mode) {
        Some(r) => return r,
        None => {},
    }
    let m = chars_of(f.method.as_str());
    let md = crate::kinds::path_has_extension_exec(f.canonical.as_str(), "md");
    if is_text(m.as_slice(), "DELETE") {
        if !f.is_file || !crate::kinds::is_image_file(f.canonical.as_str()) {
            text_route(405, "Method Not Allowed", "仅支持删除图片文件\n", false)
        } else {
            Route::DeleteImage
        }
    } else if f.is_dir {
        let pc = chars_of(f.request_path.as_str());
        if pc.len() == 0 || pc[pc.len() - 1] != '/' {
            let mut location = string_of(pc.as_slice());
            let qc = chars_of(f.query.as_str());
            if qc.len() == 0 {
                push_str(&mut location, "/");
            } else {
                push_str(&mut location, "/?");
                push_str(&mut location, f.query.as_str());
            }
            Route::Redirect { location }
        } else {
            Route::DirectoryPage
        }
    } else if !f.is_file {
        Route::NotFound
    } else {
        match file_mode_route_exec(f, &mode) {
            Some(r) => r,
            None => {
                if is_text(m.as_slice(), "POST") {
                    if mode_matches(&mode, "review-action") && md {
                        Route::ApplyReviewAction
                    } else if !mode_matches(&mode, "preview") || !md {
                        text_route(405, "Method Not Allowed", "该资源不支持预览\n", false)
                    } else {
                        Route::MarkdownPreview
                    }
                } else if is_text(m.as_slice(), "PUT") {
                    if !mode_matches(&mode, "raw") || !md {
                        text_route(405, "Method Not Allowed", "仅支持保存 Markdown 文件\n", false)
                    } else {
                        Route::SaveMarkdown
                    }
                } else {
                    view_route_exec(f, &mode)
                }
            },
        }
    }
}

/// The answer when the resolved path cannot be served: `missing` when nothing is
/// there, else it lies outside the served tree. The static site answers in plain
/// text where the browsing server shows its not-found page.
pub open spec fn lookup_failure(raw: bool, missing: bool, head_only: bool) -> RouteView {
    if !missing {
        RouteView::Text(reply(403, "Forbidden"@, "禁止访问\n"@, head_only))
    } else if raw {
        RouteView::Text(reply(404, "Not Found"@, "Not Found\n"@, head_only))
    } else {
        RouteView::NotFound
    }
}

pub fn lookup_failed(raw: bool, missing: bool, head_only: bool) -> (r: Route)
    ensures
        r@ == lookup_failure(raw, missing, head_only),
{
    if !missing {
        text_route(403, "Forbidden", "禁止访问\n", head_only)
    } else if raw {
        text_route(404, "Not Found", "Not Found\n", head_only)
    } else {
        Route::NotFound
    }
}

/// How the static site answers a request whose path resolved: a directory is served
/// by its `index.html` ([`Route::DirectoryPage`] stands for that), after a redirect
/// that adds the trailing `/`; a file is sent whole.
pub open spec fn raw_route_of(request_path: Seq<char>, query: Seq<char>, canonical: Seq<char>, is_dir: bool, is_file: bool, head_only: bool) -> RouteView {
    if is_dir {
        if request_path.len() == 0 || request_path.last() != '/' {
            RouteView::Redirect { location: directory_location(request_path, query) }
        } else {
            RouteView::DirectoryPage
        }
    } else if !is_file {
        RouteView::Text(reply(404, "Not Found"@, "Not Found\n"@, head_only))
    } else {
        RouteView::File { content_type: mime_type_of(canonical) }
    }
}

pub fn raw_route(request_path: &str, query: &str, canonical: &str, is_dir: bool, is_file: bool, head_only: bool) -> (r: Route)
    ensures
        r@ == raw_route_of(request_path@, query@, canonical@, is_dir, is_file, head_only),
{
    if is_dir {
        let pc = chars_of(request_path);
        if pc.len() == 0 || pc[pc.len() - 1] != '/' {
            let mut location = string_of(pc.as_slice());
            let qc = chars_of(query);
            if qc.len() == 0 {
                push_str(&mut location, "/");
            } else {
                push_str(&mut location, "/?");
                push_str(&mut location, query);
            }
            Route::Redirect { location }
        } else {
            Route::DirectoryPage
        }
    } else if !is_file {
        text_route(404, "Not Found", "Not Found\n", head_only)
    } else {
        Route::File { content_type: string_of(chars_of(crate::kinds::mime_type(canonical)).as_slice()) }
    }
}

/// How the static site answers for a directory's `index.html`: `index` is its
/// resolved path when it exists inside the directory, with whether it is a file.
/// Anything else is refused.
pub open spec fn index_route_of(index: Option<(Seq<char>, bool)>, head_only: bool) -> RouteView {
    match index {
        Some((path, true)) => RouteView::File { content_type: mime_type_of(path) },
        _ => RouteView::Text(reply(403, "Forbidden"@, "Forbidden\n"@, head_only)),
    }
}

pub fn index_route(index: Option<(&str, bool)>, head_only: bool) -> (r: Route)
    ensures
        r@ == index_route_of(
            match index {
                Some((p, f)) => Some((p@, f)),
                None => None,
            },
            head_only,
        ),
{
    match index {
        Some((path, true)) => Route::File {
            content_type: string_of(chars_of(crate::kinds::mime_type(path)).as_slice()),
        },
        _ => text_route(403, "Forbidden", "Forbidden\n", head_only),
    }
}

/// With an access token, a request gets through only with the token in its cookie.
pub proof fn law_token_required(
    expected: Seq<char>,
    method: Seq<char>,
    request_path: Seq<char>,
    target: Seq<char>,
    h: crate::http::HeadersView,
)
    ensures
        access_response(Some(expected), method, request_path, target, h) is None ==> crate::url::cookie_lookup(
            h.cookie,
            crate::respond::auth_cookie_name(),
        ) == Some(expected),
{
}

/// Without an access token every request gets through, whatever cookie it carries.
pub proof fn law_no_token_no_check(
    method: Seq<char>,
    request_path: Seq<char>,
    target: Seq<char>,
    h: crate::http::HeadersView,
)
    ensures
        access_response(None, method, request_path, target, h) is None,
{
}

/// The static site serves only `GET` and `HEAD`: every other method gets the `405`
/// answer "仅支持 GET 和 HEAD".
pub proof fn law_raw_serves_only_reads(method: Seq<char>, target: Seq<char>)
    ensures
        method_refusal(true, method, target) is None <==> is_get_or_head(method),
        !is_get_or_head(method) ==> method_refusal(true, method, target) == Some(
            reply(405, "Method Not Allowed"@, "仅支持 GET 和 HEAD\n"@, method == "HEAD"@),
        ),
{
}

/// A path with a `..` component is refused before the file system is asked.
pub proof fn law_traversal_refused(path: Seq<char>, decoded: Seq<char>, head_only: bool)
    requires
        crate::url::percent_decoded(path) == Some(decoded),
        crate::text::split(decoded, '/').contains(seq!['.', '.']),
    ensures
        resolution(path, head_only) == Err::<(Seq<char>, Seq<Seq<char>>), ReplyView>(
            reply(403, "Forbidden"@, "禁止访问\n"@, head_only),
        ),
{
}

proof fn lemma_method_names()
    ensures
        "GET"@ != "HEAD"@,
        "GET"@ != "POST"@,
        "GET"@ != "PUT"@,
        "GET"@ != "DELETE"@,
        "HEAD"@ != "POST"@,
        "HEAD"@ != "PUT"@,
        "HEAD"@ != "DELETE"@,
        "POST"@ != "PUT"@,
        "POST"@ != "DELETE"@,
        "PUT"@ != "DELETE"@,
{
    reveal_strlit("GET");
    reveal_strlit("HEAD");
    reveal_strlit("POST");
    reveal_strlit("PUT");
    reveal_strlit("DELETE");
    assert("GET"@.len() == 3 && "PUT"@.len() == 3);
    assert("HEAD"@.len() == 4 && "POST"@.len() == 4);
    assert("DELETE"@.len() == 6);
    assert("GET"@[0] == 'G' && "PUT"@[0] == 'P');
    assert("HEAD"@[0] == 'H' && "POST"@[0] == 'P');
}

/// `?mode=raw` reads any file as it is, as plain text.
pub proof fn law_raw_mode_reads_file(f: FactsView)
    requires
        f.is_file,
        !f.is_dir,
        is_get_or_head(f.method),
        mode_is(f, "raw"@),
    ensures
        route_of(f) == (RouteView::File { content_type: "text/plain; charset=utf-8"@ }),
{
    lemma_method_names();
    reveal_strlit("raw");
    assert("raw"@.len() == 3);
    reveal_strlit("similarity-order");
    assert("similarity-order"@.len() == 16);
    reveal_strlit("directory-favourite-label");
    assert("directory-favourite-label"@.len() == 25);
    reveal_strlit("directory-favourite-order");
    assert("directory-favourite-order"@.len() == 25);
    reveal_strlit("directory-favourite");
    assert("directory-favourite"@.len() == 19);
    reveal_strlit("move-favourites");
    assert("move-favourites"@.len() == 15);
    reveal_strlit("favourite");
    assert("favourite"@.len() == 9);
    reveal_strlit("deletion-mark");
    assert("deletion-mark"@.len() == 13);
    reveal_strlit("delete-marked");
    assert("delete-marked"@.len() == 13);
    reveal_strlit("clear-deletion-marks");
    assert("clear-deletion-marks"@.len() == 20);
    reveal_strlit("gallery-comments");
    assert("gallery-comments"@.len() == 16);
    reveal_strlit("review-collab");
    assert("review-collab"@.len() == 13);
    reveal_strlit("review-data");
    assert("review-data"@.len() == 11);
    reveal_strlit("collab");
    assert("collab"@.len() == 6);
    reveal_strlit("asset");
    assert("asset"@.len() == 5);
    reveal_strlit("thumb");
    assert("thumb"@.len() == 5);
    reveal_strlit("gallery-thumb");
    assert("gallery-thumb"@.len() == 13);
    reveal_strlit("gallery-preview");
    assert("gallery-preview"@.len() == 15);
}

/// The route of a `HEAD` request given the route of the same `GET` request: a
/// plain-text answer loses its body, every other route stays as it is (its work
/// writes the same head and leaves the body out for `HEAD`).
pub open spec fn as_head(r: RouteView) -> RouteView {
    match r {
        RouteView::Text(reply) => RouteView::Text(ReplyView { head_only: true, ..reply }),
        other => other,
    }
}

/// A `HEAD` request is routed as the same `GET` request, its plain-text answer
/// without the body; only the collaboration sockets, which a `HEAD` request cannot
/// open, are left out.
pub proof fn law_head_routes_as_get(g: FactsView)
    requires
        g.method == "GET"@,
        !mode_is(g, "collab"@),
        !mode_is(g, "review-collab"@),
    ensures
        route_of(FactsView { method: "HEAD"@, ..g }) == as_head(route_of(g)),
{
    lemma_method_names();
}

/// A plain-text answer to a `HEAD` request goes without its body.
pub proof fn law_head_gets_no_body(f: FactsView)
    requires
        f.method == "HEAD"@,
    ensures
        route_of(f) matches RouteView::Text(reply) ==> reply.head_only,
{
    lemma_method_names();
}


/// Liking, marking and starring follow the method: on an image file, `PUT` with
/// `?mode=favourite` likes it and `DELETE` unlikes it, `PUT` with
/// `?mode=deletion-mark` marks it for deletion and `DELETE` clears the mark; on a
/// directory, `PUT` with `?mode=directory-favourite` adds it to the favourites and
/// `DELETE` takes it out.
pub proof fn law_marks_follow_method(f: FactsView)
    ensures
        f.is_file && is_image_path(f.canonical) && mode_is(f, "favourite"@) && f.method == "PUT"@ ==> route_of(f)
            == (RouteView::SetFavourite { favourite: true }),
        f.is_file && is_image_path(f.canonical) && mode_is(f, "favourite"@) && f.method == "DELETE"@ ==> route_of(
            f,
        ) == (RouteView::SetFavourite { favourite: false }),
        f.is_file && is_image_path(f.canonical) && mode_is(f, "deletion-mark"@) && f.method == "PUT"@ ==> route_of(f)
            == (RouteView::SetDeletionMark { marked: true }),
        f.is_file && is_image_path(f.canonical) && mode_is(f, "deletion-mark"@) && f.method == "DELETE"@ ==> route_of(
            f,
        ) == (RouteView::SetDeletionMark { marked: false }),
        f.is_dir && mode_is(f, "directory-favourite"@) && f.method == "PUT"@ ==> route_of(f)
            == (RouteView::SetDirectoryFavourite { favourite: true }),
        f.is_dir && mode_is(f, "directory-favourite"@) && f.method == "DELETE"@ ==> route_of(f)
            == (RouteView::SetDirectoryFavourite { favourite: false }),
{
    lemma_method_names();
    lemma_mode_names();
    if mode_is(f, "favourite"@) {
        assert(!mode_is(f, "similarity-order"@));
        assert(!mode_is(f, "directory-favourite-label"@));
        assert(!mode_is(f, "directory-favourite-order"@));
        assert(!mode_is(f, "directory-favourite"@));
        assert(!mode_is(f, "move-favourites"@));
    }
    if mode_is(f, "directory-favourite"@) {
        assert(!mode_is(f, "similarity-order"@));
        assert(!mode_is(f, "directory-favourite-label"@));
        assert(!mode_is(f, "directory-favourite-order"@));
    }
    if mode_is(f, "deletion-mark"@) {
        assert(!mode_is(f, "similarity-order"@));
        assert(!mode_is(f, "directory-favourite-label"@));
        assert(!mode_is(f, "directory-favourite-order"@));
        assert(!mode_is(f, "directory-favourite"@));
        assert(!mode_is(f, "move-favourites"@));
        assert(!mode_is(f, "favourite"@));
    }
}

/// The mode names the mark routes tell apart differ from one another.
proof fn lemma_mode_names()
    ensures
        "favourite"@ != "similarity-order"@,
        "favourite"@ != "directory-favourite-label"@,
        "favourite"@ != "directory-favourite-order"@,
        "favourite"@ != "directory-favourite"@,
        "favourite"@ != "move-favourites"@,
        "directory-favourite"@ != "similarity-order"@,
        "directory-favourite"@ != "directory-favourite-label"@,
        "directory-favourite"@ != "directory-favourite-order"@,
        "deletion-mark"@ != "similarity-order"@,
        "deletion-mark"@ != "directory-favourite-label"@,
        "deletion-mark"@ != "directory-favourite-order"@,
        "deletion-mark"@ != "directory-favourite"@,
        "deletion-mark"@ != "move-favourites"@,
        "deletion-mark"@ != "favourite"@,
{
    reveal_strlit("similarity-order");
    reveal_strlit("directory-favourite-label");
    reveal_strlit("directory-favourite-order");
    reveal_strlit("directory-favourite");
    reveal_strlit("move-favourites");
    reveal_strlit("favourite");
    reveal_strlit("deletion-mark");
    assert("similarity-order"@.len() == 16);
    assert("directory-favourite-label"@.len() == 25);
    assert("directory-favourite-order"@.len() == 25);
    assert("directory-favourite"@.len() == 19);
    assert("move-favourites"@.len() == 15);
    assert("favourite"@.len() == 9);
    assert("deletion-mark"@.len() == 13);
}

} // verus!
