use webdir::http::RequestHeaders;
use webdir::routing::{
    authorize, builtin_file, check_headers, check_method, resolve, route, split_target, Builtin,
    RequestFacts, Route,
};

fn facts(method: &str, request_path: &str, query: &str, canonical: &str, is_dir: bool) -> RequestFacts {
    RequestFacts {
        method: method.into(),
        request_path: request_path.into(),
        query: query.into(),
        canonical: canonical.into(),
        is_dir,
        is_file: !is_dir,
        size: 10,
        wants_html: true,
        websocket_upgrade: false,
    }
}

#[test]
fn auth_token_protects_requests_and_uses_a_browser_session_cookie() {
    let mut page = RequestHeaders::new();
    page.accept = "text/html".into();
    let challenge = authorize(Some("secret"), "GET", "/note.txt", "/note.txt", &page).unwrap();
    assert!(challenge.starts_with("HTTP/1.1 401 Unauthorized"));
    assert!(challenge.contains("需要访问令牌"));

    let mut login = RequestHeaders::new();
    login.auth_token = "secret".into();
    let accepted = authorize(Some("secret"), "POST", "/__webdir/auth", "/__webdir/auth", &login).unwrap();
    assert!(accepted.starts_with("HTTP/1.1 204 No Content"));
    assert!(accepted.contains("Set-Cookie: webdir_auth_token=secret;"));

    let mut cookie = RequestHeaders::new();
    cookie.cookie = "webdir_auth_token=secret".into();
    assert_eq!(authorize(Some("secret"), "GET", "/note.txt", "/note.txt", &cookie), None);

    let mut wrong = RequestHeaders::new();
    wrong.cookie = "webdir_auth_token=wrong".into();
    let refused = authorize(Some("secret"), "GET", "/note.txt", "/note.txt", &wrong).unwrap();
    assert!(refused.starts_with("HTTP/1.1 403 Forbidden"));
    assert!(refused.contains("访问未获授权"));
}

#[test]
fn disabled_authentication_ignores_a_stale_browser_cookie() {
    let mut stale = RequestHeaders::new();
    stale.cookie = "webdir_auth_token=stale".into();
    assert_eq!(authorize(None, "GET", "/", "/", &stale), None);
}

#[test]
fn methods_are_limited_by_the_serving_mode() {
    assert!(check_method(false, "PUT", "/a.md?mode=raw").is_none());
    let raw_put = check_method(true, "PUT", "/a.md").unwrap();
    assert_eq!(raw_put.status, 405);
    assert_eq!(raw_put.body, "仅支持 GET 和 HEAD\n");
    let raw_post = check_method(true, "POST", "/__webdir/auth?x=1").unwrap();
    assert_eq!(raw_post.status, 405);
    assert_eq!(raw_post.body, "仅支持 GET 和 HEAD\n");
    let patch = check_method(false, "PATCH", "/").unwrap();
    assert_eq!(patch.body, "仅支持 GET、HEAD、POST、PUT 和 DELETE\n");
}

#[test]
fn oversized_and_invalid_headers_are_refused() {
    assert_eq!(check_headers(false, 0, false).unwrap().status, 400);
    assert_eq!(check_headers(true, 16 * 1024 * 1024 + 1, false).unwrap().status, 413);
    assert!(check_headers(true, 16 * 1024 * 1024, false).is_none());
}

#[test]
fn targets_split_into_path_and_query() {
    assert_eq!(
        split_target("/a%20b.md#top?mode=raw"),
        ("/a%20b.md".to_string(), "mode=raw".to_string())
    );
    assert_eq!(split_target("/docs/"), ("/docs/".to_string(), String::new()));
}

#[test]
fn request_paths_resolve_inside_the_tree() {
    let (decoded, relative) = resolve("/docs/my%20notes.md", false).ok().unwrap();
    assert_eq!(decoded, "/docs/my notes.md");
    assert_eq!(relative, vec!["docs".to_string(), "my notes.md".to_string()]);
    assert_eq!(resolve("/%zz", false).err().unwrap().status, 400);
    assert_eq!(resolve("/docs/%2e%2e/%2e%2e/etc", false).err().unwrap().status, 403);
}

#[test]
fn builtin_files_are_served_for_reads() {
    assert!(matches!(builtin_file("GET", "/favicon.svg", false), Some(Builtin::SiteIcon)));
    assert!(builtin_file("GET", "/favicon.svg", true).is_none());
    assert!(matches!(
        builtin_file("HEAD", "/__webdir/drawio-viewer-31.3.1.js", true),
        Some(Builtin::DrawioViewer)
    ));
    assert!(builtin_file("POST", "/__webdir/drawio-viewer-31.3.1.js", true).is_none());
}

#[test]
fn directories_without_a_slash_are_redirected() {
    match route(&facts("GET", "/docs", "view=gallery", "/srv/docs", true)) {
        Route::Redirect { location } => assert_eq!(location, "/docs/?view=gallery"),
        _ => panic!("expected a redirect"),
    }
    assert!(matches!(
        route(&facts("GET", "/docs/", "", "/srv/docs", true)),
        Route::DirectoryPage
    ));
}

#[test]
fn files_are_routed_by_mode_and_extension() {
    assert!(matches!(route(&facts("GET", "/a.md", "", "/srv/a.md", false)), Route::MarkdownPage { .. }));
    match route(&facts("GET", "/a.md", "mode=raw", "/srv/a.md", false)) {
        Route::File { content_type } => assert_eq!(content_type, "text/plain; charset=utf-8"),
        _ => panic!("expected the raw file"),
    }
    match route(&facts("GET", "/p.png", "mode=gallery-thumb&v=1", "/srv/p.png", false)) {
        Route::Thumbnail { max_edge, requested_version } => {
            assert_eq!(max_edge, 512);
            assert_eq!(requested_version.as_deref(), Some("1"));
        }
        _ => panic!("expected a thumbnail"),
    }
    match route(&facts("GET", "/p.png", "", "/srv/p.png", false)) {
        Route::ImagePage { title, kind } => {
            assert_eq!(title, "p.png");
            assert_eq!(kind, "PNG");
        }
        _ => panic!("expected the image page"),
    }
    assert!(matches!(route(&facts("DELETE", "/p.png", "", "/srv/p.png", false)), Route::DeleteImage));
    match route(&facts("DELETE", "/a.md", "", "/srv/a.md", false)) {
        Route::Text(reply) => assert_eq!(reply.body, "仅支持删除图片文件\n"),
        _ => panic!("expected a refusal"),
    }
    match route(&facts("GET", "/a.md", "mode=collab", "/srv/a.md", false)) {
        Route::Text(reply) => assert_eq!(reply.status, 426),
        _ => panic!("expected an upgrade requirement"),
    }
    assert!(matches!(route(&facts("PUT", "/a.md", "mode=raw", "/srv/a.md", false)), Route::SaveMarkdown));
    match route(&facts("GET", "/clip.mp4", "mode=asset", "/srv/clip.mp4", false)) {
        Route::RangedFile { content_type } => assert_eq!(content_type, "video/mp4"),
        _ => panic!("expected a ranged file"),
    }
}

#[test]
fn urls_made_from_paths_resolve_back_to_them() {
    let url = webdir::paths::url_for_path("文档/./my notes/", true);
    let (decoded, relative) = resolve(&url, false).ok().unwrap();
    assert_eq!(decoded, "/文档/my notes/");
    assert_eq!(relative, vec!["文档".to_string(), "my notes".to_string()]);
    let (decoded, relative) = resolve(&webdir::paths::url_for_path("", true), false).ok().unwrap();
    assert_eq!(decoded, "/");
    assert!(relative.is_empty());
}

#[test]
fn head_requests_are_routed_as_get_without_the_body() {
    for (path, query, canonical, is_dir) in [
        ("/notes.md", "mode=raw", "/srv/notes.md", false),
        ("/notes.md", "mode=thumb", "/srv/notes.md", false),
        ("/photo.png", "mode=favourite", "/srv/photo.png", false),
        ("/docs", "", "/srv/docs", true),
    ] {
        let get = route(&facts("GET", path, query, canonical, is_dir));
        let head = route(&facts("HEAD", path, query, canonical, is_dir));
        match (get, head) {
            (Route::Text(g), Route::Text(h)) => {
                assert_eq!((g.status, g.reason, g.body), (h.status, h.reason, h.body));
                assert!(!g.head_only && h.head_only);
            }
            (Route::Text(_), _) | (_, Route::Text(_)) => panic!("{path}?{query}: routes differ"),
            _ => {}
        }
    }
    let get = webdir::respond::text_response(404, "Not Found", "missing\n", false);
    let head = webdir::respond::text_response(404, "Not Found", "missing\n", true);
    assert!(get.starts_with(&head));
    assert!(head.ends_with("\r\n\r\n"));
    assert_eq!(&get[head.len()..], "missing\n");
}
