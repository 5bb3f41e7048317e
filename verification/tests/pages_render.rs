use webdir::kinds::{file_kind, mime_type};
use webdir::pages::{
    render_auth_page, render_breadcrumbs, render_drawio_page, render_image_page,
    render_invalid_access_page, render_not_found_page, render_site_icon, render_svg_page,
    render_text_page, render_video_page,
};
use webdir::syntax::highlighted_source_lines;

#[test]
fn generates_a_site_icon_from_the_root_directory_name() {
    let icon = render_site_icon("/srv/webdir");
    let escaped = render_site_icon("/srv/<project>");

    assert!(icon.starts_with("<svg"));
    assert!(icon.contains("viewBox=\"0 0 64 64\""));
    assert!(icon.contains(">W</text>"));
    assert!(escaped.contains(">&lt;</text>"));
    assert!(!escaped.contains("><</text>"));
}

#[test]
fn renders_a_styled_and_safe_not_found_page() {
    let page = render_not_found_page("/missing/<script>.txt");

    assert!(page.starts_with("<!doctype html>"));
    assert!(page.contains("HTTP 404"));
    assert!(page.contains("这个文件<br>不在这里"));
    assert!(page.contains("/missing/&lt;script&gt;.txt"));
    assert!(!page.contains("<script>.txt"));
    assert!(page.contains("href=\"/\""));
    assert!(page.contains("overflow-wrap:anywhere; white-space:pre-wrap"));
    assert!(!page.contains("text-overflow:ellipsis"));
    assert!(page.contains("@media (prefers-reduced-motion:reduce)"));
}

#[test]
fn renders_a_read_only_text_viewer() {
    let page = render_text_page(
        "name = \"http\"\nport = 8080",
        "config.toml",
        "TOML",
        "config.toml",
    );

    assert!(page.starts_with("<!doctype html>"));
    assert!(page.contains("class=\"line\">name = &quot;http&quot;"));
    assert!(page.contains("2 行"));
    assert!(page.contains("?mode=raw"));
    assert!(!page.contains("id=\"edit-button\""));
    assert!(page.contains("font:500 .84rem/1.3"));
    assert!(page.contains("body.wrap .line { position:relative; padding-left:5.4rem;"));
    assert!(page.contains("body.wrap .line::before { position:absolute;"));
    assert!(page.contains("</span><span class=\"line\">"));
    assert!(!page.contains("</span>\n<span class=\"line\">"));
}

#[test]
fn renders_svg_in_an_isolated_image_preview() {
    let page = render_svg_page("icon<&>.svg", 1536);

    assert!(page.starts_with("<!doctype html>"));
    assert!(page.contains("src=\"?mode=asset\""));
    assert!(page.contains("href=\"?mode=raw\""));
    assert!(page.contains("id=\"history-back\" type=\"button\" aria-label=\"返回上一页\""));
    assert!(page.contains("class=\"canvas\""));
    assert!(page.contains("icon&lt;&amp;&gt;.svg"));
    assert!(!page.contains("icon<&>.svg"));
}

#[test]
fn renders_raster_images_with_a_history_back_button() {
    let page = render_image_page("photo<&>.png", "PNG", 2048);

    assert!(page.starts_with("<!doctype html>"));
    assert!(page.contains("id=\"history-back\" type=\"button\" aria-label=\"返回上一页\""));
    assert!(page.contains("src=\"?mode=asset\""));
    assert!(page.contains(">PNG</span>"));
    assert!(page.contains("photo&lt;&amp;&gt;.png"));
    assert!(!page.contains("photo<&>.png"));
}

#[test]
fn renders_mp4_with_native_video_controls() {
    let page = render_video_page("clip<&>.mp4", 4096);

    assert!(page.starts_with("<!doctype html>"));
    assert!(page.contains("<video controls playsinline preload=\"metadata\""));
    assert!(page.contains("src=\"?mode=asset\""));
    assert!(page.contains("href=\"?mode=asset\" download"));
    assert!(page.contains("clip&lt;&amp;&gt;.mp4"));
    assert_eq!(mime_type("clip.mp4"), "video/mp4");
    assert_eq!(file_kind("clip.mp4"), "VIDEO");
}

#[test]
fn renders_drawio_with_the_bundled_offline_viewer() {
    let diagram = r#"<mxGraphModel><root><mxCell id="0" value="</div><script>alert(1)</script>"/></root></mxGraphModel>"#;
    let page = render_drawio_page(diagram, "system<&>.drawio", 2048);

    assert!(page.starts_with("<!doctype html>"));
    assert!(page.contains("class=\"mxgraph\""));
    assert!(page.contains("/__webdir/drawio-viewer-31.3.1.js"));
    assert!(page.contains("connect-src 'none'"));
    assert!(page.contains("toolbar&quot;:&quot;zoom layers lightbox"));
    assert!(page.contains("system&lt;&amp;&gt;.drawio"));
    assert!(!page.contains("<script>alert(1)</script>"));
    assert!(!page.contains("https://viewer.diagrams.net"));
    assert_eq!(mime_type("system.drawio"), "application/vnd.jgraph.mxfile");
    assert_eq!(file_kind("system.drawio"), "DRAWIO");
}

#[test]
fn highlights_common_programming_languages() {
    let samples = [
        ("main.rs", "fn main() { println!(\"hello\"); }\n"),
        ("schema.sql", "SELECT id FROM users WHERE active = true;\n"),
        ("data.json", "{\"name\": \"http\", \"port\": 8080}\n"),
        ("events.jsonl", "{\"event\": \"started\"}\n"),
        ("main.go", "package main\nfunc main() {}\n"),
        ("app.js", "const answer = () => 42;\n"),
        ("app.ts", "const answer: number = 42;\n"),
        ("run.sh", "#!/bin/bash\necho hello\n"),
        ("core.lisp", "(defun square (x) (* x x))\n"),
        ("app.py", "def hello(name: str):\n    return f'Hi {name}'\n"),
        ("App.java", "class App { public static void main(String[] a) {} }\n"),
        ("main.c", "int main(void) { return 0; }\n"),
        ("main.cpp", "#include <iostream>\nint main() { return 0; }\n"),
    ];

    for (path, source) in samples {
        let highlighted = highlighted_source_lines(source, path);
        assert!(highlighted.is_some(), "expected highlighting for {path}");
        assert!(highlighted.unwrap().contains("style=\""), "{path}");
    }
}

#[test]
fn plain_text_is_not_highlighted_and_keeps_one_span_per_line() {
    assert!(highlighted_source_lines("just words\n", "notes.txt").is_none());
    let page = render_text_page("a<b\nc", "notes.txt", "TXT", "notes.txt");
    assert!(page.contains("<span class=\"line\">a&lt;b</span><span class=\"line\">c</span>"));
    assert!(page.contains("2 行 · 5 B"));
}

#[test]
fn authentication_pages_escape_their_target() {
    let page = render_auth_page("/a\"b");
    assert!(page.starts_with("<!doctype html>"));
    assert!(page.contains("需要访问令牌"));
    assert!(page.contains(r#"target="/a\"b""#));
    let invalid = render_invalid_access_page();
    assert!(invalid.contains("访问未获授权"));
}

#[test]
fn breadcrumbs_link_every_parent_directory() {
    let crumbs = render_breadcrumbs("docs/my notes");
    assert!(crumbs.contains("href=\"/docs/\""));
    assert!(crumbs.contains("href=\"/docs/my%20notes/\""));
}
