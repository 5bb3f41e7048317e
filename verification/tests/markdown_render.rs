use webdir::markdown::{
    event_marks, pieces_of_article, render_markdown_article, ArticlePiece, MarkdownEvent, Utf16Offsets,
};
use webdir::pages::render_markdown_page;
use webdir::scripts::markdown_script;

fn render_markdown_page_of(markdown: &str, title: &str) -> String {
    let article = render_markdown_article(markdown).unwrap();
    render_markdown_page(markdown, title, &article, &markdown_script(), "")
}

#[test]
fn renders_markdown_as_a_styled_html_document() {
    let page = render_markdown_page_of(
        "# Hello\n\n- [x] done\n\n| A | B |\n|---|---|\n| 1 | 2 |",
        "README.md",
    );

    assert!(page.starts_with("<!doctype html>"));
    assert!(page.contains("<body class=\"review-closed\">"));
    assert!(page.contains("id=\"review-toggle\" type=\"button\" aria-expanded=\"false\""));
    assert!(page.contains("<h1>"));
    assert!(page.contains(">Hello</span></h1>"));
    assert!(page.contains("<table>"));
    assert!(page.contains("type=\"checkbox\""));
    assert!(page.contains("README.md"));
    assert!(page.contains("id=\"edit-button\""));
    assert!(page.contains("id=\"review-panel\""));
    assert!(page.contains("id=\"identity-dialog\""));
    assert!(page.contains("?mode=review-collab"));
    assert!(page.contains("?mode=review-action"));
    assert!(page.contains("commentList.addEventListener('dblclick'"));
    assert!(page.contains("data-comment-action=\"edit-comment\">编辑全文评论"));
    assert!(page.contains("documentScope ? '删除全文评论' : '删除整条评论'"));
    assert!(page.contains("if (action === 'edit-comment')"));
    assert!(page.contains("function scrollToCommentSource(commentId)"));
    assert!(page.contains("article.addEventListener('touchend'"));
    assert!(page.contains("document.addEventListener('selectionchange'"));
    assert!(page.contains("selectionComment.addEventListener('touchend'"));
    assert!(page.contains("function activateSelectionComment()"));
    assert!(page.contains("touchReviewDevice.matches"));
    assert!(page.contains("function closeReviewPanel()"));
    assert!(page.contains(".selection-comment { top:auto !important; bottom:max(1rem"));
    assert!(page.contains("return item.resolved.start;"));
    assert!(page.contains("function requireReviewIdentity(action)"));
    assert!(page.contains("id=\"source\""));
    assert!(page.contains("[hidden] { display:none !important; }"));
    assert!(page.contains(".editor-shell { display:flex; flex-direction:column;"));
    assert!(page.contains("#toc a { display:block; width:max-content; min-width:100%;"));
    assert!(
        page.find("class=\"pane preview-pane\"").unwrap()
            < page.find("class=\"pane source-pane\"").unwrap()
    );
    assert!(page.contains(".preview-pane { border-right:1px solid var(--line); }"));
    assert!(page.contains("source.addEventListener('scroll', syncPreviewFromSource"));
    assert!(page.contains("addEventListener('scroll', syncSourceFromPreview"));
    assert!(page.contains("/__webdir/yjs-13.6.32.min.js"));
    assert!(page.contains("id=\"connection-dot\""));
    assert!(page.contains("id=\"presence\""));
    assert!(page.contains("退出编辑"));
    assert!(page.contains("立即保存"));
    assert!(page.contains("new WebSocket("));
    assert!(page.contains("async function openEditor()"));
    assert!(page.contains("await updatePreview();\n  connect();"));
    assert!(page.contains("Y.encodeStateVector(documentState)"));
    assert!(page.contains("source.addEventListener('input', syncTextareaChange)"));
    assert!(page.contains("new DOMParser().parseFromString(markup, 'text/html')"));
    assert!(page.contains("currentArticle.replaceChildren("));
    assert!(page.contains("if (revision !== previewRevision) return;"));
    assert!(!page.contains("preview.srcdoc = await response.text()"));
    assert!(!page.contains("<dialog id=\"discard-dialog\""));
    assert!(page.contains("href=\"/favicon.svg\""));
}

#[test]
fn escapes_embedded_html_in_markdown() {
    let page = render_markdown_page_of("<script>alert('x')</script>", "unsafe.md");

    assert!(!page.contains("<script>alert('x')</script>"));
    assert!(page.contains("&lt;script&gt;"));
}

#[test]
fn adds_utf16_source_anchors_to_markdown_blocks() {
    let article = render_markdown_article("你好\n\n## title").unwrap();

    assert!(article.contains("data-source-offset=\"0\""));
    assert!(article.contains("data-source-offset=\"4\""));
    assert!(article.contains("<h2>"));
    assert!(article.contains(">title</span></h2>"));
    assert!(article.contains("class=\"source-run\" data-source-start=\"0\""));
}

#[test]
fn maps_rendered_markdown_text_to_utf16_source_ranges() {
    let article = render_markdown_article("# 😀你好\n\n**bold** and [link](target)").unwrap();

    assert!(article.contains("data-source-start=\"2\" data-source-end=\"6\">😀你好"));
    assert!(article.contains("data-source-start=\"10\" data-source-end=\"14\">bold"));
    assert!(article.contains("data-source-start=\"22\" data-source-end=\"26\">link"));
}

#[test]
fn renders_the_whole_article_with_marks_around_each_event() {
    assert_eq!(
        render_markdown_article("a😀b").unwrap(),
        "<span class=\"sync-anchor\" data-source-offset=\"0\" aria-hidden=\"true\"></span>\n<p>\
         <span class=\"source-run\" data-source-start=\"0\" data-source-end=\"4\">a😀b</span></p>\n"
    );
    assert_eq!(render_markdown_article("").unwrap(), "");
    assert_eq!(
        render_markdown_article("---").unwrap(),
        "<span class=\"sync-anchor\" data-source-offset=\"0\" aria-hidden=\"true\"></span>\n<hr />\n"
    );
}

#[test]
fn shows_inline_html_as_escaped_text_in_a_source_run() {
    let article = render_markdown_article("x <b>y</b>").unwrap();

    assert!(!article.contains("<b>"));
    assert!(article.contains(
        "<span class=\"source-run\" data-source-start=\"2\" data-source-end=\"5\">&lt;b&gt;</span>"
    ));
}

#[test]
fn marks_each_event_by_its_kind() {
    let source = "😀a";
    let offsets = Utf16Offsets::new(source);
    let events = vec![
        (MarkdownEvent::ParagraphStart, 0, 5),
        (MarkdownEvent::Text, 4, 5),
        (MarkdownEvent::Html("<b>".to_string()), 0, 4),
        (MarkdownEvent::Other, 0, 5),
    ];
    let pieces = pieces_of_article(&offsets, &events);
    let anchor = "<span class=\"sync-anchor\" data-source-offset=\"0\" aria-hidden=\"true\"></span>";
    let html = |s: &str| ArticlePiece::Html(s.to_string());

    assert_eq!(
        pieces,
        vec![
            html(anchor),
            ArticlePiece::Event(0),
            html(""),
            html("<span class=\"source-run\" data-source-start=\"2\" data-source-end=\"3\">"),
            ArticlePiece::Event(1),
            html("</span>"),
            html(&format!("{anchor}<span class=\"source-run\" data-source-start=\"0\" data-source-end=\"2\">")),
            ArticlePiece::Text("<b>".to_string()),
            html("</span>"),
            html(""),
            ArticlePiece::Event(3),
            html(""),
        ]
    );
    assert_eq!(
        event_marks(&offsets, &MarkdownEvent::Code, 4, 5),
        (
            "<span class=\"source-run\" data-source-start=\"2\" data-source-end=\"3\">".to_string(),
            "</span>".to_string()
        )
    );
}

#[test]
fn script_tags_in_markdown_come_out_as_text() {
    for source in [
        "<SCRIPT>alert(1)</SCRIPT>",
        "text <script>alert(1)</script> more",
        "> <ScRiPt src=x></script>",
        "- item <script>x</script>\n\n<div>\n<script>y</script>\n</div>",
        "[a](<script>) ![<script>](x \"<script>\") `<script>`",
    ] {
        let article = render_markdown_article(source).unwrap();
        assert!(!article.to_ascii_lowercase().contains("<script"), "{source}: {article}");
    }
}

#[test]
fn tells_which_byte_offsets_lie_between_characters() {
    let offsets = Utf16Offsets::new("a😀");

    assert!(offsets.is_boundary_at(0));
    assert!(offsets.is_boundary_at(1));
    assert!(!offsets.is_boundary_at(2));
    assert!(!offsets.is_boundary_at(4));
    assert!(offsets.is_boundary_at(5));
    assert!(!offsets.is_boundary_at(6));
}
