use webdir::paths::{
    comments_path, is_comments_file, is_review_sidecar, safe_relative_path, sidecar_path,
    url_for_path,
};
use webdir::url::{cookie_value, percent_decode, percent_encode_component, query_parameter};

#[test]
fn rejects_path_traversal() {
    assert!(safe_relative_path("../secret").is_none());
    assert!(safe_relative_path("assets/app.js").is_some());
}

#[test]
fn decodes_url_paths() {
    assert_eq!(
        percent_decode("/hello%20world.txt").as_deref(),
        Some("/hello world.txt")
    );
    assert!(percent_decode("/%zz").is_none());
}

#[test]
fn encodes_directory_links() {
    assert_eq!(
        url_for_path("文档/my notes", true),
        "/%E6%96%87%E6%A1%A3/my%20notes/"
    );
    assert_eq!(
        url_for_path("文档/read me.md", false),
        "/%E6%96%87%E6%A1%A3/read%20me.md"
    );
}

#[test]
fn reads_mode_from_query_string() {
    assert_eq!(
        query_parameter("download=1&mode=raw", "mode").as_deref(),
        Some("raw")
    );
    assert_eq!(
        query_parameter("mode=pre%76iew", "mode").as_deref(),
        Some("preview")
    );
    assert_eq!(query_parameter("model=raw", "mode"), None);
}

#[test]
fn uses_an_adjacent_review_sidecar() {
    assert_eq!(sidecar_path("docs/design.md"), "docs/design.md.review.json");
    assert!(is_review_sidecar("DESIGN.MD.REVIEW.JSON"));
    assert!(!is_review_sidecar("review.json"));
}

#[test]
fn safe_relative_path_keeps_normal_components_only() {
    assert_eq!(
        safe_relative_path("docs/./project//note.md"),
        Some(vec!["docs".to_string(), "project".to_string(), "note.md".to_string()])
    );
    assert_eq!(safe_relative_path(""), Some(Vec::new()));
    assert!(safe_relative_path("docs/../secret").is_none());
}

#[test]
fn percent_encoding_round_trips_unicode_names() {
    let encoded = percent_encode_component("猫 photo&.png");
    assert_eq!(encoded, "%E7%8C%AB%20photo%26.png");
    assert_eq!(percent_decode(&encoded).as_deref(), Some("猫 photo&.png"));
}

#[test]
fn percent_decoding_rejects_invalid_utf8_and_short_escapes() {
    assert!(percent_decode("%ff").is_none());
    assert!(percent_decode("abc%4").is_none());
    assert_eq!(percent_decode("a+b").as_deref(), Some("a+b"));
}

#[test]
fn reads_named_cookies() {
    assert_eq!(
        cookie_value("webdir_auth_token=secret; webdir_share=abc", "webdir_share").as_deref(),
        Some("abc")
    );
    assert_eq!(cookie_value("other=1", "webdir_share"), None);
}

#[test]
fn gallery_comments_live_beside_the_images() {
    assert_eq!(comments_path("photos/cat.jpg"), "photos/.gallery-comments.json");
    assert!(is_comments_file("photos/.gallery-comments.json"));
    assert!(!is_comments_file("photos/cat.jpg"));
}

#[test]
fn json_strings_are_escaped_as_serde_json_writes_them() {
    let mut samples: Vec<String> = vec![
        String::new(),
        "plain".into(),
        "quote \" and backslash \\".into(),
        "/a\"b".into(),
        "中文 😀".into(),
        "\u{7f}\u{80}\u{2028}".into(),
    ];
    for code in 0u32..0x40 {
        samples.push(format!("a{}b", char::from_u32(code).unwrap()));
    }
    for sample in samples {
        assert_eq!(
            webdir::markup::escape_json_string(&sample),
            serde_json::to_string(&sample).unwrap(),
            "{sample:?}"
        );
    }
}

#[test]
fn html_escaping_replaces_the_five_special_characters() {
    assert_eq!(
        webdir::markup::escape_html("<a href='x'>\"&\"</a>"),
        "&lt;a href=&#39;x&#39;&gt;&quot;&amp;&quot;&lt;/a&gt;"
    );
}
