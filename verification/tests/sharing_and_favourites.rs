use std::collections::BTreeMap;

use webdir::digest::{file_version, hex_digest, listing_version, FileStamp};
use webdir::favourites::{
    favourites_within, read_favourite_label, read_favourite_order, reorder_favourites,
    starts_with_path,
};
use webdir::sharing::{
    render_denied_page, render_shared_not_found, render_sharing_page, sign, verify_token,
    within_scope,
};

fn strings(values: &[&str]) -> Vec<String> {
    values.iter().map(|value| value.to_string()).collect()
}

#[test]
fn signed_claims_support_unicode_and_reject_changed_scope_or_algorithm() {
    let token = sign("中文 %", "secret").unwrap();
    assert_eq!(verify_token(&token, "secret"), Some(strings(&["中文 %"])));
    let root_token = sign("", "secret").unwrap();
    assert_eq!(verify_token(&root_token, "secret"), Some(Vec::new()));

    let mut parts: Vec<&str> = token.split('.').collect();
    parts[1] = root_token.split('.').nth(1).unwrap();
    assert!(verify_token(&parts.join("."), "secret").is_none());

    let claims = BTreeMap::from([("scope", "/")]);
    let other = jsonwebtoken::encode(
        &jsonwebtoken::Header::new(jsonwebtoken::Algorithm::HS384),
        &claims,
        &jsonwebtoken::EncodingKey::from_secret(b"secret"),
    )
    .unwrap();
    assert!(verify_token(&other, "secret").is_none());
}

#[test]
fn share_tokens_need_the_signing_secret() {
    let token = sign("docs/project", "secret").unwrap();
    assert_eq!(verify_token(&token, "secret"), Some(strings(&["docs", "project"])));
    assert!(verify_token(&token, "wrong-secret").is_none());
    assert!(verify_token("invalid", "secret").is_none());
}

#[test]
fn share_scope_is_checked_component_by_component() {
    let scope = strings(&["docs", "project"]);
    assert!(within_scope(&strings(&["docs", "project", "note.md"]), &scope));
    assert!(within_scope(&strings(&["docs", "project"]), &scope));
    assert!(!within_scope(&strings(&["docs", "project2", "private.md"]), &scope));
    assert!(!within_scope(&strings(&["docs"]), &scope));
    assert!(within_scope(&strings(&["anything"]), &Vec::new()));
}

#[test]
fn denied_page_returns_to_the_shared_directory() {
    let page = render_denied_page(
        "<a href=\"{{share_url}}\">超出分享范围</a> {{share_url}}",
        "/docs/project/?share=a&b",
    );
    assert_eq!(
        page,
        "<a href=\"/docs/project/?share=a&amp;b\">超出分享范围</a> /docs/project/?share=a&amp;b"
    );
}

#[test]
fn shared_not_found_page_leads_to_the_share() {
    let page = render_shared_not_found("/docs/x", &strings(&["docs", "project"]));
    assert!(page.contains("href=\"/docs/project/\">浏览分享目录"));
    assert!(!page.contains("浏览根目录"));
}

#[test]
fn sharing_script_is_added_before_the_end_of_the_body() {
    let page = render_sharing_page("<body>x</body></body>".to_string(), true, "share()");
    assert_eq!(page, "<body>x<script>share()</script></body></body>");
    let unchanged = render_sharing_page("<body>x</body>".to_string(), false, "share()");
    assert_eq!(unchanged, "<body>x</body>");
}

#[test]
fn directory_favourites_can_be_reordered_and_are_limited_to_the_serving_root() {
    let favourites = strings(&["/w/photos", "/w/other", "/w/photos/nested"]);
    assert_eq!(
        favourites_within(&favourites, "/w/photos"),
        strings(&["/w/photos", "/w/photos/nested"])
    );
    let reordered = reorder_favourites(&favourites, &strings(&["/w/photos/nested", "/w/photos"]));
    assert_eq!(reordered, strings(&["/w/photos/nested", "/w/other", "/w/photos"]));
    assert_eq!(
        favourites_within(&reordered, "/w/photos"),
        strings(&["/w/photos/nested", "/w/photos"])
    );
}

#[test]
fn paths_start_with_whole_components() {
    assert!(starts_with_path("/w/photos/nested", "/w/photos"));
    assert!(starts_with_path("/w/photos", "/w/photos/"));
    assert!(!starts_with_path("/w/photos2", "/w/photos"));
}

#[test]
fn favourite_requests_read_json_bodies() {
    assert_eq!(read_favourite_label("\"常用图片\"").ok(), Some("常用图片".to_string()));
    let refused = read_favourite_label("{}").err().unwrap();
    assert_eq!(refused.status, 400);
    assert_eq!(refused.body, "无效的收藏名称\n");

    assert_eq!(
        read_favourite_order("[\"/docs/%E7%8C%AB/\", \"/\"]", "/srv").ok(),
        Some(strings(&["/srv/docs/猫", "/srv"]))
    );
    assert_eq!(
        read_favourite_order("[\"/docs/../..\"]", "/srv").err().unwrap().body,
        "无效的收藏夹路径\n"
    );
    assert_eq!(
        read_favourite_order("not json", "/srv").err().unwrap().body,
        "无效的收藏夹顺序\n"
    );
}

#[test]
fn versions_are_hexadecimal_digests() {
    assert_eq!(hex_digest(&[0x00, 0x0f, 0xab]), "000fab");
    let stamp = FileStamp { len: 10, modified: Some((1, 2)), dev: 3, ino: 4, ctime: 5, ctime_nsec: 6 };
    let version = file_version(&stamp);
    assert_eq!(version.len(), 40);
    assert!(version.chars().all(|c| c.is_ascii_hexdigit() && !c.is_ascii_uppercase()));
    let changed = FileStamp { len: 11, ..stamp };
    assert_ne!(file_version(&changed), version);
    assert_eq!(file_version(&FileStamp { len: 10, modified: Some((1, 2)), dev: 3, ino: 4, ctime: 5, ctime_nsec: 6 }), version);
}

#[test]
fn listing_versions_follow_the_image_set() {
    let one = listing_version(&vec![("a.png".to_string(), "v1".to_string())]);
    let two = listing_version(&vec![("a.png".to_string(), "v2".to_string())]);
    assert_eq!(one.len(), 40);
    assert_ne!(one, two);
}
