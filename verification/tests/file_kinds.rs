use webdir::kinds::{
    file_kind, gallery_preview_url, has_binary_extension, has_binary_magic, is_image_file,
    looks_like_utf8_text, mime_type, should_use_gallery, text_kind, thumbnail_url,
    MAX_THUMBNAIL_SOURCE,
};

#[test]
fn conservatively_detects_utf8_text() {
    assert!(looks_like_utf8_text(b"[server]\nport = 8080\n"));
    assert!(looks_like_utf8_text("标题: 配置\n".as_bytes()));
    assert!(!looks_like_utf8_text(b"text\0binary"));
    assert!(!looks_like_utf8_text(&[0xff, 0xfe, 0x00, 0x41]));
    assert!(has_binary_magic(b"%PDF-1.7 printable header"));
    assert!(has_binary_magic(b"PK\x03\x04archive"));
}

#[test]
fn recognizes_text_names_and_binary_extensions() {
    assert_eq!(text_kind("Dockerfile"), "DOCKERFILE");
    assert_eq!(text_kind(".bashrc"), "SHELL");
    assert_eq!(text_kind("app.yaml"), "YAML");
    assert_eq!(text_kind("service.conf"), "CONFIG");
    assert!(has_binary_extension("archive.zip"));
    assert!(has_binary_extension("unknown.bin"));
    assert!(!has_binary_extension("Cargo.toml"));
}

#[test]
fn gallery_is_available_when_directory_contains_any_image() {
    assert!(should_use_gallery(3, 5));
    assert!(should_use_gallery(4, 5));
    assert!(should_use_gallery(1, 5));
    assert!(!should_use_gallery(0, 5));
    assert!(!should_use_gallery(0, 0));
}

#[test]
fn thumbnail_url_skips_non_images_and_huge_files() {
    assert_eq!(
        thumbnail_url("/photo.png", "photo.png", 1024, false, Some("v1")).as_deref(),
        Some("/photo.png?mode=thumb&amp;v=v1")
    );
    assert_eq!(
        thumbnail_url("/photo.png", "photo.png", 1024, true, Some("v1")).as_deref(),
        Some("/photo.png?mode=gallery-thumb&amp;v=v1")
    );
    assert_eq!(
        thumbnail_url("/logo.svg", "logo.svg", 2048, true, Some("v1")).as_deref(),
        Some("/logo.svg?mode=asset&amp;v=v1")
    );
    assert_eq!(
        thumbnail_url("/notes.md", "notes.md", 128, false, Some("v1")),
        None
    );
    assert_eq!(
        thumbnail_url("/photo.png", "photo.png", MAX_THUMBNAIL_SOURCE + 1, true, Some("v1")),
        None
    );
}

#[test]
fn gallery_preview_url_uses_screen_derivative_and_keeps_special_images_original() {
    assert_eq!(
        gallery_preview_url("/photo.jpg", "photo.jpg", 1024, Some("v1")).as_deref(),
        Some("/photo.jpg?mode=gallery-preview&amp;v=v1")
    );
    assert_eq!(
        gallery_preview_url("/movie.gif", "movie.gif", 1024, Some("v1")),
        None
    );
    assert_eq!(
        gallery_preview_url("/logo.svg", "logo.svg", 1024, Some("v1")),
        None
    );
}

#[test]
fn thumbnail_url_needs_a_version_and_a_non_empty_file() {
    assert_eq!(thumbnail_url("/photo.png", "photo.png", 1024, false, None), None);
    assert_eq!(thumbnail_url("/photo.png", "photo.png", 0, false, Some("v1")), None);
}

#[test]
fn file_kinds_and_media_types_follow_the_extension() {
    assert_eq!(mime_type("clip.MP4"), "video/mp4");
    assert_eq!(mime_type("notes.md"), "text/markdown; charset=utf-8");
    assert_eq!(mime_type("unknown.xyz"), "application/octet-stream");
    assert_eq!(file_kind("photo.JPG"), "IMAGE");
    assert_eq!(file_kind("clip.mp4"), "VIDEO");
    assert_eq!(file_kind("system.drawio"), "DRAWIO");
    assert!(is_image_file("logo.svg"));
    assert!(!is_image_file("notes.md"));
}
