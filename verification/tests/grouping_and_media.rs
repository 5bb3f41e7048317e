use std::io::Cursor;

use webdir::directory::{listed_entry, listing_order, DirectoryEntry};
use webdir::groups::{group_lists, link_neighbours, Groups, Neighbour};
use webdir::markdown::{render_anchor_mark, render_source_run_mark, Utf16Offsets};
use webdir::routing::{GALLERY_PREVIEW_MAX_EDGE, GALLERY_THUMBNAIL_MAX_EDGE, THUMBNAIL_MAX_EDGE};
use webdir::similarity::{complete_order, destination_name, image_feature_version, sort_by_name};
use webdir::thumbnail::{
    check_thumbnail, image_tag, plan_preview, preview_tag, render_image_thumbnail,
    versioned_headers,
};
use webdir::viewer::{cleanup_failure, failure, is_text_viewable, read_body_text, text_file, Cleanup};

fn strings(values: &[&str]) -> Vec<String> {
    values.iter().map(|value| value.to_string()).collect()
}

fn png(image: image::DynamicImage) -> Vec<u8> {
    let mut bytes = Vec::new();
    image.write_to(&mut Cursor::new(&mut bytes), image::ImageFormat::Png).unwrap();
    bytes
}

fn entry(name: &str, is_dir: bool, favourite: bool) -> DirectoryEntry {
    DirectoryEntry {
        name: name.into(),
        path: format!("/srv/{name}"),
        is_dir,
        size: 1,
        modified: 0,
        image_version: None,
        favourite,
        deletion_marked: false,
        directory_favourite: false,
    }
}

#[test]
fn generates_a_downscaled_thumbnail_for_raster_images() {
    let wide = png(image::DynamicImage::ImageRgb8(image::RgbImage::from_pixel(
        800,
        200,
        image::Rgb([30, 80, 180]),
    )));

    let (bytes, content_type) = render_image_thumbnail(&wide, THUMBNAIL_MAX_EDGE).unwrap();
    assert_eq!(content_type, "image/jpeg");
    let thumb = image::load_from_memory(&bytes).unwrap();
    assert_eq!(thumb.width(), 128);
    assert_eq!(thumb.height(), 32);

    let (bytes, _) = render_image_thumbnail(&wide, GALLERY_THUMBNAIL_MAX_EDGE).unwrap();
    let gallery_thumb = image::load_from_memory(&bytes).unwrap();
    assert_eq!(gallery_thumb.width(), 512);
    assert_eq!(gallery_thumb.height(), 128);

    let (bytes, _) = render_image_thumbnail(&wide, GALLERY_PREVIEW_MAX_EDGE).unwrap();
    let gallery_preview = image::load_from_memory(&bytes).unwrap();
    assert_eq!(gallery_preview.width(), 800);
    assert_eq!(gallery_preview.height(), 200);

    let transparent = png(image::DynamicImage::ImageRgba8(image::RgbaImage::from_pixel(
        64,
        64,
        image::Rgba([12, 24, 48, 80]),
    )));
    let (bytes, content_type) = render_image_thumbnail(&transparent, THUMBNAIL_MAX_EDGE).unwrap();
    assert_eq!(content_type, "image/png");
    assert!(image::load_from_memory(&bytes).unwrap().color().has_alpha());
}

#[test]
fn undecodable_images_give_an_error() {
    assert!(render_image_thumbnail(b"not an image", THUMBNAIL_MAX_EDGE).is_err());
}

#[test]
fn previews_never_grow_and_pick_their_format() {
    let plan = plan_preview(800, 200, false, 2560);
    assert_eq!((plan.edge, plan.png, plan.quality), (800, false, 86));
    let plan = plan_preview(800, 200, true, 128);
    assert_eq!((plan.edge, plan.png, plan.quality), (128, true, 82));
}

#[test]
fn thumbnails_are_refused_for_other_files_and_huge_images() {
    assert_eq!(check_thumbnail("logo.svg", 10, false).unwrap().status, 415);
    assert_eq!(check_thumbnail("photo.png", 0, false).unwrap().status, 413);
    assert!(check_thumbnail("photo.png", 10, false).is_none());
}

#[test]
fn versioned_images_use_immutable_caching_only_for_the_current_version() {
    assert_eq!(preview_tag("abc", 128), "\"abc-128\"");
    assert_eq!(image_tag("abc"), "\"abc\"");
    let (head, body) = versioned_headers(3, "image/png", "\"abc\"", "abc", true, Some("abc"), "");
    assert!(head.contains("Cache-Control: private, max-age=31536000, immutable\r\n"));
    assert!(body);
    let (head, _) = versioned_headers(3, "image/png", "\"abc\"", "abc", true, Some("old"), "");
    assert!(head.contains("Cache-Control: no-cache\r\n"));
    let (head, _) = versioned_headers(3, "image/png", "\"abc\"", "abc", false, Some("abc"), "");
    assert!(head.contains("Cache-Control: no-store\r\n"));
    assert!(!head.contains("ETag"));
    let (head, body) = versioned_headers(3, "image/png", "\"abc\"", "abc", true, None, "\"abc\"");
    assert!(head.starts_with("HTTP/1.1 304"));
    assert!(!body);
}

#[test]
fn joined_images_share_a_group() {
    let mut groups = Groups::new(4);
    groups.join(0, 2);
    groups.join(3, 2);
    assert_eq!(groups.root(0), groups.root(3));
    assert_ne!(groups.root(0), groups.root(1));
    assert_eq!(group_lists(&mut groups), vec![vec![0, 2, 3], vec![1]]);
}

#[test]
fn neighbours_link_when_close_or_mutually_near() {
    let nearest = vec![
        vec![Neighbour { index: 1, close: false, near: true }],
        vec![Neighbour { index: 0, close: false, near: true }],
        vec![Neighbour { index: 0, close: false, near: true }],
        vec![Neighbour { index: 2, close: true, near: false }],
    ];
    let mut groups = link_neighbours(&nearest);
    assert_eq!(group_lists(&mut groups), vec![vec![0, 1], vec![2, 3]]);
}

#[test]
fn images_sort_by_name_and_missing_ones_follow_the_likeness_order() {
    let images = vec![
        ("b.png".to_string(), "2".to_string()),
        ("a.png".to_string(), "1".to_string()),
    ];
    assert_eq!(
        sort_by_name(&images),
        vec![("a.png".to_string(), "1".to_string()), ("b.png".to_string(), "2".to_string())]
    );
    assert_eq!(
        complete_order(strings(&["c.png", "a.png"]), &strings(&["a.png", "b.png", "c.png"])),
        strings(&["c.png", "a.png", "b.png"])
    );
}

#[test]
fn moved_images_get_numbered_names() {
    assert_eq!(destination_name("cat.svg", 2), "cat_2.svg");
    assert_eq!(destination_name("archive.tar.gz", 3), "archive.tar_3.gz");
    assert_eq!(destination_name("README", 2), "README_2");
    assert_eq!(destination_name(".hidden", 2), ".hidden_2");
}

#[test]
fn listing_skips_sidecars_and_the_comments_file() {
    assert!(!listed_entry("/srv/notes.md.review.json"));
    assert!(!listed_entry("/srv/.gallery-comments.json"));
    assert!(!listed_entry("/srv/gallery-comments.json"));
    assert!(listed_entry("/srv/gallery-comments.json.bak"));
    assert!(listed_entry("/srv/notes.md"));
    assert!(!listed_entry(&webdir::paths::sidecar_path("/srv/Design.MD")));
    assert!(!listed_entry(&webdir::paths::comments_path("/srv/photo.png")));
    assert!(listed_entry("/srv/notes.txt.review.json"));
}

#[test]
fn listings_put_favourites_then_directories_then_names() {
    let entries = vec![
        entry("b.txt", false, false),
        entry("Z", true, false),
        entry("a.png", false, true),
        entry("A.txt", false, false),
    ];
    assert_eq!(listing_order(&entries), vec![2, 1, 3, 0]);
}

#[test]
fn markdown_offsets_count_utf16_units() {
    let offsets = Utf16Offsets::new("你好\n\n## title");
    assert_eq!(offsets.offset(0), 0);
    assert_eq!(offsets.offset(8), 4);
    let emoji = Utf16Offsets::new("# 😀你好\n");
    assert_eq!(emoji.offset(2), 2);
    assert_eq!(emoji.span(2, 12), 4);
    assert_eq!(
        render_anchor_mark(4),
        "<span class=\"sync-anchor\" data-source-offset=\"4\" aria-hidden=\"true\"></span>"
    );
    assert_eq!(
        render_source_run_mark(2, 6),
        "<span class=\"source-run\" data-source-start=\"2\" data-source-end=\"6\">"
    );
}

#[test]
fn text_files_are_shown_when_small_and_not_binary() {
    assert!(is_text_viewable("config.toml", 10));
    assert!(!is_text_viewable("archive.zip", 10));
    assert!(!is_text_viewable("big.txt", 4 * 1024 * 1024 + 1));
    let file = text_file("dir/config.toml", "\u{feff}port = 1\n".as_bytes().to_vec()).unwrap();
    assert_eq!(file.title, "config.toml");
    assert_eq!(file.kind, "TOML");
    assert_eq!(file.content, "port = 1\n");
    assert!(text_file("a.txt", b"a\0b".to_vec()).is_none());
}

#[test]
fn request_bodies_must_be_complete_utf8() {
    assert_eq!(read_body_text(Some("# 标题".as_bytes().to_vec())), Ok("# 标题".to_string()));
    assert_eq!(read_body_text(None), Err("请求内容不完整\n".to_string()));
    assert_eq!(
        read_body_text(Some(vec![0xff])),
        Err("Markdown 必须是 UTF-8 文本\n".to_string())
    );
    assert_eq!(failure("a.png", "失败"), "a.png：失败");
    assert_eq!(
        cleanup_failure("a.png", Cleanup::Comments, "busy"),
        "a.png 已删除，但清理评论失败：busy"
    );
    assert_eq!(
        cleanup_failure("b.jpg", Cleanup::Cache, "locked"),
        "b.jpg 已删除，但清理缓存失败：locked"
    );
}

#[test]
fn keys_image_features_by_format_and_file_version() {
    assert_eq!(image_feature_version("12-34"), "2:12-34");
    assert_eq!(image_feature_version(""), "2:");
}
