use webdir::directory::{
    listed_entry, render_directory_favourites, render_directory_page, DirectoryEntry, FavouriteDirectory,
};
use webdir::markdown::render_markdown_article;
use webdir::pages::render_markdown_page;
use webdir::scripts::{directory_css, directory_script, markdown_script};

/// The listing page of the served root holding the files `files` (name and size),
/// with nothing marked as a favourite, as the server lists it: sidecar and comment
/// files left out.
fn render_listing(files: &[(&str, u64)]) -> String {
    render_listing_with(files, &[])
}

/// The listing page of the served root holding the files `files` and the directories
/// `directories`.
fn render_listing_with(files: &[(&str, u64)], directories: &[&str]) -> String {
    let mut entries = Vec::new();
    for name in directories {
        entries.push(DirectoryEntry {
            name: name.to_string(),
            path: format!("/srv/site/{name}"),
            is_dir: true,
            size: 4096,
            modified: 1_700_000_000_000,
            image_version: Some("3-4".to_string()),
            favourite: false,
            deletion_marked: false,
            directory_favourite: false,
        });
    }
    for (name, size) in files {
        let path = format!("/srv/site/{name}");
        if !listed_entry(&path) {
            continue;
        }
        let is_image = webdir::kinds::is_image_file(&path);
        entries.push(DirectoryEntry {
            name: name.to_string(),
            path,
            is_dir: false,
            size: *size,
            modified: 0,
            image_version: if is_image { Some("1-2".to_string()) } else { None },
            favourite: false,
            deletion_marked: false,
            directory_favourite: false,
        });
    }
    render_directory_page(&entries, "", true, false, "", &directory_css(), "", &directory_script())
}

const PHOTO: (&str, u64) = ("photo.png", 96);

#[test]
fn directory_hides_review_and_gallery_comment_sidecars() {
    let page = render_listing(&[
        ("design.md", 8),
        ("design.md.review.json", 27),
        ("gallery-comments.json", 27),
    ]);

    assert!(page.contains("design.md"));
    assert!(!page.contains("design.md.review.json"));
    assert!(!page.contains("href=\"/gallery-comments.json\""));
    assert!(page.contains("1 个文件"));
}

#[test]
fn directory_hides_the_dotted_comments_file_too() {
    let page = render_listing(&[("notes.md", 8), (".gallery-comments.json", 27)]);

    assert!(!page.contains(".gallery-comments.json\""));
    assert!(page.contains("0 个目录 · 1 个文件"));
}

#[test]
fn gallery_comment_editor_owns_keyboard_input_and_shares_review_identity() {
    let page = render_listing(&[PHOTO]);
    let article = render_markdown_article("# Review").unwrap();
    let markdown = render_markdown_page("# Review", "review.md", &article, &markdown_script(), "");

    assert!(page.contains("const REVIEW_IDENTITY_KEY = 'webdir-review-identity'"));
    assert!(markdown.contains("const REVIEW_IDENTITY_KEY = 'webdir-review-identity'"));
    assert!(!page.contains("http-gallery-comment-author"));
    assert!(page.contains("const commentEditorActive = !commentsDrawer.hidden"));
    assert!(page.contains(
        "event.target === galleryCommentAuthor || event.target === galleryCommentBody"
    ));
    assert!(page.contains("galleryCommentComposer.requestSubmit()"));
    assert!(page.contains("if (event.metaKey)"));
    assert!(page.contains("galleryCommentBody.setRangeText('\\n'"));
    assert!(page.contains("Enter 提交 · ⌘ Enter 换行"));
}

#[test]
fn gallery_fullscreen_swipe_and_favourite_effect_contracts_are_embedded() {
    let page = render_listing(&[PHOTO]);

    assert!(page.contains("element.requestFullscreen || element.webkitRequestFullscreen"));
    assert!(page.contains("document.exitFullscreen || document.webkitExitFullscreen"));
    assert!(page.contains("document.addEventListener('webkitfullscreenchange'"));
    assert!(page.contains(".image-lightbox:-webkit-full-screen"));
    assert!(page.contains("if (stepPreview(delta < 0 ? 1 : -1, delta)) return"));
    assert!(page.contains("const incomingTarget = gestureIncoming || lightboxImage"));
    assert!(page.contains("lightbox.append(heartParticles)"));
    assert!(page.contains("const particleRect = lightbox.getBoundingClientRect()"));
}

#[test]
fn lists_one_photo_with_its_thumbnail_and_counts() {
    let page = render_listing(&[PHOTO]);

    assert!(page.contains("0 个目录 · 1 个文件"));
    assert!(page.contains("href=\"/photo.png\""));
    assert!(page.contains("photo.png"));
}

#[test]
fn regular_directory_keeps_the_compact_listing() {
    let page = render_listing(&[PHOTO, ("one.txt", 3), ("two.txt", 3)]);

    assert!(page.contains("<body>"));
    assert!(page.contains("class=\"listing\""));
    assert!(!page.contains("class=\"listing gallery\""));
    assert!(page.contains("id=\"gallery-toggle\""));
    assert!(page.contains("data-gallery-src="));
    assert!(page.contains("src=\"/photo.png?mode=thumb&amp;v="));
}

#[test]
fn directory_uses_a_video_glyph_for_mp4_files() {
    let page = render_listing(&[("clip.mp4", 5)]);

    assert!(page.contains("class=\"entry file video\""));
    assert!(page.contains("<svg viewBox=\"0 0 24 18\">"));
    assert!(page.contains("<span class=\"kind\">VIDEO</span>"));
}

#[test]
fn image_heavy_directory_offers_gallery_switch() {
    let page = render_listing_with(&[PHOTO, ("icon.svg", 46), ("notes.md", 5)], &["docs"]);

    assert!(page.contains("<body>"));
    assert!(page.contains("class=\"listing\""));
    assert!(!page.contains("class=\"listing gallery\""));
    assert!(page.contains("id=\"gallery-toggle\""));
    assert!(page.contains("aria-pressed=\"false\""));
    assert!(page.contains("WEBDIR / DIRECTORY"));
    assert!(page.contains("class=\"entry file image\""));
    assert!(page.contains("class=\"entry file image vector\""));
    assert!(page.contains("src=\"/photo.png?mode=thumb&amp;v="));
    assert!(page.contains("data-gallery-src=\"/photo.png?mode=gallery-thumb&amp;v="));
    assert!(page.contains("data-preview-src=\"/photo.png?mode=gallery-preview&amp;v="));
    assert!(page.contains("data-original-src=\"/photo.png?mode=asset&amp;v="));
    assert!(page.contains("src=\"/icon.svg?mode=asset&amp;v="));
    assert!(page.contains("class=\"entry file\" href=\"/notes.md\""));
    assert!(!page.contains("notes.md?mode=thumb"));
    assert!(page.contains("class=\"entry folder\" data-modified=\""));
    assert!(page.contains("<a class=\"folder-open\" href=\"/docs/\""));
    assert!(page.contains("id=\"directory-sort\" aria-label=\"目录排序\""));
    assert!(page.contains("<option value=\"default\">默认</option>"));
    assert!(page.contains("<option value=\"modified\">按修改时间</option>"));
    assert!(page.contains("<option value=\"name\">按名称</option>"));
    assert!(page.contains("option.value = 'similarity'"));
    assert!(page.contains("option.textContent = '按图片相似度'"));
    assert!(page.contains("const DIRECTORY_SORT_KEY = 'webdir-directory-sort'"));
    assert!(page.contains("url.search = '?mode=similarity-order'"));
    assert!(page.contains("data-modified=\""));
    assert!(page.contains("class=\"folder-favourite-toggle\" type=\"button\" data-directory-favourite-toggle=\"/docs/\" aria-pressed=\"false\""));
    assert!(page.contains("data-list-src=\"/photo.png?mode=thumb&amp;v="));
    assert!(page.contains(".entry.image .glyph img { width:100%; height:100%; object-fit:cover;"));
    assert!(page.contains(".listing.gallery { display:grid;"));
    assert!(page.contains("listing.classList.toggle('gallery', enabled)"));
    assert!(page.contains("data-gallery-href=\"/photo.png?view=gallery\""));
    assert!(page.contains("url.searchParams.set('view', 'gallery')"));
    assert!(page.contains(
        "setGallery(new URLSearchParams(location.search).get('view') === 'gallery', false)"
    ));
    assert!(page.contains("id=\"image-lightbox\""));
    assert!(page.contains("id=\"scroll-jumps\""));
    assert!(page.contains("new ResizeObserver(scheduleScrollJumpUpdate)"));
    assert!(page.contains("id=\"lightbox-filmstrip\""));
    assert!(page.contains("const preloadAdjacentImages = () =>"));
    assert!(page.contains("id=\"favourite-burst\""));
    assert!(page.contains("commentToggle.className = 'comment-toggle'"));
    assert!(page.contains("?mode=gallery-comments"));
    assert!(page.contains("submitGalleryCommentAction({type: 'delete-all'})"));
    assert!(page.contains("const carouselEffects = ['drift', 'lift', 'depth', 'soft-focus', 'curtain']"));
    assert!(page.contains("marked ? '取消标记 (d)' : '标记删除 (d)'"));
    assert!(page.contains("id=\"delete-marked-images\" class=\"delete-marked-images\" type=\"button\" hidden"));
    assert!(page.contains("id=\"clear-deletion-marks\" type=\"button\" hidden"));
    assert!(page.contains("id=\"delete-marked-dialog\""));
    assert!(!page.contains("longPressTimer"));
    assert!(page.contains("`${index + 1} / ${entries.length}`"));
    assert!(page.contains("touch-action:none"));
}

#[test]
fn directory_favourite_labels_keep_the_last_directory_visible() {
    let favourites = vec![FavouriteDirectory {
        path: "/srv/site/projects/very-long-collection-name/final-folder".to_string(),
        label: None,
    }];
    let bar = render_directory_favourites(&favourites, "/srv/site", "/srv/site");

    assert!(bar.contains(
        "<span class=\"directory-favourite-prefix\">projects/very-long-collection-name</span>"
    ));
    assert!(bar.contains("<span class=\"directory-favourite-leaf\">final-folder</span>"));
}

#[test]
fn directory_favourites_put_additional_entries_in_a_more_menu() {
    let favourites: Vec<FavouriteDirectory> = ["one", "two", "three", "four"]
        .iter()
        .map(|name| FavouriteDirectory { path: format!("/srv/site/{name}"), label: None })
        .collect();
    let page = render_directory_favourites(&favourites, "/srv/site", "/srv/site");

    assert!(page.contains("<details class=\"directory-favourites-more\">"));
    assert!(page.contains("<span>更多</span><svg viewBox=\"0 0 16 16\""));
    assert!(page.contains("<div class=\"directory-favourites-menu\">"));
    for name in ["one", "two", "three", "four"] {
        assert_eq!(page.matches(&format!("data-directory-favourite-path=\"/{name}/\"")).count(), 1);
    }
    let menu = page.split("class=\"directory-favourites-menu\"").nth(1).unwrap();
    assert!(!menu.contains("data-directory-favourite-path=\"/one/\""));
    assert!(!menu.contains("data-directory-favourite-path=\"/two/\""));
    assert!(!menu.contains("data-directory-favourite-path=\"/three/\""));
    assert!(menu.contains("data-directory-favourite-path=\"/four/\""));
}
