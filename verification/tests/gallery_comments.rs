use webdir::gallery::{GalleryComment, GalleryCommentAction, GalleryComments};

fn comment(id: &str, image: &str, body: &str) -> GalleryComment {
    GalleryComment {
        id: id.into(),
        image: image.into(),
        author: "Alice".into(),
        body: body.into(),
        created_at: "2026-09-09T10:00:00.000Z".into(),
        edited_at: None,
    }
}

#[test]
fn one_document_holds_the_comments_of_every_image() {
    let mut document = GalleryComments::new();
    assert_eq!(document.version, 1);
    document
        .apply("photos/first.jpg", GalleryCommentAction::Add { comment: comment("one", "first.jpg", "调整天空") })
        .unwrap();
    document
        .apply("photos/second.png", GalleryCommentAction::Add { comment: comment("two", "second.png", "降低饱和度") })
        .unwrap();
    assert_eq!(document.comments.len(), 2);
}

#[test]
fn gallery_comments_are_edited_and_deleted() {
    let mut document = GalleryComments::new();
    document
        .apply("image.jpg", GalleryCommentAction::Add { comment: comment("one", "image.jpg", "旧评论") })
        .unwrap();
    document
        .apply(
            "image.jpg",
            GalleryCommentAction::Edit {
                comment_id: "one".into(),
                body: "新评论".into(),
                edited_at: "2026-09-09T11:00:00.000Z".into(),
            },
        )
        .unwrap();
    assert_eq!(document.comments[0].body, "新评论");
    assert_eq!(document.comments[0].edited_at.as_deref(), Some("2026-09-09T11:00:00.000Z"));

    document
        .apply("image.jpg", GalleryCommentAction::Delete { comment_id: "one".into() })
        .unwrap();
    assert!(document.comments.is_empty());
}

#[test]
fn delete_all_drops_only_the_current_images_comments() {
    let mut document = GalleryComments::new();
    document
        .apply("dir/first.jpg", GalleryCommentAction::Add { comment: comment("one", "first.jpg", "第一条") })
        .unwrap();
    document
        .apply("dir/second.jpg", GalleryCommentAction::Add { comment: comment("two", "first.jpg", "第二条") })
        .unwrap();
    document
        .apply("dir/second.jpg", GalleryCommentAction::Add { comment: comment("three", "second.jpg", "保留") })
        .unwrap();

    document.apply("dir/first.jpg", GalleryCommentAction::DeleteAll).unwrap();

    assert_eq!(document.comments.len(), 1);
    assert_eq!(document.comments[0].id, "three");
}

#[test]
fn deleted_images_lose_their_comments() {
    let mut document = GalleryComments::new();
    document
        .apply("first.jpg", GalleryCommentAction::Add { comment: comment("one", "first.jpg", "删除") })
        .unwrap();
    document
        .apply("second.jpg", GalleryCommentAction::Add { comment: comment("two", "second.jpg", "保留") })
        .unwrap();

    assert!(document.remove_for_image("dir/first.jpg"));
    assert_eq!(document.comments.len(), 1);
    assert_eq!(document.comments[0].id, "two");
    assert!(!document.remove_for_image("dir/first.jpg"));
}

#[test]
fn refused_gallery_actions_keep_the_document() {
    let mut document = GalleryComments::new();
    document
        .apply("a.jpg", GalleryCommentAction::Add { comment: comment("one", "a.jpg", "x") })
        .unwrap();
    assert_eq!(
        document.apply("a.jpg", GalleryCommentAction::Add { comment: comment("one", "a.jpg", "y") }),
        Err("评论 ID 已存在".to_string())
    );
    assert_eq!(
        document.apply("a.jpg", GalleryCommentAction::Delete { comment_id: "none".into() }),
        Err("评论不存在".to_string())
    );
    assert_eq!(document.comments.len(), 1);
    assert_eq!(document.comments[0].body, "x");
}
