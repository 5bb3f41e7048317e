use webdir::review::{
    checked_status, review_instructions, ReviewAction, ReviewComment, ReviewControl,
    ReviewDocument, ReviewHub, ReviewMessage,
};

fn message(author: &str, body: &str) -> ReviewMessage {
    ReviewMessage {
        id: Some(format!("message-{body}")),
        author: author.into(),
        body: body.into(),
        created_at: "2026-09-04T10:00:00.000Z".into(),
        edited_at: None,
        extra: Vec::new(),
    }
}

fn comment(id: &str) -> ReviewComment {
    ReviewComment {
        id: id.into(),
        scope: "{\"type\":\"document\"}".into(),
        status: "open".into(),
        messages: vec![message("alice@laptop", "补充失败策略")],
        extra: Vec::new(),
    }
}

#[test]
fn presence_uses_unique_user_names() {
    let mut hub = ReviewHub::new();
    let (first, _) = hub.connect("design.md");
    let (second, _) = hub.connect("design.md");

    hub.set_user("design.md", first.client_id, "alice@laptop".into());
    let presence = hub.set_user("design.md", second.client_id, "alice@laptop".into());

    assert!(presence.recipients.contains(&first.client_id));
    assert!(presence.recipients.contains(&second.client_id));
    assert_eq!(
        presence.message,
        "{\"type\":\"review-presence\",\"users\":[\"alice@laptop\"]}"
    );
}

#[test]
fn new_review_documents_carry_the_assistant_instructions() {
    let document = ReviewDocument::new();
    assert_eq!(document.version, 1);
    assert_eq!(document.instructions, review_instructions());
    assert!(document.comments.is_empty());
}

#[test]
fn applies_sequential_actions_without_losing_comments() {
    let mut review = ReviewDocument::new();
    review.apply(ReviewAction::AddComment { comment: comment("one") }).unwrap();
    review.apply(ReviewAction::AddComment { comment: comment("two") }).unwrap();
    review
        .apply(ReviewAction::AddMessage {
            comment_id: "one".into(),
            message: message("codex@workstation", "已补充"),
            status: Some("addressed".into()),
        })
        .unwrap();

    assert_eq!(review.comments.len(), 2);
    assert_eq!(review.comments[0].messages.len(), 2);
    assert_eq!(review.comments[0].status, "addressed");
}

#[test]
fn edits_and_deletes_thread_messages() {
    let mut review = ReviewDocument::new();
    review.apply(ReviewAction::AddComment { comment: comment("one") }).unwrap();
    review
        .apply(ReviewAction::EditMessage {
            comment_id: "one".into(),
            message_id: Some("message-补充失败策略".into()),
            message_index: 0,
            body: "补充超时后的失败策略".into(),
            edited_at: "2026-09-04T11:00:00.000Z".into(),
        })
        .unwrap();
    assert_eq!(review.comments[0].messages[0].body, "补充超时后的失败策略");
    assert!(review.comments[0].messages[0].edited_at.is_some());

    review
        .apply(ReviewAction::DeleteMessage {
            comment_id: "one".into(),
            message_id: Some("message-补充失败策略".into()),
            message_index: 0,
        })
        .unwrap();
    assert!(review.comments.is_empty());
}

#[test]
fn legacy_messages_without_ids_can_be_changed_by_index() {
    let mut review = ReviewDocument::new();
    let mut legacy = comment("one");
    legacy.messages[0].id = None;
    review.apply(ReviewAction::AddComment { comment: legacy }).unwrap();
    review
        .apply(ReviewAction::EditMessage {
            comment_id: "one".into(),
            message_id: None,
            message_index: 0,
            body: "修改后的旧消息".into(),
            edited_at: "2026-09-04T11:00:00.000Z".into(),
        })
        .unwrap();
    assert_eq!(review.comments[0].messages[0].body, "修改后的旧消息");
}

#[test]
fn deletes_an_entire_comment_thread() {
    let mut review = ReviewDocument::new();
    review.apply(ReviewAction::AddComment { comment: comment("one") }).unwrap();
    review.apply(ReviewAction::AddComment { comment: comment("two") }).unwrap();
    review.apply(ReviewAction::DeleteComment { comment_id: "one".into() }).unwrap();
    assert_eq!(review.comments.len(), 1);
    assert_eq!(review.comments[0].id, "two");
}

#[test]
fn refused_actions_leave_the_document_unchanged() {
    let mut review = ReviewDocument::new();
    review.apply(ReviewAction::AddComment { comment: comment("one") }).unwrap();
    assert_eq!(
        review.apply(ReviewAction::AddComment { comment: comment("one") }),
        Err("评论 ID 已存在".to_string())
    );
    assert_eq!(
        review.apply(ReviewAction::SetStatus { comment_id: "missing".into(), status: "open".into() }),
        Err("评论不存在".to_string())
    );
    assert_eq!(
        review.apply(ReviewAction::SetStatus { comment_id: "one".into(), status: "done".into() }),
        Err("未知的评论状态".to_string())
    );
    assert_eq!(
        review.apply(ReviewAction::DeleteMessage {
            comment_id: "one".into(),
            message_id: None,
            message_index: 3,
        }),
        Err("消息不存在".to_string())
    );
    assert_eq!(review.comments.len(), 1);
    assert_eq!(review.comments[0].status, "open");
    assert_eq!(review.comments[0].messages.len(), 1);
}

#[test]
fn only_known_statuses_are_accepted() {
    assert_eq!(checked_status("resolved".into()), Ok("resolved".to_string()));
    assert!(checked_status("Resolved".into()).is_err());
}

#[test]
fn applied_actions_notify_every_commenter_of_the_file() {
    let mut hub = ReviewHub::new();
    let (first, _) = hub.connect("design.md");
    let (_other, _) = hub.connect("other.md");
    let (review, delivery) = hub
        .apply_action("design.md", ReviewDocument::new(), ReviewAction::AddComment { comment: comment("one") })
        .unwrap();
    assert_eq!(review.comments.len(), 1);
    assert_eq!(delivery.recipients, vec![first.client_id]);
    assert_eq!(delivery.message, "{\"type\":\"review-updated\"}");
    assert!(hub
        .apply_action("design.md", review, ReviewAction::DeleteComment { comment_id: "two".into() })
        .is_err());
}

#[test]
fn join_messages_name_the_commenter_and_others_are_refused() {
    let mut hub = ReviewHub::new();
    let (connection, _) = hub.connect("design.md");
    let joined = connection.handle_control(
        &mut hub,
        Some(ReviewControl { kind: "join".into(), user: Some("bob".into()) }),
    );
    assert_eq!(joined.message, "{\"type\":\"review-presence\",\"users\":[\"bob\"]}");
    let refused = connection.handle_control(&mut hub, None);
    assert_eq!(refused.recipients, vec![connection.client_id]);
    assert_eq!(refused.message, "{\"message\":\"未知的审阅消息\",\"type\":\"review-error\"}");
    let blank = connection.handle_control(
        &mut hub,
        Some(ReviewControl { kind: "join".into(), user: Some("  ".into()) }),
    );
    assert!(blank.recipients.is_empty());
}

#[test]
fn closing_a_connection_removes_the_commenter() {
    let mut hub = ReviewHub::new();
    let (first, _) = hub.connect("design.md");
    let (second, _) = hub.connect("design.md");
    hub.set_user("design.md", first.client_id, "alice".into());
    hub.set_user("design.md", second.client_id, "bob".into());
    let left = first.close(&mut hub);
    assert_eq!(left.recipients, vec![second.client_id]);
    assert_eq!(left.message, "{\"type\":\"review-presence\",\"users\":[\"bob\"]}");
    assert_eq!(hub.recipients("design.md"), vec![second.client_id]);
}

#[test]
fn preserves_unknown_fields_when_an_action_is_applied() {
    let mut review = ReviewDocument::new();
    review.extra.push(("workflow".into(), "\"draft\"".into()));
    let mut kept = comment("one");
    kept.messages.clear();
    kept.extra.push(("agent_note".into(), "\"keep\"".into()));
    review.comments.push(kept);
    review
        .apply(ReviewAction::SetStatus { comment_id: "one".into(), status: "resolved".into() })
        .unwrap();
    assert_eq!(review.extra, vec![("workflow".to_string(), "\"draft\"".to_string())]);
    assert_eq!(
        review.comments[0].extra,
        vec![("agent_note".to_string(), "\"keep\"".to_string())]
    );
    assert_eq!(review.comments[0].status, "resolved");
}

#[test]
fn new_connections_get_ids_no_other_connection_has() {
    let mut hub = ReviewHub::new();
    let mut ids = Vec::new();
    for path in ["a.md", "b.md", "a.md", "a.md"] {
        let (connection, _) = hub.connect(path);
        assert!(!ids.contains(&connection.client_id));
        ids.push(connection.client_id);
    }
}
