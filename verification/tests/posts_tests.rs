use circle::http::ApiError;
use circle::posts::{check_comment, check_new_post, comment_count, comments_from_rows, created_post, non_empty, post_from_row, reaction_summaries, require_post_id, CommentRow, PostRow, ReactionAggRow};
use circle::types::{Comment, NewPostRequest, ReactionSummary, Session, User};

fn new_post(body: Option<&str>, image: Option<&str>, video: Option<&str>) -> NewPostRequest {
    NewPostRequest {
        body: body.map(|s| s.to_string()),
        image_key: image.map(|s| s.to_string()),
        video_key: video.map(|s| s.to_string()),
    }
}

#[test]
fn a_post_needs_content() {
    assert_eq!(check_new_post(&new_post(None, None, None)), Err(ApiError::EmptyPost));
    assert_eq!(check_new_post(&new_post(Some("  \n"), None, None)), Err(ApiError::EmptyPost));
    assert_eq!(check_new_post(&new_post(Some("hi"), None, None)), Ok(()));
    assert_eq!(check_new_post(&new_post(None, Some("k.webp"), None)), Ok(()));
    assert_eq!(check_new_post(&new_post(Some(""), None, Some("k.webm"))), Ok(()));
}

#[test]
fn created_post_has_no_reactions_or_comments() {
    let s = Session { user_id: "u1".into(), display_name: "Ada".into(), avatar_key: Some("a.webp".into()) };
    let p = created_post("p1".into(), &s, new_post(Some("hello"), None, None), 1_700_000_000);
    assert_eq!(p.id, "p1");
    assert_eq!(p.author, User { id: "u1".into(), display_name: "Ada".into(), avatar_key: Some("a.webp".into()) });
    assert_eq!(p.body.as_deref(), Some("hello"));
    assert_eq!(p.created_at, 1_700_000_000);
    assert!(p.reactions.is_empty());
    assert_eq!(p.comment_count, 0);
}

#[test]
fn rows_become_feed_posts() {
    let row = PostRow {
        id: "p1".into(),
        body: Some("".into()),
        image_key: Some("u1-x.webp".into()),
        video_key: None,
        created_at: 42,
        author_id: "u1".into(),
        display_name: "Ada".into(),
        avatar_key: None,
    };
    let reactions = vec![ReactionSummary { emoji: "\u{1f525}".into(), count: 2, mine: true }];
    let p = post_from_row(row, reactions.clone(), 3);
    assert_eq!(p.body, None);
    assert_eq!(p.image_key.as_deref(), Some("u1-x.webp"));
    assert_eq!(p.video_key, None);
    assert_eq!(p.author.display_name, "Ada");
    assert_eq!(p.reactions, reactions);
    assert_eq!(p.comment_count, 3);
    assert_eq!(non_empty(Some("x".into())), Some("x".to_string()));
    assert_eq!(non_empty(Some(String::new())), None);
}

#[test]
fn aggregated_reaction_rows() {
    let rows = vec![
        ReactionAggRow { emoji: "a".into(), cnt: 3, mine: Some(1) },
        ReactionAggRow { emoji: "b".into(), cnt: 1, mine: Some(0) },
        ReactionAggRow { emoji: "c".into(), cnt: 2, mine: None },
    ];
    assert_eq!(
        reaction_summaries(rows),
        vec![
            ReactionSummary { emoji: "a".into(), count: 3, mine: true },
            ReactionSummary { emoji: "b".into(), count: 1, mine: false },
            ReactionSummary { emoji: "c".into(), count: 2, mine: false },
        ]
    );
    assert_eq!(comment_count(Some(5)), 5);
    assert_eq!(comment_count(None), 0);
}

#[test]
fn comment_rows_and_checks() {
    let rows = vec![CommentRow {
        id: "c1".into(),
        body: "nice".into(),
        created_at: 7,
        author_id: "u2".into(),
        display_name: "Bob".into(),
        avatar_key: None,
    }];
    assert_eq!(
        comments_from_rows(rows),
        vec![Comment { id: "c1".into(), author: User { id: "u2".into(), display_name: "Bob".into(), avatar_key: None }, body: "nice".into(), created_at: 7 }]
    );
    assert_eq!(check_comment("  "), Err(ApiError::EmptyComment));
    assert_eq!(check_comment(" ok "), Ok(()));
    assert_eq!(require_post_id(None), Err(ApiError::MissingId));
    assert_eq!(require_post_id(Some("p1")), Ok("p1"));
}
