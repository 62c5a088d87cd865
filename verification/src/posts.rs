//! Posts and comments: what a new post must hold, how stored rows become the
//! feed, and the checks on comments.
use vstd::prelude::*;
use crate::http::ApiError;
use crate::text::{trim, trim_seq};
use crate::types::{Comment, NewPostRequest, Post, ReactionSummary, Session, User};

verus! {

/// The view of an optional string.
pub open spec fn opt_string_view(o: Option<String>) -> Option<Seq<char>> {
    match o {
        Some(s) => Some(s@),
        None => None,
    }
}

/// A new post has content: a body that is not blank, an image, or a video.
pub open spec fn has_content_spec(req: NewPostRequest) -> bool {
    ||| (req.body matches Some(b) && trim_seq(b@).len() > 0)
    ||| req.image_key is Some
    ||| req.video_key is Some
}

/// A post is admitted when it carries an image or a video, whatever its
/// body, or a body with a non-blank character; it is refused exactly when it
/// has neither media nor such a body.
pub proof fn post_content_rule(req: NewPostRequest)
    ensures
        req.image_key is Some ==> has_content_spec(req),
        req.video_key is Some ==> has_content_spec(req),
        (req.body matches Some(b) && trim_seq(b@).len() > 0) ==> has_content_spec(req),
        (req.image_key is None && req.video_key is None && match req.body {
            Some(b) => trim_seq(b@).len() == 0,
            None => true,
        }) ==> !has_content_spec(req),
{
}

/// Admits a new post: it needs a body, an image or a video.
pub fn check_new_post(req: &NewPostRequest) -> (r: Result<(), ApiError>)
    ensures
        has_content_spec(*req) ==> r == Ok::<(), ApiError>(()),
        !has_content_spec(*req) ==> r == Err::<(), ApiError>(ApiError::EmptyPost),
{
    let has_body = match &req.body {
        Some(b) => !trim(b.as_str()).is_empty(),
        None => false,
    };
    if has_body || req.image_key.is_some() || req.video_key.is_some() {
        Ok(())
    } else {
        Err(ApiError::EmptyPost)
    }
}

/// The post as its author sees it right after creating it: the request's
/// fields as sent, no reactions, no comments.
pub fn created_post(id: String, author: &Session, req: NewPostRequest, now: i64) -> (p: Post)
    ensures
        p.id == id,
        p.author.id == author.user_id,
        p.author.display_name == author.display_name,
        p.author.avatar_key == author.avatar_key,
        p.body == req.body,
        p.image_key == req.image_key,
        p.video_key == req.video_key,
        p.created_at == now,
        p.reactions@.len() == 0,
        p.comment_count == 0,
{
    Post {
        id,
        author: User {
            id: author.user_id.clone(),
            display_name: author.display_name.clone(),
            avatar_key: author.avatar_key.clone(),
        },
        body: req.body,
        image_key: req.image_key,
        video_key: req.video_key,
        created_at: now,
        reactions: Vec::new(),
        comment_count: 0,
    }
}

/// A stored optional text, where the empty text means none.
pub open spec fn present(o: Option<String>) -> Option<Seq<char>> {
    match o {
        Some(s) => if s@.len() > 0 {
            Some(s@)
        } else {
            None
        },
        None => None,
    }
}

/// A stored text shows when it is present and not empty, and then exactly
/// as stored; a missing or empty one shows as none.
pub proof fn stored_text_rule(o: Option<String>)
    ensures
        (o matches Some(s) && s@.len() > 0) ==> present(o) == Some(o->0@),
        (o is None || o->0@.len() == 0) ==> present(o) is None,
{
}

/// A stored optional text with the empty text read as none.
pub fn non_empty(o: Option<String>) -> (r: Option<String>)
    ensures
        opt_string_view(r) == present(o),
{
    match o {
        Some(s) => if s.as_str().is_empty() {
            None
        } else {
            Some(s)
        },
        None => None,
    }
}

/// A post of the feed as the database returns it, with its author.
#[derive(Debug, Clone, PartialEq, Eq)]
pub struct PostRow {
    pub id: String,
    pub body: Option<String>,
    pub image_key: Option<String>,
    pub video_key: Option<String>,
    pub created_at: i64,
    pub author_id: String,
    pub display_name: String,
    pub avatar_key: Option<String>,
}

/// A post of the feed from its row, its reaction counters and its number of
/// comments; empty texts stand for no body, image or video.
pub fn post_from_row(row: PostRow, reactions: Vec<ReactionSummary>, comment_count: u32) -> (p: Post)
    ensures
        p.id == row.id,
        p.author == (User {
            id: row.author_id,
            display_name: row.display_name,
            avatar_key: row.avatar_key,
        }),
        opt_string_view(p.body) == present(row.body),
        opt_string_view(p.image_key) == present(row.image_key),
        opt_string_view(p.video_key) == present(row.video_key),
        p.created_at == row.created_at,
        p.reactions == reactions,
        p.comment_count == comment_count,
{
    Post {
        id: row.id,
        author: User {
            id: row.author_id,
            display_name: row.display_name,
            avatar_key: row.avatar_key,
        },
        body: non_empty(row.body),
        image_key: non_empty(row.image_key),
        video_key: non_empty(row.video_key),
        created_at: row.created_at,
        reactions,
        comment_count,
    }
}

/// The reactions of a post grouped by emoji, as the database counts them.
#[derive(Debug, Clone, PartialEq, Eq)]
pub struct ReactionAggRow {
    pub emoji: String,
    pub cnt: i64,
    pub mine: Option<i64>,
}

/// The counter of an aggregated row: its count, and whether the viewer is
/// among those who reacted.
pub open spec fn summary_of(r: ReactionAggRow) -> ReactionSummary {
    ReactionSummary {
        emoji: r.emoji,
        count: r.cnt as u32,
        mine: match r.mine {
            Some(m) => m > 0,
            None => false,
        },
    }
}

/// A counter from an aggregated row keeps its emoji and (in range) its
/// count, and is marked as the viewer's exactly when the row counts a
/// positive number of the viewer's reactions.
pub proof fn summary_rule(r: ReactionAggRow)
    ensures
        summary_of(r).emoji == r.emoji,
        0 <= r.cnt <= u32::MAX ==> summary_of(r).count == r.cnt,
        summary_of(r).mine <==> (r.mine matches Some(m) && m > 0),
{
}

/// The counters of a post from its aggregated rows, in the same order.
pub fn reaction_summaries(rows: Vec<ReactionAggRow>) -> (s: Vec<ReactionSummary>)
    ensures
        s@.len() == rows@.len(),
        forall|i: int| 0 <= i < rows@.len() ==> #[trigger] s@[i] == summary_of(rows@[i]),
{
    let mut out: Vec<ReactionSummary> = Vec::new();
    let mut i: usize = 0;
    let n = rows.len();
    while i < n
        invariant
            i <= n,
            n == rows@.len(),
            out@.len() == i,
            forall|j: int| 0 <= j < i ==> #[trigger] out@[j] == summary_of(rows@[j]),
        decreases n - i,
    {
        let r = &rows[i];
        let mine = match r.mine {
            Some(m) => m > 0,
            None => false,
        };
        out.push(ReactionSummary { emoji: r.emoji.clone(), count: r.cnt as u32, mine });
        i += 1;
    }
    out
}

/// The number of comments of a post from the count row (zero without one).
pub fn comment_count(row: Option<i64>) -> (c: u32)
    ensures
        c == match row {
            Some(n) => n as u32,
            None => 0u32,
        },
{
    match row {
        Some(n) => n as u32,
        None => 0,
    }
}

/// A comment as the database returns it, with its author.
#[derive(Debug, Clone, PartialEq, Eq)]
pub struct CommentRow {
    pub id: String,
    pub body: String,
    pub created_at: i64,
    pub author_id: String,
    pub display_name: String,
    pub avatar_key: Option<String>,
}

/// The comment of a row.
pub open spec fn comment_of(r: CommentRow) -> Comment {
    Comment {
        id: r.id,
        author: User { id: r.author_id, display_name: r.display_name, avatar_key: r.avatar_key },
        body: r.body,
        created_at: r.created_at,
    }
}

/// The comments of a post from their rows, in the same (oldest first) order.
pub fn comments_from_rows(rows: Vec<CommentRow>) -> (c: Vec<Comment>)
    ensures
        c@.len() == rows@.len(),
        forall|i: int| 0 <= i < rows@.len() ==> #[trigger] c@[i] == comment_of(rows@[i]),
{
    let mut out: Vec<Comment> = Vec::new();
    let mut i: usize = 0;
    let n = rows.len();
    while i < n
        invariant
            i <= n,
            n == rows@.len(),
            out@.len() == i,
            forall|j: int| 0 <= j < i ==> #[trigger] out@[j] == comment_of(rows@[j]),
        decreases n - i,
    {
        let r = &rows[i];
        out.push(
            Comment {
                id: r.id.clone(),
                author: User {
                    id: r.author_id.clone(),
                    display_name: r.display_name.clone(),
                    avatar_key: r.avatar_key.clone(),
                },
                body: r.body.clone(),
                created_at: r.created_at,
            },
        );
        i += 1;
    }
    out
}

/// Admits the post id of a path: it must be present.
pub fn require_post_id(id: Option<&str>) -> (r: Result<&str, ApiError>)
    ensures
        match id {
            Some(v) => r == Ok::<&str, ApiError>(v),
            None => r == Err::<&str, ApiError>(ApiError::MissingId),
        },
{
    match id {
        Some(v) => Ok(v),
        None => Err(ApiError::MissingId),
    }
}

/// Admits a new comment: its body must not be blank.
pub fn check_comment(body: &str) -> (r: Result<(), ApiError>)
    ensures
        trim_seq(body@).len() == 0 ==> r == Err::<(), ApiError>(ApiError::EmptyComment),
        trim_seq(body@).len() != 0 ==> r == Ok::<(), ApiError>(()),
{
    if trim(body).is_empty() {
        Err(ApiError::EmptyComment)
    } else {
        Ok(())
    }
}

} // verus!
