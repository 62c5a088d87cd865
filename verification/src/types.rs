//! The values exchanged between the client and the worker, and the session
//! the worker derives from a bearer token.
use vstd::prelude::*;

verus! {

/// A member of the circle.
#[derive(Debug, Clone, PartialEq, Eq)]
pub struct User {
    pub id: String,
    pub display_name: String,
    pub avatar_key: Option<String>,
}

/// One post of the feed, with its reactions and the number of its comments.
#[derive(Debug, Clone, PartialEq, Eq)]
pub struct Post {
    pub id: String,
    pub author: User,
    pub body: Option<String>,
    pub image_key: Option<String>,
    pub video_key: Option<String>,
    pub created_at: i64,
    pub reactions: Vec<ReactionSummary>,
    pub comment_count: u32,
}

/// How many members reacted to a post with one emoji, and whether the viewer did.
#[derive(Debug, Clone, PartialEq, Eq)]
pub struct ReactionSummary {
    pub emoji: String,
    pub count: u32,
    pub mine: bool,
}

/// A comment on a post.
#[derive(Debug, Clone, PartialEq, Eq)]
pub struct Comment {
    pub id: String,
    pub author: User,
    pub body: String,
    pub created_at: i64,
}

/// The body of a request to create a post.
#[derive(Debug, Clone, PartialEq, Eq)]
pub struct NewPostRequest {
    pub body: Option<String>,
    pub image_key: Option<String>,
    pub video_key: Option<String>,
}

/// The body of a request for an upload key.
#[derive(Debug, Clone, PartialEq, Eq)]
pub struct UploadUrlRequest {
    /// "image" or "video"
    pub kind: String,
    /// Optional file extension chosen by the client (e.g. "mp4", "webm").
    pub ext: Option<String>,
}

/// The body of a request to toggle a reaction.
#[derive(Debug, Clone, PartialEq, Eq)]
pub struct ReactRequest {
    pub post_id: String,
    pub emoji: String,
}

/// The body of a registration with an invite code.
#[derive(Debug, Clone, PartialEq, Eq)]
pub struct RegisterRequest {
    pub invite_code: String,
    pub display_name: String,
    /// PIN of at least four bytes, used to sign in on new devices.
    pub pin: String,
}

/// The body of a sign-in with name and PIN.
#[derive(Debug, Clone, PartialEq, Eq)]
pub struct LoginRequest {
    pub display_name: String,
    pub pin: String,
}

/// The answer to a successful registration or sign-in.
#[derive(Debug, Clone, PartialEq, Eq)]
pub struct AuthResponse {
    pub token: String,
    pub user: User,
}

/// Where to upload a media object and the key it will have.
#[derive(Debug, Clone, PartialEq, Eq)]
pub struct UploadUrlResponse {
    pub upload_url: String,
    pub key: String,
}

/// A Web Push subscription of the browser.
#[derive(Debug, Clone, PartialEq, Eq)]
pub struct PushSubscribeRequest {
    pub endpoint: String,
    pub keys_p256dh: String,
    pub keys_auth: String,
}

/// The member behind a valid session token.
#[derive(Debug, Clone, PartialEq, Eq)]
pub struct Session {
    pub user_id: String,
    pub display_name: String,
    pub avatar_key: Option<String>,
}

} // verus!
