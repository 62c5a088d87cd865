//! Circle: the logic of a small invite-only social app, verified with Verus.
//!
//! The library holds the rules of the API worker (validation, sessions, PIN
//! hashing, media keys, Web Push JWTs) and of the client (forms, reaction
//! counters, time labels, key encodings). The I/O around them lives in `app/`.
pub mod primitives;
pub mod ids;
pub mod text;
pub mod http;
pub mod types;
pub mod auth;
pub mod admin;
pub mod media;
pub mod reactions;
pub mod posts;
pub mod push;
pub mod client;
pub mod composer;
pub mod json;
