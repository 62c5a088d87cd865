//! Media objects: upload keys, ownership, content types, size limits, the
//! per-member storage cap, and who may read an object.
use vstd::prelude::*;
use crate::auth::bearer_token;
use crate::admin::opt_view;
use crate::auth::bearer_of;
use crate::http::ApiError;
use crate::ids::{is_uuid_text, new_id};
use crate::text::{eq_str, ends_with, has_prefix, has_suffix, starts_with};
use crate::types::{UploadUrlRequest, UploadUrlResponse};

verus! {

/// Largest image upload, in bytes.
pub const MAX_IMAGE_BYTES: u64 = 2_000_000;

/// Largest video upload, in bytes (compressed on the client).
pub const MAX_VIDEO_BYTES: u64 = 5_000_000;

/// Storage cap of one member, in bytes (500 MiB).
pub const MAX_USER_BYTES: u64 = 524_288_000;

/// The extension of an upload: `mp4` or `webm` (the default) for a video,
/// `webp` for anything else.
pub open spec fn extension_for(kind: Seq<char>, ext: Option<Seq<char>>) -> Seq<char> {
    if kind == "video"@ {
        if ext == Some("mp4"@) {
            "mp4"@
        } else {
            "webm"@
        }
    } else {
        "webp"@
    }
}

/// Chooses the extension of an upload from the requested kind and extension.
pub fn upload_extension(kind: &str, ext: Option<&str>) -> (e: &'static str)
    ensures
        e@ == extension_for(kind@, opt_view(ext)),
{
    if eq_str(kind, "video") {
        match ext {
            Some(x) => if eq_str(x, "mp4") {
                "mp4"
            } else {
                proof {
                    reveal_strlit("mp4");
                }
                assert(opt_view(ext) != Some("mp4"@));
                "webm"
            },
            None => "webm",
        }
    } else {
        "webp"
    }
}

/// The key of an upload: `<user>-<id>.<ext>`.
pub open spec fn media_key_of(user_id: Seq<char>, id: Seq<char>, ext: Seq<char>) -> Seq<char> {
    user_id + "-"@ + id + "."@ + ext
}

/// The upload key and URL for a member, an object id and a request.
pub fn upload_target(user_id: &str, id: &str, request: &UploadUrlRequest) -> (r: UploadUrlResponse)
    ensures
        r.key@ == media_key_of(
            user_id@,
            id@,
            extension_for(
                request.kind@,
                match request.ext {
                    Some(x) => Some(x@),
                    None => None,
                },
            ),
        ),
        r.upload_url@ == "/api/media/"@ + r.key@,
{
    let ext = match &request.ext {
        Some(x) => Some(x.as_str()),
        None => None,
    };
    let e = upload_extension(request.kind.as_str(), ext);
    let mut key = String::from_str(user_id);
    key.append("-");
    key.append(id);
    key.append(".");
    key.append(e);
    let mut url = String::from_str("/api/media/");
    url.append(key.as_str());
    UploadUrlResponse { upload_url: url, key }
}

/// The upload key and URL for a member's request, under a fresh random id;
/// `None` when the system gives no random bytes for the id.
pub fn upload_url(user_id: &str, request: &UploadUrlRequest) -> (r: Option<UploadUrlResponse>)
    ensures
        r matches Some(u) ==> {
            &&& exists|id: Seq<char>|
                is_uuid_text(id) && u.key@ == media_key_of(
                    user_id@,
                    id,
                    extension_for(
                        request.kind@,
                        match request.ext {
                            Some(x) => Some(x@),
                            None => None,
                        },
                    ),
                )
            &&& u.upload_url@ == "/api/media/"@ + u.key@
        },
{
    match new_id() {
        Some(id) => Some(upload_target(user_id, id.as_str(), request)),
        None => None,
    }
}

/// `key` belongs to the member `user_id`: it starts with `<user>-`.
pub open spec fn owns_key(key: Seq<char>, user_id: Seq<char>) -> bool {
    has_prefix(key, user_id + "-"@)
}

/// Whether `key` belongs to the member `user_id`.
pub fn key_owned_by(key: &str, user_id: &str) -> (b: bool)
    ensures
        b == owns_key(key@, user_id@),
{
    let mut prefix = String::from_str(user_id);
    prefix.append("-");
    starts_with(key, prefix.as_str())
}

/// The content type of a media object, chosen by the suffix of its key.
pub open spec fn content_type_of(key: Seq<char>) -> Seq<char> {
    if has_suffix(key, ".webm"@) {
        "video/webm"@
    } else if has_suffix(key, ".mp4"@) {
        "video/mp4"@
    } else {
        "image/webp"@
    }
}

/// The size limit of a media object, chosen by the suffix of its key.
pub open spec fn size_limit_of(key: Seq<char>) -> u64 {
    if has_suffix(key, ".webm"@) || has_suffix(key, ".mp4"@) {
        MAX_VIDEO_BYTES
    } else {
        MAX_IMAGE_BYTES
    }
}

/// The content type under which a media object is stored and served.
pub fn media_content_type(key: &str) -> (t: &'static str)
    ensures
        t@ == content_type_of(key@),
{
    if ends_with(key, ".webm") {
        "video/webm"
    } else if ends_with(key, ".mp4") {
        "video/mp4"
    } else {
        "image/webp"
    }
}

/// The largest upload accepted under a key.
pub fn max_upload_bytes(key: &str) -> (m: u64)
    ensures
        m == size_limit_of(key@),
{
    if ends_with(key, ".webm") || ends_with(key, ".mp4") {
        MAX_VIDEO_BYTES
    } else {
        MAX_IMAGE_BYTES
    }
}

/// Admits the key of a media path: it must be present.
pub fn require_media_key(key: Option<&str>) -> (r: Result<&str, ApiError>)
    ensures
        match key {
            Some(k) => r == Ok::<&str, ApiError>(k),
            None => r == Err::<&str, ApiError>(ApiError::MissingKey),
        },
{
    match key {
        Some(k) => Ok(k),
        None => Err(ApiError::MissingKey),
    }
}

/// Admits the key of an upload: it must be present and belong to the uploader.
pub fn check_put_key<'a>(key: Option<&'a str>, user_id: &str) -> (r: Result<&'a str, ApiError>)
    ensures
        match key {
            None => r == Err::<&str, ApiError>(ApiError::MissingKey),
            Some(k) => if owns_key(k@, user_id@) {
                r == Ok::<&str, ApiError>(k)
            } else {
                r == Err::<&str, ApiError>(ApiError::KeyNotOwned)
            },
        },
{
    match require_media_key(key) {
        Err(e) => Err(e),
        Ok(k) => if key_owned_by(k, user_id) {
            Ok(k)
        } else {
            Err(ApiError::KeyNotOwned)
        },
    }
}

/// Admits the size of an upload under a key.
pub fn check_upload_size(key: &str, size: u64) -> (r: Result<(), ApiError>)
    ensures
        size > size_limit_of(key@) ==> r == Err::<(), ApiError>(
            ApiError::MediaTooLarge { size, max: size_limit_of(key@) },
        ),
        size <= size_limit_of(key@) ==> r == Ok::<(), ApiError>(()),
{
    let max = max_upload_bytes(key);
    if size > max {
        Err(ApiError::MediaTooLarge { size, max })
    } else {
        Ok(())
    }
}

/// Admits an upload of `added` bytes by a member who stores `used` bytes: the
/// total must stay within `MAX_USER_BYTES`.
pub fn check_storage_cap(used: u64, added: u64) -> (r: Result<(), ApiError>)
    ensures
        used + added > MAX_USER_BYTES ==> r == Err::<(), ApiError>(
            ApiError::StorageCapReached { used, cap: MAX_USER_BYTES },
        ),
        used + added <= MAX_USER_BYTES ==> r == Ok::<(), ApiError>(()),
{
    if used > MAX_USER_BYTES || added > MAX_USER_BYTES - used {
        Err(ApiError::StorageCapReached { used, cap: MAX_USER_BYTES })
    } else {
        Ok(())
    }
}

/// The session token of a media read: the bearer token of the header, else
/// the `t` query parameter (browsers cannot set headers on `<img>`).
pub fn media_token<'a>(authorization: Option<&'a str>, query_t: Option<&'a str>) -> (t: Option<
    &'a str,
>)
    ensures
        match bearer_of(opt_view(authorization)) {
            Some(b) => t matches Some(s) && s@ == b,
            None => opt_view(t) == opt_view(query_t),
        },
{
    match bearer_token(authorization) {
        Some(b) => Some(b),
        None => query_t,
    }
}

/// A member may read a media object that a post of the circle shows, or one
/// of their own.
pub fn may_read_media(key: &str, user_id: &str, referenced: bool) -> (b: bool)
    ensures
        b == (referenced || owns_key(key@, user_id@)),
{
    referenced || key_owned_by(key, user_id)
}

/// What a request to a media path does.
#[derive(Debug, Clone, Copy, PartialEq, Eq)]
pub enum MediaOp {
    Upload,
    Read,
}

/// The HTTP methods the worker tells apart on a media path.
#[derive(Debug, Clone, Copy, PartialEq, Eq)]
pub enum Method {
    Get,
    Put,
    Other,
}

/// Routes a media request: PUT uploads, GET reads, anything else is refused.
pub fn fetch(method: Method) -> (r: Result<MediaOp, ApiError>)
    ensures
        method == Method::Put ==> r == Ok::<MediaOp, ApiError>(MediaOp::Upload),
        method == Method::Get ==> r == Ok::<MediaOp, ApiError>(MediaOp::Read),
        method == Method::Other ==> r == Err::<MediaOp, ApiError>(ApiError::MethodNotAllowed),
{
    match method {
        Method::Put => Ok(MediaOp::Upload),
        Method::Get => Ok(MediaOp::Read),
        Method::Other => Err(ApiError::MethodNotAllowed),
    }
}

/// The limits: an image up to 2 MB, a video up to 5 MB, and 500 MiB stored
/// per member.
pub proof fn media_limits()
    ensures
        MAX_IMAGE_BYTES == 2 * 1000 * 1000,
        MAX_VIDEO_BYTES == 5 * 1000 * 1000,
        MAX_USER_BYTES == 500 * 1024 * 1024,
{
}

/// An upload key belongs to the member it was made for.
pub proof fn upload_key_is_owned(user_id: Seq<char>, id: Seq<char>, ext: Seq<char>)
    ensures
        owns_key(media_key_of(user_id, id, ext), user_id),
{
    let k = media_key_of(user_id, id, ext);
    let p = user_id + "-"@;
    assert(k.take(p.len() as int) =~= p);
}

/// An upload key is stored and served under the type its request asked for:
/// `video/mp4` for an mp4 video, `video/webm` for another video, `image/webp`
/// otherwise; and it is held to the matching size limit.
pub proof fn upload_key_content_type(
    user_id: Seq<char>,
    id: Seq<char>,
    kind: Seq<char>,
    ext: Option<Seq<char>>,
)
    ensures
        ({
            let key = media_key_of(user_id, id, extension_for(kind, ext));
            &&& content_type_of(key) == if kind == "video"@ {
                if ext == Some("mp4"@) {
                    "video/mp4"@
                } else {
                    "video/webm"@
                }
            } else {
                "image/webp"@
            }
            &&& size_limit_of(key) == if kind == "video"@ {
                MAX_VIDEO_BYTES
            } else {
                MAX_IMAGE_BYTES
            }
        }),
{
    reveal_strlit(".webm");
    reveal_strlit(".mp4");
    reveal_strlit(".webp");
    reveal_strlit("webm");
    reveal_strlit("mp4");
    reveal_strlit("webp");
    reveal_strlit(".");
    reveal_strlit("-");
    let e = extension_for(kind, ext);
    let key = media_key_of(user_id, id, e);
    let tail = "."@ + e;
    assert(key =~= (user_id + "-"@ + id) + tail);
    assert(key.skip(key.len() - tail.len()) =~= tail);
    assert(key.len() >= tail.len() + 1);
    if kind == "video"@ && ext != Some("mp4"@) {
        assert(e == "webm"@);
        assert(tail =~= ".webm"@);
        assert(has_suffix(key, ".webm"@));
    } else if kind == "video"@ {
        assert(e == "mp4"@);
        assert(tail =~= ".mp4"@);
        assert(key.skip(key.len() - 4) =~= ".mp4"@);
        assert(!has_suffix(key, ".webm"@)) by {
            assert(key.skip(key.len() - 5)[1] == '.');
        }
    } else {
        assert(e == "webp"@);
        assert(tail =~= ".webp"@);
        assert(key.skip(key.len() - 5) =~= ".webp"@);
        assert(!has_suffix(key, ".webm"@)) by {
            assert(key.skip(key.len() - 5)[4] == 'p');
        }
        assert(!has_suffix(key, ".mp4"@)) by {
            assert(key.skip(key.len() - 4)[0] == 'w');
        }
    }
}

} // verus!
