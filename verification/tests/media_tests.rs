use circle::http::ApiError;
use circle::media::{check_put_key, check_storage_cap, check_upload_size, fetch, key_owned_by, max_upload_bytes, may_read_media, media_content_type, media_token, require_media_key, upload_extension, upload_target, upload_url, MediaOp, Method, MAX_IMAGE_BYTES, MAX_USER_BYTES, MAX_VIDEO_BYTES};
use circle::types::UploadUrlRequest;

fn req(kind: &str, ext: Option<&str>) -> UploadUrlRequest {
    UploadUrlRequest { kind: kind.to_string(), ext: ext.map(|e| e.to_string()) }
}

#[test]
fn extensions_by_kind() {
    assert_eq!(upload_extension("video", Some("mp4")), "mp4");
    assert_eq!(upload_extension("video", Some("mov")), "webm");
    assert_eq!(upload_extension("video", None), "webm");
    assert_eq!(upload_extension("image", Some("mp4")), "webp");
    assert_eq!(upload_extension("gif", None), "webp");
}

#[test]
fn upload_target_key_and_url() {
    let r = upload_target("u1", "0000-id", &req("video", Some("mp4")));
    assert_eq!(r.key, "u1-0000-id.mp4");
    assert_eq!(r.upload_url, "/api/media/u1-0000-id.mp4");
}

#[test]
fn upload_key_is_owned_and_typed() {
    for (kind, ext, ty, max) in [
        ("image", None, "image/webp", MAX_IMAGE_BYTES),
        ("video", Some("mp4"), "video/mp4", MAX_VIDEO_BYTES),
        ("video", None, "video/webm", MAX_VIDEO_BYTES),
    ] {
        let r = upload_url("user-7", &req(kind, ext)).unwrap();
        assert_eq!(r.key.len(), "user-7-".len() + 36 + 1 + if ext.is_some() { 3 } else { 4 });
        assert!(key_owned_by(&r.key, "user-7"));
        assert!(!key_owned_by(&r.key, "user-8"));
        assert_eq!(media_content_type(&r.key), ty);
        assert_eq!(max_upload_bytes(&r.key), max);
        assert_eq!(check_put_key(Some(&r.key), "user-7"), Ok(r.key.as_str()));
    }
}

#[test]
fn put_key_checks() {
    assert_eq!(check_put_key(None, "u1"), Err(ApiError::MissingKey));
    assert_eq!(check_put_key(Some("u2-x.webp"), "u1"), Err(ApiError::KeyNotOwned));
    assert_eq!(check_put_key(Some("u1x.webp"), "u1"), Err(ApiError::KeyNotOwned));
    assert_eq!(require_media_key(Some("k")), Ok("k"));
    assert_eq!(require_media_key(None), Err(ApiError::MissingKey));
}

#[test]
fn size_limits() {
    assert_eq!(check_upload_size("a.webp", 2_000_000), Ok(()));
    assert_eq!(check_upload_size("a.webp", 2_000_001), Err(ApiError::MediaTooLarge { size: 2_000_001, max: 2_000_000 }));
    assert_eq!(check_upload_size("a.webm", 5_000_000), Ok(()));
    assert_eq!(check_upload_size("a.mp4", 5_000_001), Err(ApiError::MediaTooLarge { size: 5_000_001, max: 5_000_000 }));
}

#[test]
fn storage_cap() {
    assert_eq!(MAX_USER_BYTES, 524_288_000);
    assert_eq!(check_storage_cap(524_000_000, 288_000), Ok(()));
    assert_eq!(check_storage_cap(524_000_000, 288_001), Err(ApiError::StorageCapReached { used: 524_000_000, cap: 524_288_000 }));
    assert_eq!(check_storage_cap(u64::MAX, 1), Err(ApiError::StorageCapReached { used: u64::MAX, cap: 524_288_000 }));
}

#[test]
fn media_read_rules() {
    assert_eq!(media_token(Some("Bearer t1"), Some("t2")), Some("t1"));
    assert_eq!(media_token(Some("Basic t1"), Some("t2")), Some("t2"));
    assert_eq!(media_token(None, None), None);
    assert!(may_read_media("u2-x.webp", "u1", true));
    assert!(may_read_media("u1-x.webp", "u1", false));
    assert!(!may_read_media("u2-x.webp", "u1", false));
    assert_eq!(media_content_type("x.webm"), "video/webm");
    assert_eq!(media_content_type("x.png"), "image/webp");
}

#[test]
fn media_methods() {
    assert_eq!(fetch(Method::Put), Ok(MediaOp::Upload));
    assert_eq!(fetch(Method::Get), Ok(MediaOp::Read));
    assert_eq!(fetch(Method::Other), Err(ApiError::MethodNotAllowed));
}

#[test]
fn upload_ids_are_hyphenated_lower_uuids() {
    let r = upload_url("u1", &req("image", None)).unwrap();
    let id = &r.key["u1-".len().."u1-".len() + 36];
    for (i, c) in id.chars().enumerate() {
        if [8, 13, 18, 23].contains(&i) {
            assert_eq!(c, '-');
        } else {
            assert!(c.is_ascii_digit() || ('a'..='f').contains(&c));
        }
    }
    assert_ne!(upload_url("u1", &req("image", None)).unwrap().key, r.key);
}
