use circle::auth::{bearer_token, validate_login};
use circle::client::{comment_added, comments_fetched, toggle_comments, CommentsPanel, api_url, auth_failure_message, b64_to_b64url, b64url_to_b64, base, bearer_header, can_add_image, can_post, check_form, comments_label, comments_path, compose_request, form_error_message, format_time, http_error, images_to_take, media_src, post_path, prepend_post, reaction_count_label, remove_at, remove_post, upload_error, video_extension, FormError};
use circle::types::{Post, User};

fn post(id: &str) -> Post {
    Post {
        id: id.to_string(),
        author: User { id: "u".into(), display_name: "U".into(), avatar_key: None },
        body: None,
        image_key: None,
        video_key: None,
        created_at: 0,
        reactions: vec![],
        comment_count: 0,
    }
}

#[test]
fn addresses() {
    assert_eq!(base(None), "http://127.0.0.1:8787");
    assert_eq!(base(Some("https://api.example")), "https://api.example");
    assert_eq!(api_url("http://h", "/api/me"), "http://h/api/me");
    assert_eq!(comments_path("p1"), "/api/posts/p1/comments");
    assert_eq!(post_path("p1"), "/api/posts/p1");
    assert_eq!(media_src("http://h", "u-1.webp", "tok"), "http://h/api/media/u-1.webp?t=tok");
}

#[test]
fn bearer_round_trip_value() {
    let h = bearer_header("abc123");
    assert_eq!(h, "Bearer abc123");
    assert_eq!(bearer_token(Some(&h)), Some("abc123"));
}

#[test]
fn error_texts() {
    assert_eq!(http_error(404), "HTTP 404");
    assert_eq!(upload_error(413, "too big"), "upload failed (HTTP 413): too big");
    assert_eq!(auth_failure_message("HTTP 403", true), "invite code is invalid or already used");
    assert_eq!(auth_failure_message("HTTP 401", true), "HTTP 401");
    assert_eq!(auth_failure_message("HTTP 401", false), "name or PIN incorrect");
    assert_eq!(auth_failure_message("network down", false), "network down");
}

#[test]
fn sign_in_form() {
    assert_eq!(check_form(" ", "1234", false, ""), Err(FormError::NameAndPinRequired));
    assert_eq!(check_form("Ada", "123", true, "code"), Err(FormError::NameAndPinRequired));
    assert_eq!(check_form("Ada", "1234", true, "  "), Err(FormError::InviteRequired));
    assert_eq!(check_form("Ada", "1234", false, ""), Ok(()));
    assert_eq!(check_form("Ada", "1234", true, "inv-1"), Ok(()));
    assert_eq!(check_form("Ada", "\u{e9}\u{e9}", false, ""), Err(FormError::NameAndPinRequired));
    assert_eq!(check_form("Ada", "\u{e9}\u{e9}\u{e9}\u{e9}", false, ""), Ok(()));
    assert_eq!(form_error_message(FormError::NameAndPinRequired), "name and a 4+ character PIN required");
    assert_eq!(form_error_message(FormError::InviteRequired), "invite code required");
}

#[test]
fn composer_rules() {
    assert!(can_add_image(3, false));
    assert!(!can_add_image(4, false));
    assert!(!can_add_image(0, true));
    assert_eq!(images_to_take(1, 5), 3);
    assert_eq!(images_to_take(0, 2), 2);
    assert_eq!(images_to_take(6, 2), 0);
    assert!(!can_post(false, false, "  ", false, false, true));
    assert!(can_post(false, false, "hi", false, false, true));
    assert!(can_post(false, false, "", true, false, true));
    assert!(!can_post(true, false, "hi", false, false, true));
    assert!(!can_post(false, true, "hi", false, false, true));
    assert!(!can_post(false, false, "hi", true, true, false));
    assert_eq!(video_extension("video/mp4;codecs=avc1"), "mp4");
    assert_eq!(video_extension("video/webm"), "webm");
    let r = compose_request("  ".into(), Some("k.webm".into()));
    assert_eq!(r.body, None);
    assert_eq!(r.video_key.as_deref(), Some("k.webm"));
    assert_eq!(compose_request(" hi ".into(), None).body.as_deref(), Some(" hi "));
    let mut v = vec![1, 2, 3];
    remove_at(&mut v, 1);
    assert_eq!(v, vec![1, 3]);
    remove_at(&mut v, 5);
    assert_eq!(v, vec![1, 3]);
}

#[test]
fn feed_updates() {
    let mut feed = vec![post("a"), post("b"), post("a")];
    prepend_post(&mut feed, post("c"));
    assert_eq!(feed.iter().map(|p| p.id.as_str()).collect::<Vec<_>>(), vec!["c", "a", "b", "a"]);
    remove_post(&mut feed, "a");
    assert_eq!(feed.iter().map(|p| p.id.as_str()).collect::<Vec<_>>(), vec!["c", "b"]);
}

#[test]
fn labels() {
    assert_eq!(comments_label(0, false), "comment");
    assert_eq!(comments_label(1, false), "1 comment");
    assert_eq!(comments_label(12, false), "12 comments");
    assert_eq!(comments_label(12, true), "hide comments");
    assert_eq!(reaction_count_label(0), "");
    assert_eq!(reaction_count_label(3), " 3");
}

#[test]
fn relative_times() {
    let now = 1_700_000_000;
    assert_eq!(format_time(now, now), "just now");
    assert_eq!(format_time(now + 500, now), "just now");
    assert_eq!(format_time(now - 59, now), "just now");
    assert_eq!(format_time(now - 60, now), "1m ago");
    assert_eq!(format_time(now - 3599, now), "59m ago");
    assert_eq!(format_time(now - 3600, now), "1h ago");
    assert_eq!(format_time(now - 86399, now), "23h ago");
    assert_eq!(format_time(now - 86400 * 3, now), "3d ago");
}

#[test]
fn push_key_forms() {
    assert_eq!(b64url_to_b64("-_8"), "+/8=");
    assert_eq!(b64url_to_b64("Zg"), "Zg==");
    assert_eq!(b64url_to_b64("Zm9v"), "Zm9v");
    assert_eq!(b64_to_b64url("+/8="), "-_8");
    assert_eq!(b64_to_b64url("Zg=="), "Zg");
    for s in ["", "Zg==", "Zm8=", "Zm9v", "+/+/", "ab+/cd=="] {
        assert_eq!(b64url_to_b64(&b64_to_b64url(s)), s);
    }
}

#[test]
fn client_and_worker_agree_on_sign_in_fields() {
    for (name, pin) in [("Ada", "1234"), ("  ", "1234"), ("Ada", "123"), (" Bo ", "\u{e9}\u{e9}"), ("", "")] {
        assert_eq!(check_form(name, pin, false, "").is_ok(), validate_login(name, pin).is_ok());
    }
}

#[test]
fn comments_are_fetched_once_and_counted() {
    let mut p = CommentsPanel { open: false, loaded: false, count: 2 };
    assert!(toggle_comments(&mut p));
    assert!(p.open);
    assert!(!toggle_comments(&mut p));
    assert!(!p.open);
    assert!(toggle_comments(&mut p));
    comments_fetched(&mut p);
    assert!(!toggle_comments(&mut p));
    assert!(!toggle_comments(&mut p));
    comment_added(&mut p);
    assert_eq!(p, CommentsPanel { open: true, loaded: true, count: 3 });
}
