use circle::client::{
    can_delete_post, can_send_comment, carousel_back, carousel_forward, carousel_label, carousel_shown,
    is_mine, set_join_mode, sign_in_failed, submit_login, upload_step_message, LoginForm, SignInCall,
    UploadStep,
};

fn idle(join_mode: bool) -> LoginForm {
    LoginForm { join_mode, busy: false, error: None }
}

#[test]
fn login_submit_while_busy_does_nothing() {
    let mut f = LoginForm { join_mode: true, busy: true, error: Some("x".to_string()) };
    assert_eq!(submit_login(&mut f, "Ada", "1234", "inv"), None);
    assert_eq!(f, LoginForm { join_mode: true, busy: true, error: Some("x".to_string()) });
}

#[test]
fn login_submit_refusals_leave_the_form_idle() {
    let mut f = idle(false);
    assert_eq!(submit_login(&mut f, " ", "1234", ""), None);
    assert_eq!(f.error.as_deref(), Some("name and a 4+ character PIN required"));
    assert!(!f.busy);
    let mut f = idle(true);
    assert_eq!(submit_login(&mut f, "Ada", "1234", "  "), None);
    assert_eq!(f, LoginForm { join_mode: true, busy: false, error: Some("invite code required".to_string()) });
}

#[test]
fn login_submit_sends_the_right_request() {
    let mut f = LoginForm { join_mode: false, busy: false, error: Some("old".to_string()) };
    assert_eq!(submit_login(&mut f, "Ada", "1234", ""), Some(SignInCall::Login));
    assert_eq!(f, LoginForm { join_mode: false, busy: true, error: None });
    let mut f = idle(true);
    assert_eq!(submit_login(&mut f, "Ada", "1234", "inv-1"), Some(SignInCall::Register));
    assert!(f.busy);
}

#[test]
fn login_failures_and_mode_switch() {
    let mut f = LoginForm { join_mode: true, busy: true, error: None };
    sign_in_failed(&mut f, "HTTP 403");
    assert_eq!(f, LoginForm { join_mode: true, busy: false, error: Some("invite code is invalid or already used".to_string()) });
    let mut f = LoginForm { join_mode: false, busy: true, error: None };
    sign_in_failed(&mut f, "HTTP 401");
    assert_eq!(f.error.as_deref(), Some("name or PIN incorrect"));
    sign_in_failed(&mut f, "HTTP 500");
    assert_eq!(f.error.as_deref(), Some("HTTP 500"));
    set_join_mode(&mut f, true);
    assert_eq!(f, LoginForm { join_mode: true, busy: false, error: None });
}

#[test]
fn post_card_guards() {
    assert!(can_send_comment(false, "hi", true));
    assert!(!can_send_comment(true, "hi", true));
    assert!(!can_send_comment(false, "  ", true));
    assert!(!can_send_comment(false, "hi", false));
    assert!(can_delete_post(false, true));
    assert!(!can_delete_post(true, true));
    assert!(!can_delete_post(false, false));
    assert!(is_mine(Some("u1"), "u1"));
    assert!(!is_mine(Some("u2"), "u1"));
    assert!(!is_mine(None, "u1"));
}

#[test]
fn carousel_positions() {
    assert_eq!(carousel_shown(5, 3), 2);
    assert_eq!(carousel_shown(1, 3), 1);
    assert_eq!(carousel_back(0), 0);
    assert_eq!(carousel_back(2), 1);
    assert_eq!(carousel_forward(1, 3), 2);
    assert_eq!(carousel_forward(2, 3), 2);
    assert_eq!(carousel_label(0, 4), "1/4");
    assert_eq!(carousel_label(9, 12), "10/12");
}

#[test]
fn upload_step_messages() {
    assert_eq!(upload_step_message(UploadStep::UploadUrl, "HTTP 500"), "upload URL failed: HTTP 500");
    assert_eq!(upload_step_message(UploadStep::Image, "e"), "image upload failed: e");
    assert_eq!(upload_step_message(UploadStep::Video, "e"), "video upload failed: e");
}
