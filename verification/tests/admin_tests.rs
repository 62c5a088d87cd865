use circle::admin::{check_admin, check_redeem, constant_time_eq, invite_code, mint_invite_code, offered_passphrase, validate_passphrase};
use circle::http::ApiError;

#[test]
fn admin_gate() {
    assert_eq!(check_admin(None, None, Some("Bearer x")), Err(ApiError::AdminNotConfigured));
    assert_eq!(check_admin(Some("s3"), None, Some("Bearer s3")), Ok(()));
    assert_eq!(check_admin(None, Some("dev"), Some("Bearer dev")), Ok(()));
    assert_eq!(check_admin(Some("s3"), Some("dev"), Some("Bearer dev")), Err(ApiError::InvalidAdminSecret));
    assert_eq!(check_admin(Some("s3"), None, Some("s3")), Err(ApiError::InvalidAdminSecret));
    assert_eq!(check_admin(Some("s3"), None, None), Err(ApiError::InvalidAdminSecret));
}

#[test]
fn passphrase_lengths() {
    assert_eq!(validate_passphrase("  1234567  "), Err(ApiError::PassphraseTooShort));
    assert_eq!(validate_passphrase(" 12345678 "), Ok("12345678"));
    let max = "p".repeat(200);
    assert_eq!(validate_passphrase(&max), Ok(max.as_str()));
    assert_eq!(validate_passphrase(&"p".repeat(201)), Err(ApiError::PassphraseTooLong));
    assert_eq!(offered_passphrase("   "), Err(ApiError::PassphraseRequired));
    assert_eq!(offered_passphrase(" open sesame "), Ok("open sesame"));
}

#[test]
fn constant_time_equality() {
    assert!(constant_time_eq(b"", b""));
    assert!(constant_time_eq(b"abc", b"abc"));
    assert!(!constant_time_eq(b"abc", b"abd"));
    assert!(!constant_time_eq(b"abc", b"ab"));
    assert!(!constant_time_eq(&[0x80], &[0x00]));
}

#[test]
fn redeem_decisions() {
    assert_eq!(check_redeem("x", None), Err(ApiError::InvitesClosed));
    assert_eq!(check_redeem("open sesame", Some("open sesame")), Ok(()));
    assert_eq!(check_redeem("open sesame", Some("open sesamE")), Err(ApiError::InvalidPassphrase));
}

#[test]
fn invite_codes() {
    assert_eq!(invite_code("inv-", "0123abcd-ffff"), "inv-0123abcd");
    let c = mint_invite_code("p-").unwrap();
    assert_eq!(c.len(), 10);
    assert!(c.starts_with("p-"));
    assert!(c[2..].chars().all(|ch| ch.is_ascii_hexdigit()));
    assert_ne!(mint_invite_code("inv-").unwrap(), mint_invite_code("inv-").unwrap());
}

#[test]
fn redeem_accepts_the_trimmed_passphrase() {
    let stored = validate_passphrase("  open sesame  ").unwrap();
    assert_eq!(stored, "open sesame");
    let offer = offered_passphrase(" open sesame\n").unwrap();
    assert_eq!(check_redeem(offer, Some(stored)), Ok(()));
    let wrong = offered_passphrase("open  sesame").unwrap();
    assert_eq!(check_redeem(wrong, Some(stored)), Err(ApiError::InvalidPassphrase));
    assert_eq!(check_redeem(offer, None), Err(ApiError::InvitesClosed));
}
