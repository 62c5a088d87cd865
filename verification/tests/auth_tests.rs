use circle::auth::{bearer_token, check_login, create_session, hash_pin, hash_pin_with_salt, hash_pin_with_salt_bytes, random_token, session_with_token, token_from_bytes, validate_login, validate_registration, session_is_live, LoginRow, SESSION_TTL_SECS};
use circle::http::ApiError;
use circle::types::User;

fn row(hash: Option<String>, salt: Option<String>) -> LoginRow {
    LoginRow {
        id: "u1".to_string(),
        display_name: "Ada".to_string(),
        avatar_key: None,
        pin_hash: hash,
        pin_salt: salt,
    }
}

#[test]
fn session_ttl_is_thirty_days() {
    assert_eq!(SESSION_TTL_SECS, 2_592_000);
    let s = create_session("u1", 1_700_000_000).unwrap();
    assert_eq!(s.user_id, "u1");
    assert_eq!(s.created_at, 1_700_000_000);
    assert_eq!(s.expires_at, 1_700_000_000 + 2_592_000);
    assert_eq!(s.token.len(), 64);
}

#[test]
fn tokens_are_64_lower_hex_digits() {
    let t = random_token().unwrap();
    assert_eq!(t.len(), 64);
    assert!(t.chars().all(|c| c.is_ascii_digit() || ('a'..='f').contains(&c)));
    assert_ne!(t, random_token().unwrap());
}

#[test]
fn bearer_header_parsing() {
    assert_eq!(bearer_token(Some("Bearer abc")), Some("abc"));
    assert_eq!(bearer_token(Some("Bearer ")), Some(""));
    assert_eq!(bearer_token(Some("bearer abc")), None);
    assert_eq!(bearer_token(Some("Token abc")), None);
    assert_eq!(bearer_token(None), None);
}

#[test]
fn pin_hash_with_salt_known_value() {
    let (salt, hash) = hash_pin_with_salt("abc", "1234");
    assert_eq!(salt, "abc");
    assert_eq!(hash, "1755a2d5b309d75bede226f2b6cf858bb14287b917e76ad3b943de0dda4683fb");
    let (_, h2) = hash_pin_with_salt("s\u{e4}lt", "p\u{ef}n");
    assert_eq!(h2, "28a4b4d4878c03f9e9ebde62d29b878ec5695c25e269386eadb24bfd9e4df7f7");
}

#[test]
fn fresh_pin_hash_has_random_salt() {
    let (salt, hash) = hash_pin("1234").unwrap();
    assert_eq!(salt.len(), 32);
    assert!(salt.chars().all(|c| c.is_ascii_hexdigit()));
    assert_eq!(hash.len(), 64);
    assert!(hash.chars().all(|c| c.is_ascii_digit() || ('a'..='f').contains(&c)));
    assert_eq!(hash, hash_pin_with_salt(&salt, "1234").1);
    let (salt2, _) = hash_pin("1234").unwrap();
    assert_ne!(salt, salt2);
}

#[test]
fn registered_pin_signs_in() {
    let (salt, hash) = hash_pin("4321").unwrap();
    let r = check_login(Some(row(Some(hash.clone()), Some(salt.clone()))), "4321");
    assert_eq!(r, Ok(User { id: "u1".into(), display_name: "Ada".into(), avatar_key: None }));
    let wrong = check_login(Some(row(Some(hash), Some(salt))), "4322");
    assert_eq!(wrong, Err(ApiError::InvalidCredentials));
}

#[test]
fn login_refusals() {
    assert_eq!(check_login(None, "1234"), Err(ApiError::InvalidCredentials));
    assert_eq!(check_login(Some(row(None, Some("s".into()))), "1234"), Err(ApiError::NoPin));
    assert_eq!(check_login(Some(row(Some("h".into()), None)), "1234"), Err(ApiError::NoPin));
}

#[test]
fn registration_checks() {
    assert_eq!(validate_registration("  Ada  ", "1234"), Ok("Ada"));
    assert_eq!(validate_registration("   ", "1234"), Err(ApiError::DisplayNameInvalid));
    let forty = "a".repeat(40);
    assert_eq!(validate_registration(&forty, "1234"), Ok(forty.as_str()));
    let long = "a".repeat(41);
    assert_eq!(validate_registration(&long, "1234"), Err(ApiError::DisplayNameInvalid));
    // The name limit counts bytes: 20 two-byte characters are 40 bytes; 21
    // are too many. The PIN limit counts characters.
    let wide = "\u{e9}".repeat(20);
    assert_eq!(validate_registration(&wide, "1234"), Ok(wide.as_str()));
    let wider = "\u{e9}".repeat(21);
    assert_eq!(validate_registration(&wider, "1234"), Err(ApiError::DisplayNameInvalid));
    assert_eq!(validate_registration("Ada", "123"), Err(ApiError::PinTooShort));
    assert_eq!(validate_registration("Ada", "\u{e9}\u{e9}"), Err(ApiError::PinTooShort));
    assert_eq!(validate_registration("Ada", "\u{e9}\u{e9}\u{e9}\u{e9}"), Ok("Ada"));
}

#[test]
fn login_form_checks() {
    assert_eq!(validate_login(" Bob ", "0000"), Ok("Bob"));
    assert_eq!(validate_login("", "0000"), Err(ApiError::LoginFieldsRequired));
    assert_eq!(validate_login("Bob", "000"), Err(ApiError::LoginFieldsRequired));
    assert_eq!(validate_login("Bob", "\u{e9}\u{e9}"), Err(ApiError::LoginFieldsRequired));
    assert_eq!(validate_login("Bob", "\u{e9}\u{e9}\u{e9}\u{e9}"), Ok("Bob"));
}

#[test]
fn sessions_expire_after_thirty_days() {
    let s = create_session("u1", 1000).unwrap();
    assert!(session_is_live(s.expires_at, 1000));
    assert!(session_is_live(s.expires_at, 1000 + 2_592_000 - 1));
    assert!(!session_is_live(s.expires_at, 1000 + 2_592_000));
}

#[test]
fn token_from_bytes_is_lower_hex() {
    assert_eq!(token_from_bytes(&[0x00, 0xab, 0x7f, 0xff]), "00ab7fff");
    assert_eq!(token_from_bytes(&[]), "");
    assert_eq!(token_from_bytes(&[0xde; 32]).len(), 64);
}

#[test]
fn session_with_token_sets_expiry() {
    let s = session_with_token("t0".to_string(), "u9", 100);
    assert_eq!(s.token, "t0");
    assert_eq!(s.user_id, "u9");
    assert_eq!(s.created_at, 100);
    assert_eq!(s.expires_at, 100 + 2_592_000);
}

#[test]
fn pin_hash_from_salt_bytes() {
    let (salt, hash) = hash_pin_with_salt_bytes(&[0x0a, 0xbc], "1234");
    assert_eq!(salt, "0abc");
    assert_eq!(hash, hash_pin_with_salt("0abc", "1234").1);
    assert_ne!(hash, hash_pin_with_salt("0abc", "1235").1);
}
