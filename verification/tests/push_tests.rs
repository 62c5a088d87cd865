use base64::Engine;
use p256::ecdsa::signature::Verifier;
use circle::push::{audience_of, claims_text, should_forget_subscription, signed_jwt, subscription_json, tickle_headers, tickle_targets, vapid_jwt, vapid_public, PushError, VAPID_TTL_SECS};

const KEY: &str = "AQIDBAUGBwgJCgsMDQ4PEBESExQVFhcYGRobHB0eHyA";

#[test]
fn audience_is_scheme_and_host() {
    assert_eq!(audience_of("https://fcm.googleapis.com/fcm/send/abc"), Ok("https://fcm.googleapis.com".to_string()));
    assert_eq!(audience_of("https://updates.push.services.mozilla.com"), Ok("https://updates.push.services.mozilla.com".to_string()));
    assert_eq!(audience_of("http://h:8080/a://b"), Ok("http://h:8080".to_string()));
    assert_eq!(audience_of("no-scheme/path"), Err(PushError::BadEndpoint));
}

#[test]
fn vapid_jwt_parts() {
    assert_eq!(VAPID_TTL_SECS, 43_200);
    let jwt = vapid_jwt(None, KEY, "https://fcm.googleapis.com/fcm/send/abc", 1_700_000_000).unwrap();
    let parts: Vec<&str> = jwt.split('.').collect();
    assert_eq!(parts.len(), 3);
    assert_eq!(parts[0], "eyJ0eXAiOiJKV1QiLCJhbGciOiJFUzI1NiJ9");
    assert_eq!(parts[1], "eyJhdWQiOiJodHRwczovL2ZjbS5nb29nbGVhcGlzLmNvbSIsImV4cCI6MTcwMDA0MzIwMCwic3ViIjoibWFpbHRvOmFkbWluQGV4YW1wbGUuY29tIn0");
    assert_eq!(parts[2].len(), 86);
    // The signature verifies under the public key of the scalar 1..=32.
    let scalar: Vec<u8> = (1u8..=32).collect();
    let key = p256::ecdsa::SigningKey::from_slice(&scalar).unwrap();
    let sig_bytes = base64::engine::general_purpose::URL_SAFE_NO_PAD.decode(parts[2]).unwrap();
    let sig = p256::ecdsa::Signature::from_slice(&sig_bytes).unwrap();
    let input = format!("{}.{}", parts[0], parts[1]);
    assert!(key.verifying_key().verify(input.as_bytes(), &sig).is_ok());
    // Deterministic (RFC 6979).
    assert_eq!(jwt, vapid_jwt(None, KEY, "https://fcm.googleapis.com/x", 1_700_000_000).unwrap());
}

#[test]
fn vapid_jwt_subject_and_errors() {
    let jwt = vapid_jwt(Some("mailto:me@x.org"), KEY, "https://a.b/c", 0).unwrap();
    let claims = jwt.split('.').nth(1).unwrap();
    let text = base64::engine::general_purpose::URL_SAFE_NO_PAD.decode(claims).unwrap();
    assert_eq!(String::from_utf8(text).unwrap(), "{\"aud\":\"https://a.b\",\"exp\":43200,\"sub\":\"mailto:me@x.org\"}");
    assert_eq!(vapid_jwt(None, "not base64!", "https://a.b", 0), Err(PushError::PrivateKeyEncoding));
    assert_eq!(vapid_jwt(None, "AQID", "https://a.b", 0), Err(PushError::PrivateKeyLength));
    assert_eq!(vapid_jwt(None, &format!("{}=", KEY), "https://a.b", 0), Err(PushError::PrivateKeyEncoding));
    assert_eq!(vapid_jwt(None, "AAAAAAAAAAAAAAAAAAAAAAAAAAAAAAAAAAAAAAAAAAA", "https://a.b", 0), Err(PushError::PrivateKey));
    // The key is checked before the endpoint.
    assert_eq!(vapid_jwt(None, "AAAAAAAAAAAAAAAAAAAAAAAAAAAAAAAAAAAAAAAAAAA", "no-scheme", 0), Err(PushError::PrivateKey));
    assert_eq!(vapid_jwt(None, KEY, "a.b", 0), Err(PushError::BadEndpoint));
}

#[test]
fn claims_and_signing() {
    assert_eq!(claims_text("https://a", 5, "s\"q"), "{\"aud\":\"https://a\",\"exp\":5,\"sub\":\"s\\\"q\"}");
    let scalar: Vec<u8> = (1u8..=32).collect();
    let j = signed_jwt(&scalar, "{}").unwrap();
    assert!(j.starts_with("eyJ0eXAiOiJKV1QiLCJhbGciOiJFUzI1NiJ9.e30."));
}

#[test]
fn tickle_request_headers() {
    let h = tickle_headers("J.W.T", "PUB");
    assert_eq!(h[0], ("Authorization".to_string(), "vapid t=J.W.T, k=PUB".to_string()));
    assert_eq!(h[1], ("TTL".to_string(), "86400".to_string()));
    assert_eq!(h[2], ("Content-Length".to_string(), "0".to_string()));
    assert_eq!(h[3], ("Urgency".to_string(), "normal".to_string()));
}

#[test]
fn fan_out_targets_and_gone_subscriptions() {
    let rows = vec![Some("a".to_string()), None, Some("b".to_string())];
    assert_eq!(tickle_targets(rows), vec!["a".to_string(), "b".to_string()]);
    assert!(should_forget_subscription(410));
    assert!(!should_forget_subscription(404));
    assert!(!should_forget_subscription(201));
}

#[test]
fn stored_subscription_text() {
    let s = subscription_json("https://push/x?a=\"1\"", "P256", "AUTH");
    assert_eq!(s, "{\"endpoint\":\"https://push/x?a=\\\"1\\\"\",\"keys\":{\"auth\":\"AUTH\",\"p256dh\":\"P256\"}}");
}

#[test]
fn public_key_body() {
    assert_eq!(vapid_public(Some("BPUB")), "{\"vapid_public_key\":\"BPUB\"}");
    assert_eq!(vapid_public(None), "{\"vapid_public_key\":\"\"}");
}
