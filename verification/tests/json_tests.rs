use circle::http::{json_error, json_field_object};
use circle::push::subscription_json;

#[test]
fn error_bodies_parse_back_to_their_message() {
    for msg in ["plain", "quote \" and back\\slash", "lines\nand\ttabs\r", "ctl \u{1}\u{1f}", "\u{e9}\u{1f525}/"] {
        let r = json_error(400, msg);
        let v: serde_json::Value = serde_json::from_str(&r.body).unwrap();
        let obj = v.as_object().unwrap();
        assert_eq!(obj.len(), 1);
        assert_eq!(obj["error"].as_str(), Some(msg));
    }
    let v: serde_json::Value = serde_json::from_str(&json_field_object("k\"", "v")).unwrap();
    assert_eq!(v["k\""].as_str(), Some("v"));
}

#[test]
fn stored_subscription_parses_back_with_its_endpoint() {
    let e = "https://push.example/x?a=\"1\"\\";
    let s = subscription_json(e, "P256", "AUTH");
    let v: serde_json::Value = serde_json::from_str(&s).unwrap();
    assert_eq!(v["endpoint"].as_str(), Some(e));
    assert_eq!(v["keys"]["p256dh"].as_str(), Some("P256"));
    assert_eq!(v["keys"]["auth"].as_str(), Some("AUTH"));
}
