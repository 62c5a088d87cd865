use circle::http::ApiError;
use circle::reactions::{check_emoji, is_allowed_emoji, reaction_button, toggle, toggle_body, toggle_reaction, ToggleAction};
use circle::types::ReactionSummary;

fn r(e: &str, count: u32, mine: bool) -> ReactionSummary {
    ReactionSummary { emoji: e.to_string(), count, mine }
}

#[test]
fn six_allowed_emoji() {
    for e in ["❤️", "😂", "🔥", "👏", "🙏", "😢"] {
        assert!(is_allowed_emoji(e));
        assert_eq!(check_emoji(e), Ok(()));
    }
    for e in ["❤", "👍", "", "🔥🔥"] {
        assert!(!is_allowed_emoji(e));
        assert_eq!(check_emoji(e), Err(ApiError::EmojiNotAllowed));
    }
}

#[test]
fn server_toggle() {
    assert_eq!(toggle(Some("r1".into())), ToggleAction::Remove { id: "r1".into() });
    assert_eq!(toggle(None), ToggleAction::Add);
    assert_eq!(toggle_body(&ToggleAction::Add), "{\"state\":\"added\"}");
    assert_eq!(toggle_body(&ToggleAction::Remove { id: "x".into() }), "{\"state\":\"removed\"}");
}

#[test]
fn tap_updates_counters() {
    let mut v = vec![r("🔥", 2, false), r("😂", 1, true)];
    toggle_reaction(&mut v, "🔥");
    assert_eq!(v, vec![r("🔥", 3, true), r("😂", 1, true)]);
    toggle_reaction(&mut v, "😂");
    assert_eq!(v, vec![r("🔥", 3, true)]);
    toggle_reaction(&mut v, "🙏");
    assert_eq!(v, vec![r("🔥", 3, true), r("🙏", 1, true)]);
}

#[test]
fn tapping_twice_restores() {
    let start = vec![r("❤️", 1, true), r("🔥", 2, false), r("😂", 4, true)];
    for e in ["❤️", "🔥", "😂", "👏"] {
        let mut v = start.clone();
        toggle_reaction(&mut v, e);
        toggle_reaction(&mut v, e);
        if e == "❤️" {
            assert_eq!(v, vec![r("🔥", 2, false), r("😂", 4, true), r("❤️", 1, true)]);
        } else {
            assert_eq!(v, start);
        }
    }
}

#[test]
fn zero_counters_are_dropped_and_never_negative() {
    let mut v = vec![r("🔥", 0, true), r("😂", 0, false)];
    toggle_reaction(&mut v, "🔥");
    assert_eq!(v, vec![]);
}

#[test]
fn button_state() {
    let v = vec![r("🔥", 3, true)];
    assert_eq!(reaction_button(&v, "🔥"), (true, 3));
    assert_eq!(reaction_button(&v, "😂"), (false, 0));
}
