use commandagent::events::{bounded_event_text, MAX_EVENT_TEXT_CHARS};

#[test]
fn bounded_event_text_sanitizes_and_caps() {
    let long = format!("a\n{}", "b".repeat(MAX_EVENT_TEXT_CHARS + 8));
    let bounded = bounded_event_text(&long);

    assert!(!bounded.contains('\n'));
    assert!(bounded.ends_with("..."));
    assert!(bounded.chars().count() <= MAX_EVENT_TEXT_CHARS + 3);
}

#[test]
fn bounded_event_text_keeps_short_text_and_trims_end() {
    assert_eq!(bounded_event_text("hello\t"), "hello");
    assert_eq!(bounded_event_text("a\u{7f}b"), "a b");
    assert_eq!(bounded_event_text(""), "");
}
