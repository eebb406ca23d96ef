use antithesis_sdk::lifecycle::{event_name, name_from_trimmed};

#[test]
fn event_name_is_trimmed() {
    assert_eq!(event_name("  my event 2 "), "my event 2");
    assert_eq!(event_name("my event"), "my event");
}

#[test]
fn blank_event_name_is_anonymous() {
    assert_eq!(event_name(""), "anonymous");
    assert_eq!(event_name("   "), "anonymous");
    assert_eq!(name_from_trimmed(""), "anonymous");
    assert_eq!(name_from_trimmed("x"), "x");
}
