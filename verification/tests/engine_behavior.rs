//! The decision table of the engine on concrete events.

use robot9000::engine::{
    assess, is_privileged, needs_capability_lookup, Assessment, Content, Event, ReplyTarget,
};

fn text_event(text: &str, reply_target: Option<ReplyTarget>) -> Event {
    Event {
        channel_id: 10,
        message_id: 20,
        sender: Some(30),
        chat_is_private: false,
        content: Content::Text { text: text.to_string(), reply_target },
    }
}

#[test]
fn plain_text_goes_through_dedup() {
    let e = text_event("just a message", None);
    match assess(&e, false) {
        Assessment::Dedup { text } => assert_eq!(text, "just a message"),
        other => panic!("unexpected assessment: {:?}", discriminant_name(&other)),
    }
}

#[test]
fn allow_reply_is_an_override() {
    let e = text_event("/allow", Some(ReplyTarget::Text("quoted".to_string())));
    match assess(&e, false) {
        Assessment::Override { allow, target_text } => {
            assert!(allow);
            assert_eq!(target_text, "quoted");
        }
        other => panic!("unexpected assessment: {:?}", discriminant_name(&other)),
    }
}

#[test]
fn forbid_reply_is_an_override() {
    let e = text_event("/forbid", Some(ReplyTarget::Text("quoted".to_string())));
    match assess(&e, false) {
        Assessment::Override { allow, target_text } => {
            assert!(!allow);
            assert_eq!(target_text, "quoted");
        }
        other => panic!("unexpected assessment: {:?}", discriminant_name(&other)),
    }
}

#[test]
fn command_text_is_trimmed() {
    let e = text_event("  /allow \n", Some(ReplyTarget::Text("quoted".to_string())));
    assert!(matches!(assess(&e, false), Assessment::Override { allow: true, .. }));
}

#[test]
fn override_runs_even_when_replies_are_exempt() {
    let e = text_event("/forbid", Some(ReplyTarget::Text("quoted".to_string())));
    assert!(matches!(assess(&e, true), Assessment::Override { allow: false, .. }));
}

#[test]
fn non_command_reply_follows_the_exemption_toggle() {
    let e = text_event("echoing you", Some(ReplyTarget::Text("quoted".to_string())));
    assert!(matches!(assess(&e, true), Assessment::Ignore));
    assert!(matches!(assess(&e, false), Assessment::Dedup { .. }));
}

#[test]
fn allow_reply_to_non_text_is_ordinary_dedup() {
    let e = text_event("/allow", Some(ReplyTarget::NonText));
    match assess(&e, false) {
        Assessment::Dedup { text } => assert_eq!(text, "/allow"),
        other => panic!("unexpected assessment: {:?}", discriminant_name(&other)),
    }
}

#[test]
fn message_without_sender_is_ignored() {
    let mut e = text_event("anything", None);
    e.sender = None;
    assert!(matches!(assess(&e, false), Assessment::Ignore));
}

#[test]
fn import_caption_starts_an_import() {
    let e = Event {
        channel_id: 10,
        message_id: 20,
        sender: Some(30),
        chat_is_private: false,
        content: Content::Document { declared_size: 1234, caption: Some(" /import ".to_string()) },
    };
    match assess(&e, false) {
        Assessment::Import { declared_size } => assert_eq!(declared_size, 1234),
        other => panic!("unexpected assessment: {:?}", discriminant_name(&other)),
    }
}

#[test]
fn document_with_other_caption_is_ignored() {
    let e = Event {
        channel_id: 10,
        message_id: 20,
        sender: Some(30),
        chat_is_private: false,
        content: Content::Document { declared_size: 1234, caption: Some("holiday pictures".to_string()) },
    };
    assert!(matches!(assess(&e, false), Assessment::Ignore));
    let no_caption = Event {
        channel_id: 10,
        message_id: 20,
        sender: Some(30),
        chat_is_private: false,
        content: Content::Document { declared_size: 1234, caption: None },
    };
    assert!(matches!(assess(&no_caption, false), Assessment::Ignore));
}

#[test]
fn unsupported_media_is_ignored() {
    let e = Event {
        channel_id: 10,
        message_id: 20,
        sender: Some(30),
        chat_is_private: false,
        content: Content::Unsupported,
    };
    assert!(matches!(assess(&e, false), Assessment::Ignore));
}

#[test]
fn privilege_rules() {
    assert!(is_privileged(true, false));
    assert!(is_privileged(true, true));
    assert!(is_privileged(false, true));
    assert!(!is_privileged(false, false));
    assert!(needs_capability_lookup(false));
    assert!(!needs_capability_lookup(true));
}

fn discriminant_name(a: &Assessment) -> &'static str {
    match a {
        Assessment::Ignore => "Ignore",
        Assessment::Dedup { .. } => "Dedup",
        Assessment::Override { .. } => "Override",
        Assessment::Import { .. } => "Import",
    }
}
