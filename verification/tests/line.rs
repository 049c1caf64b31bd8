use matrix_room::buffer::Buffer;
use matrix_room::connection::CHANNEL_CAPACITY;
use matrix_room::events::{
    AnyMessageEventContent, EventId, MessageType, RoomMessageEventContent, UserId,
};
use matrix_room::line::{append_texts, contains_text, copy_texts, Line};
use matrix_room::redaction::RedactionStyle;
use matrix_room::render::{
    is_renderable, is_renderable_type, RenderedContent, RenderedEvent, RenderedLine,
};

fn strings(list: &[&str]) -> Vec<String> {
    list.iter().map(|t| t.to_string()).collect()
}

fn line(tags: &[&str], message: &str) -> Line {
    Line {
        date: 3,
        date_printed: 4,
        tags: strings(tags),
        prefix: "p".to_string(),
        message: message.to_string(),
    }
}

fn rendered(lines: &[(&str, &[&str])]) -> RenderedEvent {
    RenderedEvent {
        prefix: "nick".to_string(),
        message_timestamp: 12,
        content: RenderedContent {
            lines: lines
                .iter()
                .map(|(m, t)| RenderedLine { message: m.to_string(), tags: strings(t) })
                .collect(),
        },
    }
}

#[test]
fn a_text_is_found_among_strings_only_as_a_whole() {
    let tags = strings(&["matrix_id_A", "self_msg"]);
    assert!(contains_text(&tags, &"self_msg".to_string()));
    assert!(contains_text(&tags, &"matrix_id_A".to_string()));
    assert!(!contains_text(&tags, &"matrix_id_".to_string()));
    assert!(!contains_text(&tags, &"matrix_id_AB".to_string()));
    assert!(!contains_text(&Vec::new(), &"".to_string()));
}

#[test]
fn texts_are_copied_and_appended_in_order() {
    let tags = strings(&["a", "b"]);
    assert_eq!(copy_texts(&tags), tags);
    assert_eq!(copy_texts(&Vec::new()), Vec::<String>::new());
    let mut more = strings(&["x"]);
    append_texts(&mut more, &tags);
    assert_eq!(more, strings(&["x", "a", "b"]));
    append_texts(&mut more, &Vec::new());
    assert_eq!(more, strings(&["x", "a", "b"]));
}

#[test]
fn a_line_knows_its_tags_and_copies_itself() {
    let l = line(&["matrix_id_A", "matrix_redacted"], "m");
    assert!(l.has_tag(&"matrix_id_A".to_string()));
    assert!(!l.has_tag(&"matrix_id_B".to_string()));
    assert_eq!(l.duplicate(), l);
    assert_eq!(l.with_message(&"other".to_string()), line(&["matrix_id_A", "matrix_redacted"], "other"));
}

#[test]
fn a_line_is_redactable_if_it_is_of_the_event_and_untouched() {
    let tag = "matrix_id_A".to_string();
    assert!(line(&["matrix_id_A"], "m").is_redactable(&tag));
    assert!(!line(&["matrix_id_A", "matrix_redacted"], "m").is_redactable(&tag));
    assert!(!line(&["matrix_id_B"], "m").is_redactable(&tag));
    assert!(!line(&[], "m").is_redactable(&tag));
}

#[test]
fn a_redacted_line_gains_the_tag_and_the_new_message() {
    let l = line(&["matrix_id_A"], "m");
    assert_eq!(
        l.redacted(RedactionStyle::Delete, true, "notice"),
        line(&["matrix_id_A", "matrix_redacted"], "notice")
    );
    assert_eq!(
        l.redacted(RedactionStyle::StrikeThrough, false, "notice"),
        line(&["matrix_id_A", "matrix_redacted"], "m\u{0336}")
    );
}

#[test]
fn the_range_of_a_redaction_is_the_last_unbroken_run() {
    let a = EventId("A".to_string());
    let buffer = Buffer {
        lines: vec![
            line(&["matrix_id_A"], "far"),
            line(&["matrix_id_B"], "between"),
            line(&["matrix_id_A"], "one"),
            line(&["matrix_id_A"], "two"),
            line(&["matrix_id_A", "matrix_redacted"], "done"),
            line(&[], "after"),
        ],
    };
    assert_eq!(buffer.redaction_range(&a), Some((2, 3)));
    assert_eq!(buffer.redaction_range(&EventId("B".to_string())), Some((1, 1)));
    assert_eq!(buffer.redaction_range(&EventId("C".to_string())), None);
    assert_eq!(Buffer::new().redaction_range(&a), None);
    let whole = Buffer { lines: vec![line(&["matrix_id_A"], "1"), line(&["matrix_id_A"], "2")] };
    assert_eq!(whole.redaction_range(&a), Some((0, 1)));
}

#[test]
fn a_line_is_overwritten_with_the_rendered_line_of_its_rank() {
    let l = line(&["old"], "old message");
    let r = rendered(&[("first", &["t1"]), ("second", &["t2", "t3"])]);
    assert_eq!(
        l.overwritten_with(&r, 1),
        Line {
            date: 3,
            date_printed: 4,
            tags: strings(&["t2", "t3"]),
            prefix: "nick".to_string(),
            message: "second".to_string(),
        }
    );
    assert_eq!(l.overwritten_with(&r, 2), line(&["old"], ""));
}

#[test]
fn tags_are_added_at_the_end_of_each_line() {
    let r = rendered(&[("first", &["t1"]), ("second", &[])]);
    let extra = strings(&["x", "y"]);
    let tagged = r.tagged(&extra);
    assert_eq!(tagged, rendered(&[("first", &["t1", "x", "y"]), ("second", &["x", "y"])]));
    assert_eq!(
        r.clone().add_self_tags(),
        rendered(&[
            ("first", &["t1", "notify_none", "no_highlight", "self_msg"]),
            ("second", &["notify_none", "no_highlight", "self_msg"])
        ])
    );
    assert_eq!(
        r.clone().add_msg_tags(),
        rendered(&[("first", &["t1", "notify_message"]), ("second", &["notify_message"])])
    );
    assert_eq!(
        r.identified(&EventId("$e".to_string()), &UserId("@u:x".to_string())),
        rendered(&[
            ("first", &["t1", "matrix_id_$e", "matrix_sender_@u:x"]),
            ("second", &["matrix_id_$e", "matrix_sender_@u:x"])
        ])
    );
    assert_eq!(rendered(&[]).add_self_tags(), rendered(&[]));
}

#[test]
fn messages_of_a_known_kind_and_encrypted_events_are_shown() {
    assert!(is_renderable_type(MessageType::Text));
    assert!(is_renderable_type(MessageType::Image));
    assert!(!is_renderable_type(MessageType::VerificationRequest));
    assert!(!is_renderable_type(MessageType::Other));
    assert!(is_renderable(&AnyMessageEventContent::RoomEncrypted));
    assert!(!is_renderable(&AnyMessageEventContent::KeyVerificationDone));
    assert!(!is_renderable(&AnyMessageEventContent::Other));
    assert!(is_renderable(&AnyMessageEventContent::RoomMessage(RoomMessageEventContent::text(
        "hi".to_string(),
        None
    ))));
}

#[test]
fn a_text_message_is_built_from_body_and_markup() {
    assert_eq!(
        RoomMessageEventContent::text("*hi*".to_string(), Some("<em>hi</em>".to_string())),
        RoomMessageEventContent {
            msgtype: MessageType::Text,
            body: "*hi*".to_string(),
            formatted_body: Some("<em>hi</em>".to_string()),
            url: None,
            relates_to: None,
        }
    );
}

#[test]
fn the_channel_holds_ten_thousand_envelopes() {
    assert_eq!(CHANNEL_CAPACITY, 10_000);
}
