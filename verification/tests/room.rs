use matrix_room::buffer::Buffer;
use matrix_room::events::{
    AnyMessageEvent, AnyMessageEventContent, AnyRedactedSyncMessageEvent, AnyRoomEvent,
    AnySyncMessageEvent, AnySyncRoomEvent, AnySyncStateEvent, EventId, MemberEvent, MessageType,
    Relation, Replacement, ReplacementContent, RoomId, RoomMessageEventContent, UserId,
};
use matrix_room::line::Line;
use matrix_room::pagination::PrevBatch;
use matrix_room::redaction::RedactionStyle;
use matrix_room::render::{RenderedContent, RenderedEvent, RenderedLine};
use matrix_room::room::MatrixRoom;
use matrix_room::state::{
    Confirmation, HistoricalEvent, Messages, RoomInfo, StateAction, SyncAction,
};
use matrix_room::transaction::{echo_tag_text, transaction_id_text};
use url::Url;

const OWN: &str = "@me:example.org";
const ALICE: &str = "@alice:example.org";

fn info(last_prev_batch: Option<&str>) -> RoomInfo {
    RoomInfo {
        encrypted: false,
        public: true,
        direct: false,
        canonical_alias: None,
        topic: None,
        last_prev_batch: last_prev_batch.map(|t| t.to_string()),
    }
}

fn room(last_prev_batch: Option<&str>) -> MatrixRoom {
    MatrixRoom::new(
        Url::parse("https://example.org").unwrap(),
        RoomId("!room:example.org".to_string()),
        UserId(OWN.to_string()),
        info(last_prev_batch),
    )
}

fn text(body: &str) -> RoomMessageEventContent {
    RoomMessageEventContent {
        msgtype: MessageType::Text,
        body: body.to_string(),
        formatted_body: None,
        url: None,
        relates_to: None,
    }
}

fn rendered(timestamp: i64, lines: &[&str]) -> RenderedEvent {
    RenderedEvent {
        prefix: "nick".to_string(),
        message_timestamp: timestamp,
        content: RenderedContent {
            lines: lines
                .iter()
                .map(|m| RenderedLine { message: m.to_string(), tags: vec!["matrix_text".to_string()] })
                .collect(),
        },
    }
}

fn live(id: &str, sender: &str, content: AnyMessageEventContent) -> AnySyncMessageEvent {
    AnySyncMessageEvent {
        event_id: EventId(id.to_string()),
        sender: UserId(sender.to_string()),
        origin_server_ts: 5000,
        transaction_id: None,
        content,
    }
}

fn historical(id: &str, content: AnyMessageEventContent, lines: Option<(i64, &[&str])>) -> Option<HistoricalEvent> {
    Some(HistoricalEvent {
        event: AnyRoomEvent::Message(AnyMessageEvent {
            room_id: RoomId("!room:example.org".to_string()),
            event_id: EventId(id.to_string()),
            sender: UserId(ALICE.to_string()),
            origin_server_ts: 5000,
            content,
        }),
        rendered: lines.map(|(ts, l)| rendered(ts, l)),
    })
}

fn lines(room: &MatrixRoom) -> &Vec<Line> {
    &room.buffer_handle().as_ref().unwrap().lines
}

fn messages(room: &MatrixRoom) -> Vec<String> {
    lines(room).iter().map(|l| l.message.clone()).collect()
}

fn tags(list: &[&str]) -> Vec<String> {
    list.iter().map(|t| t.to_string()).collect()
}

#[test]
fn a_new_room_pages_backwards_from_its_last_batch() {
    let room = room(Some("tok"));
    assert_eq!(room.prev_batch(), &Some(PrevBatch::Backwards("tok".to_string())));
    assert!(!room.is_busy());
    assert_eq!(room.outgoing_messages().len(), 0);
    assert_eq!(room.buffer_handle(), &Some(Buffer::new()));
    assert_eq!(room.room_id(), &RoomId("!room:example.org".to_string()));
    assert_eq!(room.own_user_id(), &UserId(OWN.to_string()));
    assert_eq!(room.homeserver().as_str(), "https://example.org/");
    assert_eq!(room.room(), &info(Some("tok")));
}

#[test]
fn a_new_room_without_a_batch_has_no_cursor() {
    assert_eq!(room(None).prev_batch(), &None);
}

#[test]
fn a_restored_room_fetches_forwards_first() {
    let room = MatrixRoom::restore(
        Url::parse("https://example.org").unwrap(),
        RoomId("!room:example.org".to_string()),
        UserId(OWN.to_string()),
        info(Some("tok")),
    );
    assert_eq!(room.prev_batch(), &Some(PrevBatch::Forward("tok".to_string())));
    assert!(!room.is_busy());
    assert_eq!(room.buffer_handle(), &Some(Buffer::new()));
    let without = MatrixRoom::restore(
        Url::parse("https://example.org").unwrap(),
        RoomId("!room:example.org".to_string()),
        UserId(OWN.to_string()),
        info(None),
    );
    assert_eq!(without.prev_batch(), &None);
}

#[test]
fn the_room_tells_what_is_known_of_it() {
    let mut room = room(None);
    assert!(!room.is_encrypted());
    assert!(room.is_public());
    assert!(!room.is_direct());
    assert_eq!(room.alias(), &None);
    room.update_room(RoomInfo {
        encrypted: true,
        public: false,
        direct: true,
        canonical_alias: Some("#room:example.org".to_string()),
        topic: Some("topic".to_string()),
        last_prev_batch: None,
    });
    assert!(room.is_encrypted());
    assert!(!room.is_public());
    assert!(room.is_direct());
    assert_eq!(room.alias(), &Some("#room:example.org".to_string()));
    assert_eq!(room.room().topic, Some("topic".to_string()));
}

#[test]
fn resetting_forgets_the_cursor() {
    let mut room = room(Some("tok"));
    room.reset_prev_batch();
    assert_eq!(room.prev_batch(), &None);
    assert!(room.get_messages(true).is_none());
    assert!(!room.is_busy());
}

#[test]
fn printing_on_a_detached_display_does_nothing() {
    let mut room = room(None);
    room.set_buffer(None);
    room.print_rendered_event(&rendered(1, &["x"]), 2);
    assert_eq!(room.buffer_handle(), &None);
    room.sort_messages();
    assert_eq!(room.buffer_handle(), &None);
    room.set_buffer(Some(Buffer::new()));
    room.print_rendered_event(&rendered(1, &["x"]), 2);
    assert_eq!(messages(&room), vec!["x"]);
}

#[test]
fn rendering_tags_the_lines_with_event_and_sender() {
    let room = room(None);
    let id = EventId("$e".to_string());
    let sender = UserId(ALICE.to_string());
    let tagged = room.render_message_content(&id, &sender, true, &Some(rendered(1, &["a", "b"]))).unwrap();
    for line in &tagged.content.lines {
        assert_eq!(line.tags, tags(&["matrix_text", "matrix_id_$e", "matrix_sender_@alice:example.org"]));
    }
    assert_eq!(tagged.prefix, "nick");
    assert_eq!(tagged.message_timestamp, 1);
    assert_eq!(tagged.content.lines[1].message, "b");
    assert!(room.render_message_content(&id, &sender, false, &Some(rendered(1, &["a"]))).is_none());
    assert!(room.render_message_content(&id, &sender, true, &None).is_none());
}

#[test]
fn live_rendering_says_whose_message_it_is() {
    let room = room(None);
    let content = || AnyMessageEventContent::RoomMessage(text("hi"));
    let other = room.render_sync_message(&live("$e", ALICE, content()), &Some(rendered(1, &["hi"]))).unwrap();
    assert_eq!(
        other.content.lines[0].tags,
        tags(&["matrix_text", "matrix_id_$e", "matrix_sender_@alice:example.org", "notify_message"])
    );
    let own = room.render_sync_message(&live("$e", OWN, content()), &Some(rendered(1, &["hi"]))).unwrap();
    assert_eq!(
        own.content.lines[0].tags,
        tags(&[
            "matrix_text",
            "matrix_id_$e",
            "matrix_sender_@me:example.org",
            "notify_none",
            "no_highlight",
            "self_msg"
        ])
    );
}

#[test]
fn content_that_is_not_shown_has_no_rendering() {
    let room = room(None);
    let some = Some(rendered(1, &["x"]));
    let mut request = text("verify");
    request.msgtype = MessageType::VerificationRequest;
    let mut unknown = text("?");
    unknown.msgtype = MessageType::Other;
    for content in [
        AnyMessageEventContent::RoomMessage(request),
        AnyMessageEventContent::RoomMessage(unknown),
        AnyMessageEventContent::KeyVerificationStart,
        AnyMessageEventContent::RoomRedaction { redacts: EventId("$x".to_string()), reason: None },
        AnyMessageEventContent::Other,
    ] {
        assert!(room.render_sync_message(&live("$e", ALICE, content), &some).is_none());
    }
    assert!(room
        .render_sync_message(&live("$e", ALICE, AnyMessageEventContent::RoomEncrypted), &some)
        .is_some());
    for msgtype in [
        MessageType::Audio,
        MessageType::Emote,
        MessageType::File,
        MessageType::Image,
        MessageType::Location,
        MessageType::Notice,
        MessageType::ServerNotice,
        MessageType::Text,
        MessageType::Video,
    ] {
        let mut message = text("m");
        message.msgtype = msgtype;
        let event = live("$e", ALICE, AnyMessageEventContent::RoomMessage(message));
        assert!(room.render_sync_message(&event, &some).is_some());
    }
}

#[test]
fn sending_with_local_echo_shows_the_echo_and_confirmation_rewrites_it() {
    let mut room = room(None);
    let t1 = room.send_message(text("hi"), true, true, &Some(rendered(7, &["hi"])), 8).unwrap();
    assert_eq!(lines(&room).len(), 1);
    let echo = lines(&room)[0].clone();
    assert_eq!(echo.message, "hi");
    assert_eq!(echo.date, 7);
    assert_eq!(echo.date_printed, 8);
    let mut expected = tags(&["matrix_text"]);
    expected.push(echo_tag_text(t1));
    expected.extend(tags(&["notify_none", "no_highlight", "self_msg"]));
    assert_eq!(echo.tags, expected);
    assert!(room.outgoing_messages().contains(t1));

    let mut event = live("E1", OWN, AnyMessageEventContent::RoomMessage(text("hi")));
    event.transaction_id = Some(transaction_id_text(t1));
    let action = room.handle_sync_room_event(&AnySyncRoomEvent::Message(event), 9000);
    assert!(!room.outgoing_messages().contains(t1));
    let confirmation = match action {
        SyncAction::Confirm(c) => c,
        other => panic!("{:?}", other),
    };
    assert_eq!(
        confirmation,
        Confirmation {
            uuid: t1,
            echo: true,
            event: AnySyncMessageEvent {
                event_id: EventId("E1".to_string()),
                sender: UserId(OWN.to_string()),
                origin_server_ts: 9000,
                transaction_id: None,
                content: AnyMessageEventContent::RoomMessage(text("hi")),
            },
        }
    );
    room.finish_outgoing_message(&confirmation, &Some(rendered(9, &["hi, as the server has it"])), 10);
    assert_eq!(lines(&room).len(), 1);
    assert_eq!(lines(&room)[0].message, "hi, as the server has it");
    assert_eq!(lines(&room)[0].tags, expected);
    assert_eq!(lines(&room)[0].date, 7);
}

#[test]
fn sending_without_local_echo_prints_at_confirmation() {
    let mut room = room(None);
    let uuid = room.send_message(text("hi"), true, false, &Some(rendered(7, &["hi"])), 8).unwrap();
    assert_eq!(lines(&room).len(), 0);
    let confirmation = room.handle_outgoing_message(uuid, EventId("E1".to_string()), 9000).unwrap();
    assert!(!confirmation.echo);
    room.finish_outgoing_message(&confirmation, &Some(rendered(9, &["hi"])), 10);
    assert_eq!(messages(&room), vec!["hi"]);
    assert_eq!(
        lines(&room)[0].tags,
        tags(&[
            "matrix_text",
            "matrix_id_E1",
            "matrix_sender_@me:example.org",
            "notify_none",
            "no_highlight",
            "self_msg"
        ])
    );
    assert_eq!(lines(&room)[0].date, 9);
    assert_eq!(lines(&room)[0].date_printed, 10);
}

#[test]
fn only_text_messages_get_a_local_echo() {
    let mut room = room(None);
    let mut image = text("image.png");
    image.msgtype = MessageType::Image;
    room.queue_outgoing_message(1, image, true, &Some(rendered(7, &["image"])), 8);
    assert_eq!(lines(&room).len(), 0);
    assert!(!room.handle_outgoing_message(1, EventId("E".to_string()), 1).unwrap().echo);
    room.queue_outgoing_message(2, text("no rendering"), true, &None, 8);
    assert_eq!(lines(&room).len(), 0);
    assert!(!room.handle_outgoing_message(2, EventId("E".to_string()), 1).unwrap().echo);
    room.queue_outgoing_message(3, text("echoed"), true, &Some(rendered(7, &["echoed", "twice"])), 8);
    assert_eq!(messages(&room), vec!["echoed", "twice"]);
    assert!(room.handle_outgoing_message(3, EventId("E".to_string()), 1).unwrap().echo);
}

#[test]
fn sending_without_a_connection_tells_the_user() {
    let mut room = room(None);
    assert_eq!(room.send_message(text("hi"), false, true, &Some(rendered(7, &["hi"])), 8), None);
    assert_eq!(room.outgoing_messages().len(), 0);
    assert_eq!(
        lines(&room),
        &vec![Line {
            date: 8,
            date_printed: 8,
            tags: vec![],
            prefix: String::new(),
            message: "Error not connected".to_string(),
        }]
    );
}

#[test]
fn a_message_is_confirmed_once_whichever_confirmation_comes_first() {
    // The answer to the sending comes first, the live event second.
    let mut room1 = room(None);
    room1.queue_outgoing_message(5, text("hi"), false, &None, 8);
    assert!(room1.handle_outgoing_message(5, EventId("E1".to_string()), 9000).is_some());
    let mut event = live("E1", OWN, AnyMessageEventContent::RoomMessage(text("hi")));
    event.transaction_id = Some(transaction_id_text(5));
    assert_eq!(room1.handle_room_message(&event, 9001), SyncAction::Nothing);
    assert_eq!(room1.outgoing_messages().len(), 0);

    // The live event comes first, the answer second.
    let mut room2 = room(None);
    room2.queue_outgoing_message(5, text("hi"), false, &None, 8);
    assert!(matches!(room2.handle_room_message(&event, 9001), SyncAction::Confirm(_)));
    assert_eq!(room2.handle_outgoing_message(5, EventId("E1".to_string()), 9000), None);

    // The sending fails: nothing is confirmed afterwards.
    let mut room3 = room(None);
    room3.queue_outgoing_message(5, text("hi"), true, &Some(rendered(7, &["hi"])), 8);
    room3.handle_send_failure(5);
    assert!(!room3.outgoing_messages().contains(5));
    assert_eq!(room3.handle_outgoing_message(5, EventId("E1".to_string()), 9000), None);
    assert_eq!(room3.handle_room_message(&event, 9001), SyncAction::Nothing);
    // The echo of the failed message stays as it is.
    assert_eq!(messages(&room3), vec!["hi"]);
}

#[test]
fn a_confirmation_without_a_rendering_changes_nothing() {
    let mut room = room(None);
    room.queue_outgoing_message(5, text("hi"), true, &Some(rendered(7, &["hi"])), 8);
    let confirmation = room.handle_outgoing_message(5, EventId("E1".to_string()), 9000).unwrap();
    room.finish_outgoing_message(&confirmation, &None, 10);
    assert_eq!(messages(&room), vec!["hi"]);
}

#[test]
fn live_events_are_routed_by_what_they_are() {
    let mut room = room(None);
    let redaction = live(
        "$r",
        ALICE,
        AnyMessageEventContent::RoomRedaction { redacts: EventId("$e".to_string()), reason: None },
    );
    assert_eq!(room.handle_room_message(&redaction, 1), SyncAction::Redact);
    let mut edit = text("* new");
    edit.relates_to = Some(Relation::Replacement(Replacement {
        event_id: EventId("$e".to_string()),
        new_content: ReplacementContent {
            msgtype: MessageType::Text,
            body: "new".to_string(),
            formatted_body: None,
            url: None,
        },
    }));
    assert_eq!(
        room.handle_room_message(&live("$2", ALICE, AnyMessageEventContent::RoomMessage(edit)), 1),
        SyncAction::Edit
    );
    assert_eq!(
        room.handle_room_message(&live("$3", ALICE, AnyMessageEventContent::RoomMessage(text("x"))), 1),
        SyncAction::Print
    );
    let mut foreign = live("$4", ALICE, AnyMessageEventContent::RoomMessage(text("x")));
    foreign.transaction_id = Some("not-an-identifier".to_string());
    assert_eq!(room.handle_room_message(&foreign, 1), SyncAction::Print);
    assert_eq!(
        room.handle_sync_room_event(
            &AnySyncRoomEvent::RedactedMessage(AnyRedactedSyncMessageEvent::RoomMessage {
                event_id: EventId("$5".to_string()),
                sender: UserId(ALICE.to_string()),
                origin_server_ts: 1,
                redacted_by: Some(UserId(OWN.to_string())),
            }),
            1
        ),
        SyncAction::PrintRedacted
    );
    assert_eq!(
        room.handle_sync_room_event(&AnySyncRoomEvent::RedactedMessage(AnyRedactedSyncMessageEvent::Other), 1),
        SyncAction::Nothing
    );
    assert_eq!(room.handle_sync_room_event(&AnySyncRoomEvent::RedactedState, 1), SyncAction::Nothing);
    assert_eq!(
        room.handle_sync_room_event(&AnySyncRoomEvent::State(AnySyncStateEvent::RoomTopic), 1),
        SyncAction::State(StateAction::SetTopic)
    );
    assert_eq!(lines(&room).len(), 0);
}

#[test]
fn a_transaction_of_this_client_comes_before_everything_else() {
    let mut room = room(None);
    room.queue_outgoing_message(5, text("hi"), false, &None, 8);
    let mut redaction = live(
        "$r",
        OWN,
        AnyMessageEventContent::RoomRedaction { redacts: EventId("$e".to_string()), reason: None },
    );
    redaction.transaction_id = Some(transaction_id_text(5));
    assert!(matches!(room.handle_room_message(&redaction, 1), SyncAction::Confirm(_)));
    assert_eq!(room.route_message(&redaction, Some(5), 1), SyncAction::Nothing);
    assert_eq!(room.route_message(&redaction, None, 1), SyncAction::Redact);
}

#[test]
fn state_events_ask_for_a_refresh() {
    let mut room = room(None);
    assert_eq!(room.handle_sync_state_event(&AnySyncStateEvent::RoomName, false), StateAction::UpdateBufferName);
    assert_eq!(room.handle_sync_state_event(&AnySyncStateEvent::RoomTopic, true), StateAction::SetTopic);
    assert_eq!(room.handle_sync_state_event(&AnySyncStateEvent::RoomCanonicalAlias, false), StateAction::Nothing);
    assert_eq!(room.handle_sync_state_event(&AnySyncStateEvent::Other, false), StateAction::Nothing);
    let member = MemberEvent {
        event_id: EventId("$m".to_string()),
        sender: UserId(ALICE.to_string()),
        state_key: UserId(ALICE.to_string()),
        has_content: true,
    };
    assert_eq!(
        room.handle_sync_state_event(&AnySyncStateEvent::RoomMember(member.clone()), false),
        StateAction::Nothing
    );
    let mut with_alias = info(None);
    with_alias.canonical_alias = Some("#a:example.org".to_string());
    room.update_room(with_alias);
    assert_eq!(room.handle_sync_state_event(&AnySyncStateEvent::RoomCanonicalAlias, false), StateAction::SetAlias);
    assert!(room.handle_membership_event(&member, false));
    assert!(!room.handle_membership_event(&member, true));
}

#[test]
fn a_live_event_on_an_empty_display_seeds_the_cursor_anew() {
    let mut room = room(Some("tok"));
    room.reset_prev_batch();
    room.handle_sync_room_event(&AnySyncRoomEvent::RedactedState, 1);
    assert_eq!(room.prev_batch(), &Some(PrevBatch::Backwards("tok".to_string())));

    room.reset_prev_batch();
    room.print_rendered_event(&rendered(1, &["x"]), 2);
    room.handle_sync_room_event(&AnySyncRoomEvent::RedactedState, 1);
    assert_eq!(room.prev_batch(), &None);

    room.set_buffer(None);
    room.set_prev_batch();
    assert_eq!(room.prev_batch(), &None);

    room.set_buffer(Some(Buffer::new()));
    room.update_room(info(None));
    room.reset_prev_batch();
    room.set_prev_batch();
    assert_eq!(room.prev_batch(), &None);
}

#[test]
fn a_redaction_with_notice_keeps_the_message_and_adds_the_notice() {
    let mut room = room(None);
    room.set_buffer(Some(Buffer {
        lines: vec![Line {
            date: 100,
            date_printed: 100,
            tags: tags(&["matrix_id_A"]),
            prefix: "alice".to_string(),
            message: "hello there".to_string(),
        }],
    }));
    let redaction = live(
        "$r",
        "@mod:example.org",
        AnyMessageEventContent::RoomRedaction {
            redacts: EventId("A".to_string()),
            reason: Some("spam".to_string()),
        },
    );
    room.redact_event(&redaction, &Some("moderator".to_string()), RedactionStyle::Notice);
    assert_eq!(messages(&room), vec!["hello there message redacted by moderator, reason: spam"]);
    assert_eq!(lines(&room)[0].tags, tags(&["matrix_id_A", "matrix_redacted"]));
    let once = lines(&room).clone();
    room.redact_event(&redaction, &Some("moderator".to_string()), RedactionStyle::Notice);
    assert_eq!(lines(&room), &once);
}

#[test]
fn a_redaction_needs_a_known_redacter_and_a_redaction_event() {
    let mut room = room(None);
    let line = Line {
        date: 100,
        date_printed: 100,
        tags: tags(&["matrix_id_A"]),
        prefix: "alice".to_string(),
        message: "hello there".to_string(),
    };
    room.set_buffer(Some(Buffer { lines: vec![line.clone()] }));
    let redaction = live(
        "$r",
        ALICE,
        AnyMessageEventContent::RoomRedaction { redacts: EventId("A".to_string()), reason: None },
    );
    room.redact_event(&redaction, &None, RedactionStyle::Delete);
    assert_eq!(lines(&room), &vec![line.clone()]);
    room.redact_event(
        &live("A", ALICE, AnyMessageEventContent::RoomMessage(text("x"))),
        &Some("alice".to_string()),
        RedactionStyle::Delete,
    );
    assert_eq!(lines(&room), &vec![line]);
    room.set_buffer(None);
    room.redact_event(&redaction, &Some("alice".to_string()), RedactionStyle::Delete);
    assert_eq!(room.buffer_handle(), &None);
}

fn edit_of(target: &str, sender: &str, msgtype: MessageType) -> AnySyncMessageEvent {
    let mut content = text("* new");
    content.relates_to = Some(Relation::Replacement(Replacement {
        event_id: EventId(target.to_string()),
        new_content: ReplacementContent {
            msgtype,
            body: "new".to_string(),
            formatted_body: None,
            url: None,
        },
    }));
    live("$edit", sender, AnyMessageEventContent::RoomMessage(content))
}

#[test]
fn an_edit_replaces_the_lines_of_the_event() {
    let mut room = room(None);
    let first = live("A", ALICE, AnyMessageEventContent::RoomMessage(text("old")));
    room.print_sync_message(&first, &Some(rendered(100, &["old"])), 101);
    room.print_sync_message(
        &live("B", OWN, AnyMessageEventContent::RoomMessage(text("mine"))),
        &Some(rendered(200, &["mine"])),
        201,
    );
    room.handle_edits(&edit_of("A", ALICE, MessageType::Text), &Some(rendered(300, &["new", "and more"])), 301);
    assert_eq!(messages(&room), vec!["new", "and more", "mine"]);
    let dates: Vec<i64> = lines(&room).iter().map(|l| l.date).collect();
    assert_eq!(dates, vec![100, 100, 200]);
    let expected =
        tags(&["matrix_text", "matrix_id_A", "matrix_sender_@alice:example.org", "notify_message"]);
    assert_eq!(lines(&room)[0].tags, expected);
    assert_eq!(lines(&room)[1].tags, expected);
    assert_eq!(lines(&room)[1].date_printed, 301);
}

#[test]
fn an_edit_by_another_user_leaves_the_display_as_it_is() {
    let mut room = room(None);
    let first = live("A", ALICE, AnyMessageEventContent::RoomMessage(text("old")));
    room.print_sync_message(&first, &Some(rendered(100, &["old"])), 101);
    let before = lines(&room).clone();
    room.handle_edits(&edit_of("A", "@mallory:example.org", MessageType::Text), &Some(rendered(300, &["x", "y"])), 301);
    assert_eq!(lines(&room), &before);
    // Nor does an event that is no edit, an edit without a rendering, or
    // one of a kind that is not shown change anything.
    room.handle_edits(&first, &Some(rendered(300, &["x"])), 301);
    room.handle_edits(&edit_of("A", ALICE, MessageType::Text), &None, 301);
    room.handle_edits(&edit_of("A", ALICE, MessageType::Other), &Some(rendered(300, &["x"])), 301);
    assert_eq!(lines(&room), &before);
}

#[test]
fn redacted_messages_are_printed_as_rendered() {
    let mut room = room(None);
    let event = AnyRedactedSyncMessageEvent::RoomMessage {
        event_id: EventId("$5".to_string()),
        sender: UserId(ALICE.to_string()),
        origin_server_ts: 1,
        redacted_by: None,
    };
    room.handle_redacted_events(&event, &Some(rendered(5, &["<redacted>"])), 6);
    assert_eq!(messages(&room), vec!["<redacted>"]);
    assert_eq!(lines(&room)[0].tags, tags(&["matrix_text"]));
    room.handle_redacted_events(&event, &None, 6);
    room.handle_redacted_events(&AnyRedactedSyncMessageEvent::Other, &Some(rendered(5, &["no"])), 6);
    assert_eq!(messages(&room), vec!["<redacted>"]);
}

#[test]
fn history_is_requested_once_at_a_time() {
    let mut room = room(Some("tok1"));
    let request = room.get_messages(true).unwrap();
    assert_eq!(request.prev_batch(), &PrevBatch::Backwards("tok1".to_string()));
    assert!(room.is_busy());
    assert!(room.get_messages(true).is_none());
    assert!(room.is_busy());
    assert_eq!(room.prev_batch(), &Some(PrevBatch::Backwards("tok1".to_string())));
    room.receive_messages(request, None, 1);
    assert!(!room.is_busy());
    assert_eq!(room.prev_batch(), &Some(PrevBatch::Backwards("tok1".to_string())));
    assert!(room.get_messages(true).is_some());
}

#[test]
fn no_history_is_requested_without_a_connection() {
    let mut room = room(Some("tok1"));
    assert!(room.get_messages(false).is_none());
    assert!(!room.is_busy());
    assert!(room.get_messages(true).is_some());
}

#[test]
fn an_empty_page_ends_the_history() {
    let mut room = room(Some("tok1"));
    room.print_rendered_event(&rendered(9, &["late"]), 1);
    room.print_rendered_event(&rendered(3, &["early"]), 1);
    let request = room.get_messages(true).unwrap();
    room.receive_messages(request, Some(Messages { chunk: vec![], end: Some("tok2".to_string()) }), 1);
    assert_eq!(room.prev_batch(), &None);
    assert!(!room.is_busy());
    // The display is not sorted after an empty page.
    assert_eq!(messages(&room), vec!["late", "early"]);
    assert!(room.get_messages(true).is_none());
    assert!(!room.is_busy());
}

#[test]
fn a_page_is_printed_sorted_and_moves_the_cursor() {
    let mut room = room(Some("tok1"));
    room.print_rendered_event(&rendered(50, &["live"]), 51);
    let request = room.get_messages(true).unwrap();
    let mut edit = text("* e");
    edit.relates_to = Some(Relation::Replacement(Replacement {
        event_id: EventId("$h1".to_string()),
        new_content: ReplacementContent {
            msgtype: MessageType::Text,
            body: "e".to_string(),
            formatted_body: None,
            url: None,
        },
    }));
    let page = Messages {
        chunk: vec![
            historical("$h2", AnyMessageEventContent::RoomMessage(text("h2")), Some((20, &["second"]))),
            None,
            historical("$h3", AnyMessageEventContent::RoomMessage(edit), Some((30, &["edit"]))),
            historical("$h1", AnyMessageEventContent::RoomMessage(text("h1")), Some((10, &["first", "more"]))),
            historical("$h4", AnyMessageEventContent::Other, Some((40, &["unknown"]))),
            historical("$h5", AnyMessageEventContent::RoomMessage(text("h5")), None),
            Some(HistoricalEvent { event: AnyRoomEvent::State, rendered: Some(rendered(45, &["state"])) }),
            Some(HistoricalEvent { event: AnyRoomEvent::RedactedMessage, rendered: Some(rendered(45, &["r"])) }),
            Some(HistoricalEvent { event: AnyRoomEvent::RedactedState, rendered: Some(rendered(45, &["r"])) }),
        ],
        end: Some("tok2".to_string()),
    };
    room.receive_messages(request, Some(page), 60);
    assert_eq!(messages(&room), vec!["first", "more", "second", "live"]);
    assert_eq!(
        lines(&room)[0].tags,
        tags(&["matrix_text", "matrix_id_$h1", "matrix_sender_@alice:example.org"])
    );
    assert_eq!(lines(&room)[0].date_printed, 60);
    assert_eq!(room.prev_batch(), &Some(PrevBatch::Backwards("tok2".to_string())));
    assert!(!room.is_busy());
}

#[test]
fn a_page_without_an_end_leaves_no_cursor() {
    let mut room = room(Some("tok1"));
    let request = room.get_messages(true).unwrap();
    room.receive_messages(request, Some(Messages { chunk: vec![None], end: None }), 60);
    assert_eq!(room.prev_batch(), &None);
    assert_eq!(lines(&room).len(), 0);
}

#[test]
fn a_forward_page_turns_the_cursor_backwards_and_sorts() {
    let mut room = MatrixRoom::restore(
        Url::parse("https://example.org").unwrap(),
        RoomId("!room:example.org".to_string()),
        UserId(OWN.to_string()),
        info(Some("tok")),
    );
    room.print_rendered_event(&rendered(9, &["late"]), 1);
    room.print_rendered_event(&rendered(3, &["early"]), 1);
    let request = room.get_messages(true).unwrap();
    assert!(request.prev_batch().is_forward());
    room.receive_messages(request, Some(Messages { chunk: vec![], end: Some("other".to_string()) }), 1);
    assert_eq!(room.prev_batch(), &Some(PrevBatch::Backwards("tok".to_string())));
    assert_eq!(messages(&room), vec!["early", "late"]);
    assert!(!room.is_busy());
}

#[test]
fn the_cursor_that_was_asked_with_decides_what_follows() {
    let mut room = MatrixRoom::restore(
        Url::parse("https://example.org").unwrap(),
        RoomId("!room:example.org".to_string()),
        UserId(OWN.to_string()),
        info(Some("tok")),
    );
    let request = room.get_messages(true).unwrap();
    room.reset_prev_batch();
    room.receive_messages(request, Some(Messages { chunk: vec![None], end: Some("end".to_string()) }), 1);
    assert_eq!(room.prev_batch(), &Some(PrevBatch::Backwards("tok".to_string())));
}

#[test]
fn historical_events_are_shown_unless_they_are_edits() {
    let mut room = room(None);
    let event = |content| {
        AnyRoomEvent::Message(AnyMessageEvent {
            room_id: RoomId("!room:example.org".to_string()),
            event_id: EventId("$h".to_string()),
            sender: UserId(OWN.to_string()),
            origin_server_ts: 5000,
            content,
        })
    };
    room.handle_room_event(&event(AnyMessageEventContent::RoomMessage(text("h"))), &Some(rendered(5, &["h"])), 6);
    assert_eq!(messages(&room), vec!["h"]);
    // Lines of the history carry no tag that says whose message it is.
    assert_eq!(lines(&room)[0].tags, tags(&["matrix_text", "matrix_id_$h", "matrix_sender_@me:example.org"]));
    room.handle_room_event(&event(AnyMessageEventContent::RoomEncrypted), &Some(rendered(5, &["enc"])), 6);
    assert_eq!(messages(&room), vec!["h", "enc"]);
    room.handle_room_event(&AnyRoomEvent::State, &Some(rendered(5, &["s"])), 6);
    room.handle_room_event(&event(AnyMessageEventContent::RoomMessage(text("h"))), &None, 6);
    assert_eq!(messages(&room), vec!["h", "enc"]);
}

#[test]
fn typing_is_reported_for_input_that_is_no_command() {
    assert_eq!(MatrixRoom::update_typing_notice(""), Some(false));
    assert_eq!(MatrixRoom::update_typing_notice("abc"), Some(false));
    assert_eq!(MatrixRoom::update_typing_notice("abcd"), Some(true));
    assert_eq!(MatrixRoom::update_typing_notice("/join #room"), None);
    assert_eq!(MatrixRoom::update_typing_notice("/"), None);
    assert_eq!(MatrixRoom::update_typing_notice("//"), Some(false));
    assert_eq!(MatrixRoom::update_typing_notice("//not a command"), Some(true));
    // The length is counted in bytes.
    assert_eq!(MatrixRoom::update_typing_notice("éé"), Some(true));
    assert_eq!(MatrixRoom::update_typing_notice("抱"), Some(false));
}

#[test]
fn the_status_shows_encryption_and_business() {
    let mut room = room(Some("tok"));
    assert_eq!(room.status("🔒"), "");
    let request = room.get_messages(true).unwrap();
    assert_eq!(room.status("🔒"), "⏳");
    let mut encrypted = info(Some("tok"));
    encrypted.encrypted = true;
    room.update_room(encrypted);
    assert_eq!(room.status("🔒"), "🔒⏳");
    room.receive_messages(request, None, 1);
    assert_eq!(room.status("🔒"), "🔒");
}
