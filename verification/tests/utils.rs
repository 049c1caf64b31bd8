use matrix_room::events::{
    AnyMessageEvent, AnyMessageEventContent, AnyRedactedSyncMessageEvent, AnySyncMessageEvent,
    AnySyncRoomEvent, AnySyncStateEvent, EventId, MessageType, Relation, Replacement,
    ReplacementContent, RoomId, RoomMessageEventContent, UserId,
};
use matrix_room::utils::{Edit, ToTag, VerificationEvent};

fn text(body: &str, relates_to: Option<Relation>) -> RoomMessageEventContent {
    RoomMessageEventContent {
        msgtype: MessageType::Text,
        body: body.to_string(),
        formatted_body: None,
        url: None,
        relates_to,
    }
}

fn replacement(target: &str, body: &str) -> Relation {
    Relation::Replacement(Replacement {
        event_id: EventId(target.to_string()),
        new_content: ReplacementContent {
            msgtype: MessageType::Text,
            body: body.to_string(),
            formatted_body: None,
            url: None,
        },
    })
}

fn sync_event(content: AnyMessageEventContent) -> AnySyncMessageEvent {
    AnySyncMessageEvent {
        event_id: EventId("$e".to_string()),
        sender: UserId("@alice:example.org".to_string()),
        origin_server_ts: 1000,
        transaction_id: None,
        content,
    }
}

#[test]
fn an_event_id_is_tagged_with_its_prefix() {
    assert_eq!(EventId("$abc:example.org".to_string()).to_tag(), "matrix_id_$abc:example.org");
    assert_eq!(EventId(String::new()).to_tag(), "matrix_id_");
}

#[test]
fn a_user_id_is_tagged_with_its_prefix() {
    assert_eq!(
        UserId("@alice:example.org".to_string()).to_tag(),
        "matrix_sender_@alice:example.org"
    );
}

#[test]
fn identifiers_compare_by_their_text() {
    let a = EventId("$a".to_string());
    assert!(a.same(&EventId("$a".to_string())));
    assert!(!a.same(&EventId("$b".to_string())));
    assert_eq!(a.duplicate(), a);
    let u = UserId("@u:x".to_string());
    assert!(u.same(&u.duplicate()));
    assert!(!u.same(&UserId("@v:x".to_string())));
}

#[test]
fn a_message_with_a_replacement_is_an_edit() {
    let edit = text("* new", Some(replacement("$old", "new")));
    assert!(edit.is_edit());
    let (target, new_content) = edit.get_edit().unwrap();
    assert_eq!(target, &EventId("$old".to_string()));
    assert_eq!(new_content.body, "new");
}

#[test]
fn a_plain_message_or_a_reply_is_no_edit() {
    let plain = text("hello", None);
    assert!(!plain.is_edit());
    assert!(plain.get_edit().is_none());
    let reply = text("hello", Some(Relation::Reply(EventId("$old".to_string()))));
    assert!(!reply.is_edit());
    assert!(reply.get_edit().is_none());
}

#[test]
fn a_live_event_is_an_edit_if_its_message_is() {
    let edit = sync_event(AnyMessageEventContent::RoomMessage(text(
        "* new",
        Some(replacement("$old", "new")),
    )));
    assert!(edit.is_edit());
    assert_eq!(edit.get_edit().unwrap().0, &EventId("$old".to_string()));
    assert!(!sync_event(AnyMessageEventContent::RoomMessage(text("x", None))).is_edit());
    assert!(!sync_event(AnyMessageEventContent::RoomEncrypted).is_edit());
    assert!(sync_event(AnyMessageEventContent::RoomRedaction {
        redacts: EventId("$old".to_string()),
        reason: None
    })
    .get_edit()
    .is_none());
}

#[test]
fn a_historical_event_is_an_edit_if_its_message_is() {
    let event = |content| AnyMessageEvent {
        room_id: RoomId("!r:example.org".to_string()),
        event_id: EventId("$e".to_string()),
        sender: UserId("@alice:example.org".to_string()),
        origin_server_ts: 1000,
        content,
    };
    let edit = event(AnyMessageEventContent::RoomMessage(text(
        "* new",
        Some(replacement("$old", "new")),
    )));
    assert!(edit.is_edit());
    assert_eq!(edit.get_edit().unwrap().1.body, "new");
    assert!(!event(AnyMessageEventContent::RoomMessage(text("x", None))).is_edit());
    assert!(event(AnyMessageEventContent::Other).get_edit().is_none());
}

#[test]
fn key_verification_events_are_verification_events() {
    for content in [
        AnyMessageEventContent::KeyVerificationReady,
        AnyMessageEventContent::KeyVerificationStart,
        AnyMessageEventContent::KeyVerificationCancel,
        AnyMessageEventContent::KeyVerificationAccept,
        AnyMessageEventContent::KeyVerificationKey,
        AnyMessageEventContent::KeyVerificationMac,
        AnyMessageEventContent::KeyVerificationDone,
    ] {
        assert!(sync_event(content).is_verification());
    }
    let mut request = text("verify", None);
    request.msgtype = MessageType::VerificationRequest;
    assert!(sync_event(AnyMessageEventContent::RoomMessage(request)).is_verification());
}

#[test]
fn other_events_are_no_verification_events() {
    assert!(!sync_event(AnyMessageEventContent::RoomMessage(text("x", None))).is_verification());
    assert!(!sync_event(AnyMessageEventContent::RoomEncrypted).is_verification());
    assert!(!sync_event(AnyMessageEventContent::Other).is_verification());
    assert!(!sync_event(AnyMessageEventContent::RoomRedaction {
        redacts: EventId("$old".to_string()),
        reason: None
    })
    .is_verification());
}

#[test]
fn only_messages_of_the_live_stream_can_be_verification_events() {
    let message = AnySyncRoomEvent::Message(sync_event(AnyMessageEventContent::KeyVerificationStart));
    assert!(message.is_verification());
    assert!(!AnySyncRoomEvent::Message(sync_event(AnyMessageEventContent::Other)).is_verification());
    assert!(!AnySyncRoomEvent::State(AnySyncStateEvent::RoomName).is_verification());
    assert!(!AnySyncRoomEvent::RedactedMessage(AnyRedactedSyncMessageEvent::Other).is_verification());
    assert!(!AnySyncRoomEvent::RedactedState.is_verification());
}
