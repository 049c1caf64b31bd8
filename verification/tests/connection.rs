use matrix_room::connection::{
    load_device_id, state_envelope, timeline_envelope, Envelope, InteractiveAuthInfo,
};
use matrix_room::events::{
    AnyMessageEventContent, AnyRedactedSyncMessageEvent, AnySyncMessageEvent, AnySyncRoomEvent,
    AnySyncStateEvent, EventId, MemberEvent, UserId,
};

fn member(has_content: bool) -> MemberEvent {
    MemberEvent {
        event_id: EventId("$m".to_string()),
        sender: UserId("@alice:example.org".to_string()),
        state_key: UserId("@bob:example.org".to_string()),
        has_content,
    }
}

#[test]
fn state_events_travel_as_state_and_members_on_their_own() {
    assert_eq!(state_envelope(&AnySyncStateEvent::RoomName), Some(Envelope::SyncState));
    assert_eq!(state_envelope(&AnySyncStateEvent::RoomTopic), Some(Envelope::SyncState));
    assert_eq!(state_envelope(&AnySyncStateEvent::RoomCanonicalAlias), Some(Envelope::SyncState));
    assert_eq!(state_envelope(&AnySyncStateEvent::Other), Some(Envelope::SyncState));
    assert_eq!(
        state_envelope(&AnySyncStateEvent::RoomMember(member(true))),
        Some(Envelope::MemberEvent { state_event: true })
    );
    assert_eq!(state_envelope(&AnySyncStateEvent::RoomMember(member(false))), None);
}

#[test]
fn timeline_events_travel_as_events_and_members_on_their_own() {
    let message = AnySyncRoomEvent::Message(AnySyncMessageEvent {
        event_id: EventId("$e".to_string()),
        sender: UserId("@alice:example.org".to_string()),
        origin_server_ts: 1,
        transaction_id: None,
        content: AnyMessageEventContent::RoomEncrypted,
    });
    assert_eq!(timeline_envelope(&message), Some(Envelope::SyncEvent));
    assert_eq!(
        timeline_envelope(&AnySyncRoomEvent::RedactedMessage(AnyRedactedSyncMessageEvent::Other)),
        Some(Envelope::SyncEvent)
    );
    assert_eq!(timeline_envelope(&AnySyncRoomEvent::RedactedState), Some(Envelope::SyncEvent));
    assert_eq!(
        timeline_envelope(&AnySyncRoomEvent::State(AnySyncStateEvent::RoomTopic)),
        Some(Envelope::SyncEvent)
    );
    assert_eq!(
        timeline_envelope(&AnySyncRoomEvent::State(AnySyncStateEvent::RoomMember(member(true)))),
        Some(Envelope::MemberEvent { state_event: false })
    );
    assert_eq!(
        timeline_envelope(&AnySyncRoomEvent::State(AnySyncStateEvent::RoomMember(member(false)))),
        None
    );
}

#[test]
fn a_missing_or_empty_file_names_no_device() {
    assert_eq!(load_device_id(None), None);
    assert_eq!(load_device_id(Some(String::new())), None);
    assert_eq!(load_device_id(Some("ABCDEF".to_string())), Some("ABCDEF".to_string()));
    assert_eq!(load_device_id(Some(" ".to_string())), Some(" ".to_string()));
}

#[test]
fn authentication_info_holds_what_it_was_given() {
    let info = InteractiveAuthInfo {
        user: "alice".to_string(),
        password: "secret".to_string(),
        session: None,
    };
    assert_eq!(info.clone(), info);
    assert_eq!(info.user, "alice");
}
