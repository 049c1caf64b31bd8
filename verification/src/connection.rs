//! What passes between the connection to the homeserver and the room
//! sessions: which envelope an event of a sync response travels in, and the
//! plain values that go with logging in.

use vstd::prelude::*;
use crate::events::{AnySyncRoomEvent, AnySyncStateEvent};
use crate::line::text_view;

verus! {

/// How many envelopes may wait between the connection and the sessions
/// before the connection has to wait.
pub const CHANNEL_CAPACITY: usize = 10_000;

/// What a user has to present when the homeserver asks for interactive
/// authentication.
#[derive(Debug, Clone, PartialEq, Eq)]
pub struct InteractiveAuthInfo {
    pub user: String,
    pub password: String,
    pub session: Option<String>,
}

/// The envelope in which an event of a sync response goes from the
/// connection to the session of its room.
#[derive(Debug, Clone, Copy, PartialEq, Eq, Structural)]
pub enum Envelope {
    /// A state event that changes what is known of the room.
    SyncState,
    /// An event of the live timeline.
    SyncEvent,
    /// A change of membership, on its own so that the roster can take it
    /// with what it changes about names. `state_event` says whether it came
    /// with the state of the room rather than in its timeline.
    MemberEvent { state_event: bool },
}

/// The envelope of an event from the state of a room: a change of
/// membership travels on its own, and one whose content was removed does
/// not travel at all.
pub open spec fn state_envelope_of(event: AnySyncStateEvent) -> Option<Envelope> {
    match event {
        AnySyncStateEvent::RoomMember(member) => if member.has_content {
            Some(Envelope::MemberEvent { state_event: true })
        } else {
            None
        },
        _ => Some(Envelope::SyncState),
    }
}

/// The envelope of an event from the timeline of a room: a change of
/// membership travels on its own, and one whose content was removed does
/// not travel at all.
pub open spec fn timeline_envelope_of(event: AnySyncRoomEvent) -> Option<Envelope> {
    match event {
        AnySyncRoomEvent::State(AnySyncStateEvent::RoomMember(member)) => if member.has_content {
            Some(Envelope::MemberEvent { state_event: false })
        } else {
            None
        },
        _ => Some(Envelope::SyncEvent),
    }
}

/// The device that a user logged in with before, as the file that keeps it
/// says: `contents` is what the file holds, or `None` where there is no
/// file. An empty file names no device.
pub open spec fn device_id_of(contents: Option<String>) -> Option<Seq<char>> {
    match contents {
        Some(text) if text@.len() > 0 => Some(text@),
        _ => None,
    }
}

/// The envelope of an event from the state of a room, if it travels.
pub fn state_envelope(event: &AnySyncStateEvent) -> (envelope: Option<Envelope>)
    ensures
        envelope == state_envelope_of(*event),
{
    match event {
        AnySyncStateEvent::RoomMember(member) => {
            if member.has_content {
                Some(Envelope::MemberEvent { state_event: true })
            } else {
                None
            }
        },
        _ => Some(Envelope::SyncState),
    }
}

/// The envelope of an event from the timeline of a room, if it travels.
pub fn timeline_envelope(event: &AnySyncRoomEvent) -> (envelope: Option<Envelope>)
    ensures
        envelope == timeline_envelope_of(*event),
{
    match event {
        AnySyncRoomEvent::State(AnySyncStateEvent::RoomMember(member)) => {
            if member.has_content {
                Some(Envelope::MemberEvent { state_event: false })
            } else {
                None
            }
        },
        _ => Some(Envelope::SyncEvent),
    }
}

/// The device that a user logged in with before, if the file that keeps it
/// names one. A login without one is the first login: no room is restored
/// after it.
pub fn load_device_id(contents: Option<String>) -> (device_id: Option<String>)
    ensures
        text_view(device_id) == device_id_of(contents),
{
    match contents {
        Some(text) => {
            if text.as_str().is_empty() {
                None
            } else {
                Some(text)
            }
        },
        None => None,
    }
}

} // verus!
