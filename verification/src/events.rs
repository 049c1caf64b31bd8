//! The protocol events a room session works on, as plain values.

use vstd::prelude::*;

verus! {

/// The identifier the homeserver gave an event.
#[derive(Debug, Clone, PartialEq, Eq)]
pub struct EventId(pub String);

/// The identifier of a user.
#[derive(Debug, Clone, PartialEq, Eq)]
pub struct UserId(pub String);

/// The identifier of a room.
#[derive(Debug, Clone, PartialEq, Eq)]
pub struct RoomId(pub String);

impl View for EventId {
    type V = Seq<char>;

    open spec fn view(&self) -> Seq<char> {
        self.0@
    }
}

impl View for UserId {
    type V = Seq<char>;

    open spec fn view(&self) -> Seq<char> {
        self.0@
    }
}

impl View for RoomId {
    type V = Seq<char>;

    open spec fn view(&self) -> Seq<char> {
        self.0@
    }
}

impl EventId {
    /// Whether both name the same event.
    pub fn same(&self, other: &EventId) -> (same: bool)
        ensures
            same == (self@ == other@),
    {
        self.0 == other.0
    }

    /// A copy of the identifier.
    pub fn duplicate(&self) -> (copy: Self)
        ensures
            copy == *self,
    {
        EventId(self.0.clone())
    }
}

impl UserId {
    /// Whether both name the same user.
    pub fn same(&self, other: &UserId) -> (same: bool)
        ensures
            same == (self@ == other@),
    {
        self.0 == other.0
    }

    /// A copy of the identifier.
    pub fn duplicate(&self) -> (copy: Self)
        ensures
            copy == *self,
    {
        UserId(self.0.clone())
    }
}

/// The kind of a room message.
#[derive(Debug, Clone, Copy, PartialEq, Eq, Structural)]
pub enum MessageType {
    Audio,
    Emote,
    File,
    Image,
    Location,
    Notice,
    ServerNotice,
    Text,
    Video,
    VerificationRequest,
    Other,
}

/// What an edit puts in the place of the earlier message.
#[derive(Debug, Clone, PartialEq, Eq)]
pub struct ReplacementContent {
    pub msgtype: MessageType,
    pub body: String,
    pub formatted_body: Option<String>,
    pub url: Option<String>,
}

/// A message that takes the place of an earlier one.
#[derive(Debug, Clone, PartialEq, Eq)]
pub struct Replacement {
    /// The event that is replaced.
    pub event_id: EventId,
    /// What it is replaced with.
    pub new_content: ReplacementContent,
}

/// How a message relates to an earlier event.
#[derive(Debug, Clone, PartialEq, Eq)]
pub enum Relation {
    Reply(EventId),
    Replacement(Replacement),
}

/// The content of a room message.
#[derive(Debug, Clone, PartialEq, Eq)]
pub struct RoomMessageEventContent {
    pub msgtype: MessageType,
    pub body: String,
    pub formatted_body: Option<String>,
    pub url: Option<String>,
    pub relates_to: Option<Relation>,
}

impl RoomMessageEventContent {
    /// A text message that stands on its own: `body` is its plain text and
    /// `formatted_body` its marked-up form, if it has one.
    pub fn text(body: String, formatted_body: Option<String>) -> (content: Self)
        ensures
            content == (RoomMessageEventContent {
                msgtype: MessageType::Text,
                body,
                formatted_body,
                url: None,
                relates_to: None,
            }),
    {
        RoomMessageEventContent {
            msgtype: MessageType::Text,
            body,
            formatted_body,
            url: None,
            relates_to: None,
        }
    }
}

/// The content of a timeline event, by kind.
#[derive(Debug, Clone, PartialEq, Eq)]
pub enum AnyMessageEventContent {
    RoomMessage(RoomMessageEventContent),
    RoomRedaction { redacts: EventId, reason: Option<String> },
    RoomEncrypted,
    KeyVerificationReady,
    KeyVerificationStart,
    KeyVerificationCancel,
    KeyVerificationAccept,
    KeyVerificationKey,
    KeyVerificationMac,
    KeyVerificationDone,
    Other,
}

/// A timeline event as the live stream delivers it.
#[derive(Debug, Clone, PartialEq, Eq)]
pub struct AnySyncMessageEvent {
    pub event_id: EventId,
    pub sender: UserId,
    /// Milliseconds since the Unix epoch, by the homeserver's clock.
    pub origin_server_ts: u64,
    /// Set by the homeserver on events that this client sent.
    pub transaction_id: Option<String>,
    pub content: AnyMessageEventContent,
}

/// A timeline event as a page of history delivers it.
#[derive(Debug, Clone, PartialEq, Eq)]
pub struct AnyMessageEvent {
    pub room_id: RoomId,
    pub event_id: EventId,
    pub sender: UserId,
    /// Milliseconds since the Unix epoch, by the homeserver's clock.
    pub origin_server_ts: u64,
    pub content: AnyMessageEventContent,
}

/// A timeline event whose content the homeserver has removed.
#[derive(Debug, Clone, PartialEq, Eq)]
pub enum AnyRedactedSyncMessageEvent {
    RoomMessage {
        event_id: EventId,
        sender: UserId,
        origin_server_ts: u64,
        /// Who removed the content, where the homeserver says so.
        redacted_by: Option<UserId>,
    },
    Other,
}

/// A change of a member's state in the room.
#[derive(Debug, Clone, PartialEq, Eq)]
pub struct MemberEvent {
    pub event_id: EventId,
    pub sender: UserId,
    /// The user whose membership changes.
    pub state_key: UserId,
    /// Whether the content is there, or was removed by the homeserver.
    pub has_content: bool,
}

/// A state event of the live stream.
#[derive(Debug, Clone, PartialEq, Eq)]
pub enum AnySyncStateEvent {
    RoomName,
    RoomTopic,
    RoomCanonicalAlias,
    RoomMember(MemberEvent),
    Other,
}

/// An event of the live stream.
#[derive(Debug, Clone, PartialEq, Eq)]
pub enum AnySyncRoomEvent {
    Message(AnySyncMessageEvent),
    RedactedMessage(AnyRedactedSyncMessageEvent),
    State(AnySyncStateEvent),
    RedactedState,
}

/// An event of a page of history.
#[derive(Debug, Clone, PartialEq, Eq)]
pub enum AnyRoomEvent {
    Message(AnyMessageEvent),
    RedactedMessage,
    State,
    RedactedState,
}

} // verus!
