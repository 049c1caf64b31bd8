//! Tags, edits and verification events.

use vstd::prelude::*;
use vstd::string::StringExecFns;
use crate::events::{
    Replacement, ReplacementContent,
    AnyMessageEvent, AnyMessageEventContent, AnySyncMessageEvent, AnySyncRoomEvent, EventId,
    MessageType, Relation, RoomMessageEventContent, UserId,
};

verus! {

/// The tag by which the lines of an event are found again.
pub open spec fn event_id_tag(id: Seq<char>) -> Seq<char> {
    "matrix_id_"@ + id
}

/// The tag that says who sent a line.
pub open spec fn sender_tag(id: Seq<char>) -> Seq<char> {
    "matrix_sender_"@ + id
}

/// Something that marks the lines that belong to it with a tag.
pub trait ToTag {
    /// The tag, as a sequence of characters.
    spec fn tag(&self) -> Seq<char>;

    /// The tag.
    fn to_tag(&self) -> (tag: String)
        ensures
            tag@ == self.tag(),
    ;
}

impl ToTag for EventId {
    open spec fn tag(&self) -> Seq<char> {
        event_id_tag(self@)
    }

    fn to_tag(&self) -> (tag: String) {
        String::from_str("matrix_id_").concat(self.0.as_str())
    }
}

impl ToTag for UserId {
    open spec fn tag(&self) -> Seq<char> {
        sender_tag(self@)
    }

    fn to_tag(&self) -> (tag: String) {
        String::from_str("matrix_sender_").concat(self.0.as_str())
    }
}

/// The replacement a message carries, if it is an edit.
pub open spec fn edit_of(content: RoomMessageEventContent) -> Option<Replacement> {
    match content.relates_to {
        Some(Relation::Replacement(replacement)) => Some(replacement),
        _ => None,
    }
}

/// The replacement an event's content carries, if it is a room message that
/// is an edit.
pub open spec fn content_edit_of(content: AnyMessageEventContent) -> Option<Replacement> {
    match content {
        AnyMessageEventContent::RoomMessage(message) => edit_of(message),
        _ => None,
    }
}

/// Something that may replace an earlier message.
pub trait Edit {
    /// The replacement it carries, if any.
    spec fn replacement(&self) -> Option<Replacement>;

    /// Whether it replaces an earlier message.
    fn is_edit(&self) -> (edit: bool)
        ensures
            edit == self.replacement().is_some(),
    ;

    /// The event it replaces and the new content, if it is an edit.
    fn get_edit(&self) -> (edit: Option<(&EventId, &ReplacementContent)>)
        ensures
            edit.is_some() == self.replacement().is_some(),
            edit matches Some((event_id, new_content)) ==> {
                &&& *event_id == self.replacement().unwrap().event_id
                &&& *new_content == self.replacement().unwrap().new_content
            },
    ;
}

impl Edit for RoomMessageEventContent {
    open spec fn replacement(&self) -> Option<Replacement> {
        edit_of(*self)
    }

    fn is_edit(&self) -> (edit: bool) {
        match &self.relates_to {
            Some(Relation::Replacement(_)) => true,
            _ => false,
        }
    }

    fn get_edit(&self) -> (edit: Option<(&EventId, &ReplacementContent)>) {
        match &self.relates_to {
            Some(Relation::Replacement(r)) => Some((&r.event_id, &r.new_content)),
            _ => None,
        }
    }
}

impl Edit for AnySyncMessageEvent {
    open spec fn replacement(&self) -> Option<Replacement> {
        content_edit_of(self.content)
    }

    fn is_edit(&self) -> (edit: bool) {
        match &self.content {
            AnyMessageEventContent::RoomMessage(c) => c.is_edit(),
            _ => false,
        }
    }

    fn get_edit(&self) -> (edit: Option<(&EventId, &ReplacementContent)>) {
        match &self.content {
            AnyMessageEventContent::RoomMessage(c) => c.get_edit(),
            _ => None,
        }
    }
}

impl Edit for AnyMessageEvent {
    open spec fn replacement(&self) -> Option<Replacement> {
        content_edit_of(self.content)
    }

    fn is_edit(&self) -> (edit: bool) {
        match &self.content {
            AnyMessageEventContent::RoomMessage(c) => c.is_edit(),
            _ => false,
        }
    }

    fn get_edit(&self) -> (edit: Option<(&EventId, &ReplacementContent)>) {
        match &self.content {
            AnyMessageEventContent::RoomMessage(c) => c.get_edit(),
            _ => None,
        }
    }
}

/// Whether an event's content belongs to the interactive verification of a
/// device.
pub open spec fn content_is_verification(content: AnyMessageEventContent) -> bool {
    match content {
        AnyMessageEventContent::KeyVerificationReady
        | AnyMessageEventContent::KeyVerificationStart
        | AnyMessageEventContent::KeyVerificationCancel
        | AnyMessageEventContent::KeyVerificationAccept
        | AnyMessageEventContent::KeyVerificationKey
        | AnyMessageEventContent::KeyVerificationMac
        | AnyMessageEventContent::KeyVerificationDone => true,
        AnyMessageEventContent::RoomMessage(message) => message.msgtype
            == MessageType::VerificationRequest,
        _ => false,
    }
}

/// Something that may be a step of the interactive verification of a device.
pub trait VerificationEvent {
    /// Whether it is such a step, for contracts.
    spec fn verification(&self) -> bool;

    /// Whether it is such a step.
    fn is_verification(&self) -> (verification: bool)
        ensures
            verification == self.verification(),
    ;
}

impl VerificationEvent for AnySyncMessageEvent {
    open spec fn verification(&self) -> bool {
        content_is_verification(self.content)
    }

    fn is_verification(&self) -> (verification: bool) {
        match &self.content {
            AnyMessageEventContent::KeyVerificationReady
            | AnyMessageEventContent::KeyVerificationStart
            | AnyMessageEventContent::KeyVerificationCancel
            | AnyMessageEventContent::KeyVerificationAccept
            | AnyMessageEventContent::KeyVerificationKey
            | AnyMessageEventContent::KeyVerificationMac
            | AnyMessageEventContent::KeyVerificationDone => true,
            AnyMessageEventContent::RoomMessage(m) => match m.msgtype {
                MessageType::VerificationRequest => true,
                _ => false,
            },
            _ => false,
        }
    }
}

impl VerificationEvent for AnySyncRoomEvent {
    open spec fn verification(&self) -> bool {
        match self {
            AnySyncRoomEvent::Message(message) => message.verification(),
            _ => false,
        }
    }

    fn is_verification(&self) -> (verification: bool) {
        match self {
            AnySyncRoomEvent::Message(m) => m.is_verification(),
            AnySyncRoomEvent::State(_)
            | AnySyncRoomEvent::RedactedMessage(_)
            | AnySyncRoomEvent::RedactedState => false,
        }
    }
}

} // verus!
