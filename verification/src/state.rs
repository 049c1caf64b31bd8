//! The state of a room session and how each step changes it.

use vstd::prelude::*;
use vstd::utf8::encode_utf8;
use url::Url;
use crate::buffer::sorted_by_date;
use crate::edit::replace_edit;
use crate::echo::replace_echo;
use crate::events::{
    AnyMessageEventContent, AnyRoomEvent, AnySyncMessageEvent, AnySyncRoomEvent,
    AnySyncStateEvent, EventId, MessageType, RoomId, RoomMessageEventContent, UserId,
};
use crate::line::{text_view, LineView};
use crate::pagination::PrevBatchView;
use crate::redaction::{redact, redaction_notice, RedactionStyle};
use crate::render::{
    identity_tags, msg_tags, renderable, renderable_type, rendered_view, self_tags,
    RenderedEvent, RenderedEventView,
};
use crate::transaction::{echo_tag, transaction_of};
use crate::utils::content_edit_of;

verus! {

/// What the client knows of the room itself.
#[derive(Debug, Clone, PartialEq, Eq)]
pub struct RoomInfo {
    pub encrypted: bool,
    pub public: bool,
    pub direct: bool,
    pub canonical_alias: Option<String>,
    pub topic: Option<String>,
    /// Where the history before the last batch of live events starts, if
    /// the homeserver has said so.
    pub last_prev_batch: Option<String>,
}

/// The state of a session.
pub ghost struct RoomView {
    pub homeserver: Url,
    pub room_id: RoomId,
    pub own_user_id: UserId,
    /// What the client knows of the room.
    pub room: RoomInfo,
    /// The lines on display, or `None` while the display is detached.
    pub buffer: Option<Seq<LineView>>,
    /// Whether a request for history is in flight.
    pub busy: bool,
    /// The cursor into the history.
    pub prev_batch: Option<PrevBatchView>,
    /// The messages on their way.
    pub outgoing: Map<u128, (bool, RoomMessageEventContent)>,
}

/// The cursor to start from: backwards from `token`, if there is one.
pub open spec fn backwards_from(token: Option<Seq<char>>) -> Option<PrevBatchView> {
    match token {
        Some(t) => Some(PrevBatchView::Backwards(t)),
        None => None,
    }
}

/// The cursor of a restored room: once forwards from `token`, if there is
/// one.
pub open spec fn forward_from(token: Option<Seq<char>>) -> Option<PrevBatchView> {
    match token {
        Some(t) => Some(PrevBatchView::Forward(t)),
        None => None,
    }
}

/// What becomes of the rendering of an event's content: where the content
/// is of a kind that goes on display and a rendering is there, its lines
/// get the tags of the event and of the sender.
pub open spec fn message_content_rendering(
    event_id: Seq<char>,
    sender: Seq<char>,
    renderable: bool,
    rendered: Option<RenderedEventView>,
) -> Option<RenderedEventView> {
    match rendered {
        Some(r) if renderable => Some(r.with_tags(identity_tags(event_id, sender))),
        _ => None,
    }
}

/// The tags that say whose message a line is: this client's own user's, or
/// another's.
pub open spec fn class_tags(own_user_id: Seq<char>, sender: Seq<char>) -> Seq<Seq<char>> {
    if sender == own_user_id {
        self_tags()
    } else {
        msg_tags()
    }
}

/// What becomes of the rendering of a live event: that of its content, with
/// the tags that say whose message it is.
pub open spec fn sync_message_rendering(
    own_user_id: Seq<char>,
    event: AnySyncMessageEvent,
    rendered: Option<RenderedEventView>,
) -> Option<RenderedEventView> {
    match message_content_rendering(
        event.event_id@,
        event.sender@,
        renderable(event.content),
        rendered,
    ) {
        Some(r) => Some(r.with_tags(class_tags(own_user_id, event.sender@))),
        None => None,
    }
}

/// What becomes of the rendering of the new content of an edit: as that of
/// a live event, under the identifier of the event that is replaced.
pub open spec fn edit_rendering(
    own_user_id: Seq<char>,
    event: AnySyncMessageEvent,
    rendered: Option<RenderedEventView>,
) -> Option<RenderedEventView> {
    match content_edit_of(event.content) {
        Some(replacement) => match message_content_rendering(
            replacement.event_id@,
            event.sender@,
            renderable_type(replacement.new_content.msgtype),
            rendered,
        ) {
            Some(r) => Some(r.with_tags(class_tags(own_user_id, event.sender@))),
            None => None,
        },
        None => None,
    }
}

/// The local echo of the message sent under `uuid`: its lines carry the tag
/// of the echo and the tags of a message of this client's own user.
pub open spec fn echo_rendering(rendered: RenderedEventView, uuid: u128) -> RenderedEventView {
    rendered.with_tags(seq![echo_tag(uuid)]).with_tags(self_tags())
}

/// The line that tells the user that nothing can be sent.
pub open spec fn not_connected_line(now: i64) -> LineView {
    LineView {
        date: now,
        date_printed: now,
        tags: Seq::empty(),
        prefix: Seq::empty(),
        message: "Error not connected"@,
    }
}

/// What becomes of the rendering of an event of a page of history: only
/// messages that are no edits go on display, since the page that holds the
/// edited message shows it.
pub open spec fn historical_rendering(
    event: AnyRoomEvent,
    rendered: Option<RenderedEventView>,
) -> Option<RenderedEventView> {
    match event {
        AnyRoomEvent::Message(message) => if content_edit_of(message.content).is_none() {
            message_content_rendering(
                message.event_id@,
                message.sender@,
                renderable(message.content),
                rendered,
            )
        } else {
            None
        },
        _ => None,
    }
}

/// An event of a page of history with what the renderer made of it.
#[derive(Debug, Clone, PartialEq, Eq)]
pub struct HistoricalEvent {
    pub event: AnyRoomEvent,
    pub rendered: Option<RenderedEvent>,
}

/// A page of history as the homeserver answered it.
#[derive(Debug, Clone, PartialEq, Eq)]
pub struct Messages {
    /// The events of the page in the order of the answer. An event that
    /// this client cannot read stands as `None`.
    pub chunk: Vec<Option<HistoricalEvent>>,
    /// Where the next page starts, if there is one.
    pub end: Option<String>,
}

/// The lines that one entry of a page puts on display.
pub open spec fn entry_lines(entry: Option<HistoricalEvent>, now: i64) -> Seq<LineView> {
    match entry {
        Some(historical) => match historical_rendering(
            historical.event,
            rendered_view(historical.rendered),
        ) {
            Some(r) => r.display(now),
            None => Seq::empty(),
        },
        None => Seq::empty(),
    }
}

/// The lines that the entries of a page put on display, in their order.
pub open spec fn page_lines(chunk: Seq<Option<HistoricalEvent>>, now: i64) -> Seq<LineView>
    decreases chunk.len(),
{
    if chunk.len() == 0 {
        Seq::empty()
    } else {
        page_lines(chunk.drop_last(), now) + entry_lines(chunk.last(), now)
    }
}

/// The cursor after a page has come in.
///
/// A page fetched forwards is followed by paging backwards from the same
/// token. An empty page fetched backwards ends the history. Any other page
/// is followed by the page at its end, if it names one.
pub open spec fn next_cursor(
    consumed: PrevBatchView,
    chunk_len: nat,
    end: Option<Seq<char>>,
) -> Option<PrevBatchView> {
    match consumed {
        PrevBatchView::Forward(token) => Some(PrevBatchView::Backwards(token)),
        PrevBatchView::Backwards(_) => if chunk_len == 0 {
            None
        } else {
            backwards_from(end)
        },
    }
}

/// Whether the display is sorted after a page has come in: always but
/// after an empty page fetched backwards.
pub open spec fn sorts_after(consumed: PrevBatchView, chunk_len: nat) -> bool {
    consumed is Forward || chunk_len > 0
}

/// What a state event of the live stream asks the caller to refresh.
#[derive(Debug, Clone, Copy, PartialEq, Eq, Structural)]
pub enum StateAction {
    /// Nothing.
    Nothing,
    /// The name under which the room is shown.
    UpdateBufferName,
    /// The title of the display: the topic of the room.
    SetTopic,
    /// The alias of the room that the display knows.
    SetAlias,
}

/// What an event of the live stream asks the caller to do next.
#[derive(Debug, Clone, PartialEq, Eq)]
pub enum SyncAction {
    /// Nothing: the event is dealt with.
    Nothing,
    /// Render the confirmed message and hand it to
    /// [`MatrixRoom::finish_outgoing_message`].
    Confirm(Confirmation),
    /// Ask the roster for the redacter and call [`MatrixRoom::redact_event`].
    Redact,
    /// Render the new content and call [`MatrixRoom::handle_edits`].
    Edit,
    /// Render the event and call [`MatrixRoom::print_sync_message`].
    Print,
    /// Render the redacted message and call
    /// [`MatrixRoom::handle_redacted_events`].
    PrintRedacted,
    /// Refresh what the state event is about.
    State(StateAction),
}

/// What a state event of the live stream asks for: name, topic and alias
/// are refreshed, the alias only where the room has one. No state event
/// puts a line on display.
pub open spec fn state_route(event: AnySyncStateEvent, room: RoomInfo) -> StateAction {
    match event {
        AnySyncStateEvent::RoomName => StateAction::UpdateBufferName,
        AnySyncStateEvent::RoomTopic => StateAction::SetTopic,
        AnySyncStateEvent::RoomCanonicalAlias => if room.canonical_alias.is_some() {
            StateAction::SetAlias
        } else {
            StateAction::Nothing
        },
        _ => StateAction::Nothing,
    }
}

/// The transaction that an event of the live stream says it came from.
pub open spec fn sync_transaction(event: AnySyncRoomEvent) -> Option<u128> {
    match event {
        AnySyncRoomEvent::Message(message) => transaction_of(message.transaction_id),
        _ => None,
    }
}

/// Whether typing `input` is reported to the room, and as what: nothing is
/// reported for a command, "not typing" for less than four bytes of input,
/// "typing" for more.
pub open spec fn typing_notice(input: Seq<char>) -> Option<bool> {
    if input.len() >= 1 && input[0] == '/' && !(input.len() >= 2 && input[1] == '/') {
        None
    } else {
        Some(encode_utf8(input).len() >= 4)
    }
}

/// The signs that show the state of a room: the sign of an encrypted room,
/// then the sign of a room that is busy fetching history.
pub open spec fn status_signs(encrypted: bool, busy: bool, encrypted_sign: Seq<char>) -> Seq<char> {
    (if encrypted {
        encrypted_sign
    } else {
        Seq::empty()
    }) + (if busy {
        "⏳"@
    } else {
        Seq::empty()
    })
}

/// The confirmation of a message of this client: the event as the
/// homeserver has it, to be rendered and handed to
/// [`MatrixRoom::finish_outgoing_message`].
#[derive(Debug, Clone, PartialEq, Eq)]
pub struct Confirmation {
    /// The transaction under which the message was sent.
    pub uuid: u128,
    /// Whether a local echo of the message stands on display.
    pub echo: bool,
    /// The message as an event of this client's own user.
    pub event: AnySyncMessageEvent,
}

impl RoomView {
    /// The state after a message was noted as on its way under `uuid`.
    ///
    /// Where local echoes are wanted, the message is a text message and an
    /// echo was rendered, the echo goes on display and the message is noted
    /// as echoed.
    pub open spec fn queued(
        self,
        uuid: u128,
        content: RoomMessageEventContent,
        local_echo: bool,
        echo: Option<RenderedEventView>,
        now: i64,
    ) -> RoomView {
        if local_echo && content.msgtype == MessageType::Text && echo.is_some() {
            RoomView {
                outgoing: self.outgoing.insert(uuid, (true, content)),
                ..self.printed(echo_rendering(echo.unwrap(), uuid), now)
            }
        } else {
            RoomView { outgoing: self.outgoing.insert(uuid, (false, content)), ..self }
        }
    }

    /// The state after the message sent under `uuid` is no longer on its
    /// way.
    pub open spec fn settled(self, uuid: u128) -> RoomView {
        RoomView { outgoing: self.outgoing.remove(uuid), ..self }
    }

    /// The confirmation that is due when the homeserver names the event
    /// that it made of the message sent under `uuid`: none unless the
    /// message is on its way.
    pub open spec fn confirmation(self, uuid: u128, event_id: EventId, now_ms: u64) -> Option<
        Confirmation,
    > {
        if self.outgoing.contains_key(uuid) {
            Some(
                Confirmation {
                    uuid,
                    echo: self.outgoing[uuid].0,
                    event: AnySyncMessageEvent {
                        event_id,
                        sender: self.own_user_id,
                        origin_server_ts: now_ms,
                        transaction_id: None,
                        content: AnyMessageEventContent::RoomMessage(self.outgoing[uuid].1),
                    },
                },
            )
        } else {
            None
        }
    }

    /// The state after a confirmed message went on display: in the place
    /// of its echo, or at the end where it has none. Without a rendering
    /// nothing changes.
    pub open spec fn confirmed(
        self,
        confirmation: Confirmation,
        rendered: Option<RenderedEventView>,
        now: i64,
    ) -> RoomView {
        match sync_message_rendering(self.own_user_id@, confirmation.event, rendered) {
            Some(r) => if confirmation.echo {
                self.with_lines(replace_echo(self.lines(), echo_tag(confirmation.uuid), r))
            } else {
                self.printed(r, now)
            },
            None => self,
        }
    }
}

impl RoomView {
    /// Whether a request for history is made now: there is a cursor, no
    /// request is in flight, and there is a connection.
    pub open spec fn requests(self, connected: bool) -> bool {
        self.prev_batch.is_some() && !self.busy && connected
    }

    /// The state after a page of history was asked for: a request is in
    /// flight if one was before or one is made now.
    pub open spec fn requesting(self, connected: bool) -> RoomView {
        RoomView { busy: self.busy || self.requests(connected), ..self }
    }

    /// The state after the answer to the request made with the cursor
    /// `consumed` has come in; `None` stands for a request that failed.
    ///
    /// A failed request leaves display and cursor as they are. Either way
    /// no request is in flight afterwards.
    pub open spec fn received(
        self,
        consumed: PrevBatchView,
        response: Option<Messages>,
        now: i64,
    ) -> RoomView {
        match response {
            Some(page) => {
                let printed = self.lines() + page_lines(page.chunk@, now);
                RoomView {
                    busy: false,
                    prev_batch: next_cursor(consumed, page.chunk@.len(), text_view(page.end)),
                    ..self.with_lines(
                        if sorts_after(consumed, page.chunk@.len()) {
                            sorted_by_date(printed)
                        } else {
                            printed
                        },
                    )
                }
            },
            None => RoomView { busy: false, ..self },
        }
    }
}

impl RoomView {
    /// The state after the cursor was seeded anew, which happens only
    /// while the display is attached and empty: paging starts again from
    /// where the room's live events began.
    pub open spec fn reseeded(self) -> RoomView {
        if self.buffer.is_some() && self.lines().len() == 0 {
            RoomView { prev_batch: backwards_from(text_view(self.room.last_prev_batch)), ..self }
        } else {
            self
        }
    }

    /// What a timeline event of the live stream asks for, where
    /// `transaction` is the transaction that it says it came from.
    ///
    /// An event that came from a transaction of this client is the
    /// confirmation of a message on its way, or nothing more where that
    /// message is not on its way; what else it holds is not looked at. Any
    /// other event is a redaction, an edit, or an event to put on display.
    pub open spec fn message_route(
        self,
        event: AnySyncMessageEvent,
        transaction: Option<u128>,
        now_ms: u64,
    ) -> SyncAction {
        match transaction {
            Some(uuid) => match self.confirmation(uuid, event.event_id, now_ms) {
                Some(confirmation) => SyncAction::Confirm(confirmation),
                None => SyncAction::Nothing,
            },
            None => if event.content is RoomRedaction {
                SyncAction::Redact
            } else if content_edit_of(event.content).is_some() {
                SyncAction::Edit
            } else {
                SyncAction::Print
            },
        }
    }

    /// The state after a timeline event of the live stream was routed: the
    /// message of the transaction it came from is no longer on its way.
    pub open spec fn routed(self, transaction: Option<u128>) -> RoomView {
        match transaction {
            Some(uuid) => self.settled(uuid),
            None => self,
        }
    }

    /// What an event of the live stream asks for, where `transaction` is
    /// the transaction that it says it came from.
    pub open spec fn sync_route(
        self,
        event: AnySyncRoomEvent,
        transaction: Option<u128>,
        now_ms: u64,
    ) -> SyncAction {
        match event {
            AnySyncRoomEvent::Message(message) => self.message_route(message, transaction, now_ms),
            AnySyncRoomEvent::RedactedMessage(redacted) => if redacted is RoomMessage {
                SyncAction::PrintRedacted
            } else {
                SyncAction::Nothing
            },
            AnySyncRoomEvent::RedactedState => SyncAction::Nothing,
            AnySyncRoomEvent::State(state) => SyncAction::State(state_route(state, self.room)),
        }
    }

    /// The state after the redaction `event` by a user whom the roster
    /// knows as `redacter` was applied. An event that is no redaction, or
    /// a redacter whom the roster does not know, leaves the state as it is.
    pub open spec fn redacted(
        self,
        event: AnySyncMessageEvent,
        redacter: Option<Seq<char>>,
        style: RedactionStyle,
    ) -> RoomView {
        match (event.content, redacter) {
            (AnyMessageEventContent::RoomRedaction { redacts, reason }, Some(name)) => {
                self.with_lines(
                    redact(
                        self.lines(),
                        redacts@,
                        redaction_notice(name, text_view(reason)),
                        style,
                    ),
                )
            },
            _ => self,
        }
    }

    /// The state after the edit `event` was applied, where `rendered` is
    /// what the renderer made of the new content.
    pub open spec fn edited(
        self,
        event: AnySyncMessageEvent,
        rendered: Option<RenderedEventView>,
        now: i64,
    ) -> RoomView {
        match edit_rendering(self.own_user_id@, event, rendered) {
            Some(r) => self.with_lines(
                replace_edit(
                    self.lines(),
                    content_edit_of(event.content).unwrap().event_id@,
                    event.sender@,
                    r,
                    now,
                ),
            ),
            None => self,
        }
    }
}

impl RoomView {
    /// The state with other lines on display. A detached display stays
    /// detached.
    pub open spec fn with_lines(self, lines: Seq<LineView>) -> RoomView {
        RoomView {
            buffer: match self.buffer {
                Some(_) => Some(lines),
                None => None,
            },
            ..self
        }
    }

    /// The lines on display; none while the display is detached.
    pub open spec fn lines(self) -> Seq<LineView> {
        match self.buffer {
            Some(lines) => lines,
            None => Seq::empty(),
        }
    }

    /// The state after the lines of `rendered` went on display.
    pub open spec fn printed(self, rendered: RenderedEventView, now: i64) -> RoomView {
        self.with_lines(self.lines() + rendered.display(now))
    }
}

} // verus!
