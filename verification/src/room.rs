//! The session of one joined room.
//!
//! Events come from three sides: the live stream, pages of history, and the
//! messages that this client sends itself. What needs work outside of the
//! session (asking the roster for a name, rendering, talking to the
//! homeserver) is done by the caller: the session says what is to be done,
//! and takes the outcome in a second call.

use vstd::prelude::*;
use vstd::string::{StrSliceExecFns, StringExecFns};
use url::Url;
use crate::buffer::{buffer_view, sorted_by_date, Buffer};
use crate::events::{
    AnyMessageEventContent, AnyRedactedSyncMessageEvent, AnyRoomEvent, AnySyncMessageEvent,
    AnySyncRoomEvent, AnySyncStateEvent, EventId, MemberEvent, MessageType, RoomId,
    RoomMessageEventContent, UserId,
};
use crate::line::{text_view, texts, Line, LineView};
use crate::lock::{IntMutex, IntMutexGuard};
use crate::pagination::{cursor_view, PrevBatch, PrevBatchView};
use crate::queue::MessageQueue;
use crate::redaction::RedactionStyle;
use crate::render::{is_renderable, is_renderable_type, rendered_view, RenderedEvent};
use crate::state::{
    backwards_from, entry_lines, forward_from, historical_rendering, message_content_rendering,
    not_connected_line, page_lines, state_route, status_signs, sync_message_rendering,
    sync_transaction, typing_notice, Confirmation, Messages, RoomInfo, RoomView, StateAction,
    SyncAction,
};
use crate::transaction::{
    echo_tag, echo_tag_text, fresh_transaction_id, transaction_id_of, transaction_of,
};
use crate::utils::Edit;

verus! {

/// `url::Url`, held as it is given. Nothing is known of what a value of it
/// holds: the session only keeps the address of the homeserver and hands it
/// out again.
#[verifier::external_type_specification]
#[verifier::external_body]
pub struct ExUrl(Url);

/// The session of one joined room.
#[derive(Debug)]
pub struct MatrixRoom {
    homeserver: Url,
    room_id: RoomId,
    own_user_id: UserId,
    room: RoomInfo,
    buffer: Option<Buffer>,
    messages_in_flight: IntMutex,
    prev_batch: Option<PrevBatch>,
    outgoing_messages: MessageQueue,
}

impl View for MatrixRoom {
    type V = RoomView;

    closed spec fn view(&self) -> RoomView {
        RoomView {
            homeserver: self.homeserver,
            room_id: self.room_id,
            own_user_id: self.own_user_id,
            room: self.room,
            buffer: buffer_view(self.buffer),
            busy: self.messages_in_flight@,
            prev_batch: cursor_view(self.prev_batch),
            outgoing: self.outgoing_messages@,
        }
    }
}

/// A request for a page of history that is in flight. It holds the room's
/// single-flight guard until [`MatrixRoom::receive_messages`] takes it back.
#[derive(Debug)]
pub struct MessagesRequest {
    prev_batch: PrevBatch,
    guard: IntMutexGuard,
}

impl View for MessagesRequest {
    type V = PrevBatchView;

    /// The cursor that the request was made with.
    closed spec fn view(&self) -> PrevBatchView {
        self.prev_batch@
    }
}

impl MessagesRequest {
    /// The cursor to ask the homeserver with.
    pub fn prev_batch(&self) -> (cursor: &PrevBatch)
        ensures
            cursor@ == self@,
    {
        &self.prev_batch
    }
}

impl MatrixRoom {
    /// The session of a room that was just joined: it pages backwards from
    /// where the room's live events began, its display is attached and
    /// empty, no request is in flight and no message is on its way.
    pub fn new(
        homeserver: Url,
        room_id: RoomId,
        own_user_id: UserId,
        room: RoomInfo,
    ) -> (session: Self)
        ensures
            session@ == (RoomView {
                homeserver,
                room_id,
                own_user_id,
                room,
                buffer: Some(Seq::empty()),
                busy: false,
                prev_batch: backwards_from(text_view(room.last_prev_batch)),
                outgoing: Map::empty(),
            }),
    {
        let prev_batch = match &room.last_prev_batch {
            Some(token) => Some(PrevBatch::Backwards(token.clone())),
            None => None,
        };
        MatrixRoom {
            homeserver,
            room_id,
            own_user_id,
            room,
            buffer: Some(Buffer::new()),
            messages_in_flight: IntMutex::new(),
            prev_batch,
            outgoing_messages: MessageQueue::new(),
        }
    }

    /// The session of a room that the client knew before it started: as a
    /// new one, but the page at the cursor is fetched once forwards first.
    pub fn restore(
        homeserver: Url,
        room_id: RoomId,
        own_user_id: UserId,
        room: RoomInfo,
    ) -> (session: Self)
        ensures
            session@ == (RoomView {
                homeserver,
                room_id,
                own_user_id,
                room,
                buffer: Some(Seq::empty()),
                busy: false,
                prev_batch: forward_from(text_view(room.last_prev_batch)),
                outgoing: Map::empty(),
            }),
    {
        let mut session = MatrixRoom::new(homeserver, room_id, own_user_id, room);
        session.prev_batch = match &session.room.last_prev_batch {
            Some(token) => Some(PrevBatch::Forward(token.clone())),
            None => None,
        };
        session
    }

    /// Whether the room is encrypted.
    pub fn is_encrypted(&self) -> (encrypted: bool)
        ensures
            encrypted == self@.room.encrypted,
    {
        self.room.encrypted
    }

    /// Whether anyone may join the room.
    pub fn is_public(&self) -> (public: bool)
        ensures
            public == self@.room.public,
    {
        self.room.public
    }

    /// Whether the room is a conversation between two users.
    pub fn is_direct(&self) -> (direct: bool)
        ensures
            direct == self@.room.direct,
    {
        self.room.direct
    }

    /// The canonical alias of the room, if it has one.
    pub fn alias(&self) -> (alias: &Option<String>)
        ensures
            *alias == self@.room.canonical_alias,
    {
        &self.room.canonical_alias
    }

    /// The identifier of the room.
    pub fn room_id(&self) -> (room_id: &RoomId)
        ensures
            *room_id == self@.room_id,
    {
        &self.room_id
    }

    /// What the client knows of the room.
    pub fn room(&self) -> (room: &RoomInfo)
        ensures
            *room == self@.room,
    {
        &self.room
    }

    /// Takes in what the client has learnt of the room.
    pub fn update_room(&mut self, room: RoomInfo)
        ensures
            final(self)@ == (RoomView { room, ..old(self)@ }),
    {
        self.room = room;
    }

    /// The user that this client acts for.
    pub fn own_user_id(&self) -> (user_id: &UserId)
        ensures
            *user_id == self@.own_user_id,
    {
        &self.own_user_id
    }

    /// The homeserver that the room is reached through.
    pub fn homeserver(&self) -> (homeserver: &Url)
        ensures
            *homeserver == self@.homeserver,
    {
        &self.homeserver
    }

    /// The display of the room, unless it is detached.
    pub fn buffer_handle(&self) -> (buffer: &Option<Buffer>)
        ensures
            buffer_view(*buffer) == self@.buffer,
    {
        &self.buffer
    }

    /// Attaches a display, or detaches the display with `None`.
    pub fn set_buffer(&mut self, buffer: Option<Buffer>)
        ensures
            final(self)@ == (RoomView { buffer: buffer_view(buffer), ..old(self)@ }),
    {
        self.buffer = buffer;
    }

    /// The cursor into the history.
    pub fn prev_batch(&self) -> (cursor: &Option<PrevBatch>)
        ensures
            cursor_view(*cursor) == self@.prev_batch,
    {
        &self.prev_batch
    }

    /// The messages on their way.
    pub fn outgoing_messages(&self) -> (queue: &MessageQueue)
        ensures
            queue@ == self@.outgoing,
    {
        &self.outgoing_messages
    }

    /// Whether a request for history is in flight.
    pub fn is_busy(&self) -> (busy: bool)
        ensures
            busy == self@.busy,
    {
        self.messages_in_flight.locked()
    }

    /// Forgets the cursor: no history is fetched until it is set again.
    pub fn reset_prev_batch(&mut self)
        ensures
            final(self)@ == (RoomView { prev_batch: None, ..old(self)@ }),
    {
        self.prev_batch = None;
    }

    /// Puts the lines of a rendered event at the end of the display. While
    /// the display is detached nothing happens.
    pub fn print_rendered_event(&mut self, rendered: &RenderedEvent, now: i64)
        ensures
            final(self)@ == old(self)@.printed(rendered@, now),
    {
        match &mut self.buffer {
            Some(buffer) => {
                buffer.print_rendered_event(rendered, now);
            },
            None => {},
        }
    }

    /// What becomes of the rendering of an event's content.
    ///
    /// Content of a kind that does not go on display has none, whatever the
    /// renderer made of it. Else the lines of the rendering get the tags of
    /// the event and of its sender.
    pub fn render_message_content(
        &self,
        event_id: &EventId,
        sender: &UserId,
        renderable: bool,
        rendered: &Option<RenderedEvent>,
    ) -> (identified: Option<RenderedEvent>)
        ensures
            rendered_view(identified) == message_content_rendering(
                event_id@,
                sender@,
                renderable,
                rendered_view(*rendered),
            ),
    {
        match rendered {
            Some(r) => if renderable {
                Some(r.identified(event_id, sender))
            } else {
                None
            },
            None => None,
        }
    }

    /// What becomes of the rendering of a live event: the lines get the
    /// tags of the event and of its sender, and the tags that say whether
    /// the message is one of this client's own user.
    pub fn render_sync_message(
        &self,
        event: &AnySyncMessageEvent,
        rendered: &Option<RenderedEvent>,
    ) -> (tagged: Option<RenderedEvent>)
        ensures
            rendered_view(tagged) == sync_message_rendering(
                self@.own_user_id@,
                *event,
                rendered_view(*rendered),
            ),
    {
        match self.render_message_content(
            &event.event_id,
            &event.sender,
            is_renderable(&event.content),
            rendered,
        ) {
            Some(r) => if event.sender.same(&self.own_user_id) {
                Some(r.add_self_tags())
            } else {
                Some(r.add_msg_tags())
            },
            None => None,
        }
    }

    /// Notes a message as on its way under `uuid`, and puts its local echo
    /// on display where local echoes are wanted, the message is a text
    /// message and `echo` holds what the renderer made of it.
    pub fn queue_outgoing_message(
        &mut self,
        uuid: u128,
        content: RoomMessageEventContent,
        local_echo: bool,
        echo: &Option<RenderedEvent>,
        now: i64,
    )
        ensures
            final(self)@ == old(self)@.queued(uuid, content, local_echo, rendered_view(*echo), now),
    {
        let is_text = match content.msgtype {
            MessageType::Text => true,
            _ => false,
        };
        match echo {
            Some(rendered) => {
                if local_echo && is_text {
                    let mut extra: Vec<String> = Vec::new();
                    extra.push(echo_tag_text(uuid));
                    assert(texts(extra@) =~= seq![echo_tag(uuid)]);
                    let local_echo = rendered.tagged(&extra).add_self_tags();
                    self.print_rendered_event(&local_echo, now);
                    self.outgoing_messages.add_with_echo(uuid, content);
                } else {
                    self.outgoing_messages.add(uuid, content);
                }
            },
            None => {
                self.outgoing_messages.add(uuid, content);
            },
        }
    }

    /// Starts the sending of a message.
    ///
    /// With a connection the message is noted as on its way under a fresh
    /// transaction identifier, which is returned for the caller to send the
    /// message under; its local echo goes on display as
    /// [`MatrixRoom::queue_outgoing_message`] says. Without a connection
    /// the user is told so on the display and nothing is sent.
    pub fn send_message(
        &mut self,
        content: RoomMessageEventContent,
        connected: bool,
        local_echo: bool,
        echo: &Option<RenderedEvent>,
        now: i64,
    ) -> (transaction: Option<u128>)
        ensures
            match transaction {
                Some(uuid) => connected && final(self)@ == old(self)@.queued(
                    uuid,
                    content,
                    local_echo,
                    rendered_view(*echo),
                    now,
                ),
                None => !connected && final(self)@ == old(self)@.with_lines(
                    old(self)@.lines().push(not_connected_line(now)),
                ),
            },
    {
        if connected {
            let uuid = fresh_transaction_id();
            self.queue_outgoing_message(uuid, content, local_echo, echo, now);
            Some(uuid)
        } else {
            match &mut self.buffer {
                Some(buffer) => {
                    let line = Line {
                        date: now,
                        date_printed: now,
                        tags: Vec::new(),
                        prefix: String::new(),
                        message: String::from_str("Error not connected"),
                    };
                    assert(line@.tags =~= Seq::<Seq<char>>::empty());
                    assert(line@ == not_connected_line(now));
                    buffer.print_line(line);
                },
                None => {},
            }
            None
        }
    }

    /// Takes note that the homeserver has made the event `event_id` of the
    /// message sent under `uuid`.
    ///
    /// If the message is on its way, it is taken off the queue and the
    /// confirmation is returned: the event of this client's own user, sent
    /// at `now_ms`, for the caller to render. If it is not, nothing
    /// changes: the confirmation has been dealt with before.
    pub fn handle_outgoing_message(
        &mut self,
        uuid: u128,
        event_id: EventId,
        now_ms: u64,
    ) -> (confirmation: Option<Confirmation>)
        ensures
            final(self)@ == old(self)@.settled(uuid),
            confirmation == old(self)@.confirmation(uuid, event_id, now_ms),
    {
        match self.outgoing_messages.remove(uuid) {
            Some((echo, content)) => Some(
                Confirmation {
                    uuid,
                    echo,
                    event: AnySyncMessageEvent {
                        event_id,
                        sender: self.own_user_id.duplicate(),
                        origin_server_ts: now_ms,
                        transaction_id: None,
                        content: AnyMessageEventContent::RoomMessage(content),
                    },
                },
            ),
            None => None,
        }
    }

    /// Puts a confirmed message on display: in the place of its local echo
    /// where it has one, at the end where it has none.
    pub fn finish_outgoing_message(
        &mut self,
        confirmation: &Confirmation,
        rendered: &Option<RenderedEvent>,
        now: i64,
    )
        ensures
            final(self)@ == old(self)@.confirmed(*confirmation, rendered_view(*rendered), now),
    {
        match self.render_sync_message(&confirmation.event, rendered) {
            Some(r) => {
                if confirmation.echo {
                    match &mut self.buffer {
                        Some(buffer) => {
                            buffer.replace_local_echo(confirmation.uuid, &r);
                        },
                        None => {},
                    }
                } else {
                    self.print_rendered_event(&r, now);
                }
            },
            None => {},
        }
    }

    /// Takes note that the message sent under `uuid` could not be sent: it
    /// is no longer on its way. Its local echo, if it has one, stays.
    pub fn handle_send_failure(&mut self, uuid: u128)
        ensures
            final(self)@ == old(self)@.settled(uuid),
    {
        let _ = self.outgoing_messages.remove(uuid);
    }

    /// Puts an event of a page of history on display, with the tags of the
    /// event and of its sender, if it is a message that is no edit, of a
    /// kind that is shown, and `rendered` holds what the renderer made of
    /// it. Any other event leaves the display as it is.
    pub fn handle_room_event(
        &mut self,
        event: &AnyRoomEvent,
        rendered: &Option<RenderedEvent>,
        now: i64,
    )
        ensures
            final(self)@ == (match historical_rendering(*event, rendered_view(*rendered)) {
                Some(r) => old(self)@.printed(r, now),
                None => old(self)@,
            }),
    {
        match event {
            AnyRoomEvent::Message(message) => {
                if !message.is_edit() {
                    match self.render_message_content(
                        &message.event_id,
                        &message.sender,
                        is_renderable(&message.content),
                        rendered,
                    ) {
                        Some(r) => {
                            self.print_rendered_event(&r, now);
                        },
                        None => {},
                    }
                }
            },
            AnyRoomEvent::RedactedMessage => {},
            AnyRoomEvent::RedactedState => {},
            AnyRoomEvent::State => {},
        }
    }

    /// Starts the fetching of a page of history.
    ///
    /// Where there is a cursor, no request is in flight and there is a
    /// connection, the single-flight guard is taken and the request is
    /// returned for the caller to send. Else nothing changes and nothing is
    /// to be sent.
    pub fn get_messages(&mut self, connected: bool) -> (request: Option<MessagesRequest>)
        ensures
            request.is_some() == old(self)@.requests(connected),
            request matches Some(r) ==> Some(r@) == old(self)@.prev_batch,
            final(self)@ == old(self)@.requesting(connected),
    {
        let prev_batch = match &self.prev_batch {
            Some(p) => p.duplicate(),
            None => {
                return None;
            },
        };
        if !connected {
            return None;
        }
        match self.messages_in_flight.try_lock() {
            Ok(guard) => Some(MessagesRequest { prev_batch, guard }),
            Err(_) => None,
        }
    }

    /// Takes in the answer to a request for a page of history; `None`
    /// stands for a request that failed.
    ///
    /// Each entry of the page goes on display as
    /// [`MatrixRoom::handle_room_event`] says, the cursor moves on, and the
    /// display is sorted unless the page was empty and fetched backwards.
    /// The single-flight guard is released either way.
    pub fn receive_messages(
        &mut self,
        request: MessagesRequest,
        response: Option<Messages>,
        now: i64,
    )
        ensures
            final(self)@ == old(self)@.received(request@, response, now),
    {
        let MessagesRequest { prev_batch, guard } = request;
        match response {
            Some(page) => {
                let Messages { chunk, end } = page;
                let mut i: usize = 0;
                while i < chunk.len()
                    invariant
                        i <= chunk.len(),
                        self@ == old(self)@.with_lines(
                            old(self)@.lines() + page_lines(chunk@.take(i as int), now),
                        ),
                    decreases chunk.len() - i,
                {
                    proof {
                        assert(chunk@.take(i + 1).drop_last() =~= chunk@.take(i as int));
                        assert(chunk@.take(i + 1).last() == chunk@[i as int]);
                        let before = old(self)@.lines() + page_lines(chunk@.take(i as int), now);
                        let added = entry_lines(chunk@[i as int], now);
                        assert(before + added =~= old(self)@.lines() + page_lines(
                            chunk@.take(i + 1),
                            now,
                        ));
                        assert(before + Seq::<LineView>::empty() =~= before);
                    }
                    match &chunk[i] {
                        Some(historical) => {
                            self.handle_room_event(&historical.event, &historical.rendered, now);
                        },
                        None => {},
                    }
                    i += 1;
                }
                assert(chunk@.take(chunk.len() as int) =~= chunk@);
                match prev_batch {
                    PrevBatch::Forward(token) => {
                        self.prev_batch = Some(PrevBatch::Backwards(token));
                        self.sort_messages();
                    },
                    PrevBatch::Backwards(_) => {
                        if chunk.len() == 0 {
                            self.prev_batch = None;
                        } else {
                            self.prev_batch = match end {
                                Some(token) => Some(PrevBatch::Backwards(token)),
                                None => None,
                            };
                            self.sort_messages();
                        }
                    },
                }
            },
            None => {},
        }
        self.messages_in_flight.unlock(guard);
    }

    /// Sorts the lines on display by their dates. Lines of one date keep
    /// their order.
    pub fn sort_messages(&mut self)
        ensures
            final(self)@ == old(self)@.with_lines(sorted_by_date(old(self)@.lines())),
    {
        match &mut self.buffer {
            Some(buffer) => {
                buffer.sort_messages();
            },
            None => {},
        }
    }

    /// Applies a redaction to the lines on display.
    ///
    /// `redacter` is the name under which the roster knows the sender of
    /// the redaction. Where the roster does not know the sender, or the
    /// event is no redaction, nothing changes.
    pub fn redact_event(
        &mut self,
        event: &AnySyncMessageEvent,
        redacter: &Option<String>,
        style: RedactionStyle,
    )
        ensures
            final(self)@ == old(self)@.redacted(*event, text_view(*redacter), style),
    {
        match (&event.content, redacter) {
            (AnyMessageEventContent::RoomRedaction { redacts, reason }, Some(name)) => {
                match &mut self.buffer {
                    Some(buffer) => {
                        buffer.redact_event(redacts, name.as_str(), reason, style);
                    },
                    None => {},
                }
            },
            _ => {},
        }
    }

    /// Applies an edit to the lines on display, where `rendered` holds
    /// what the renderer made of the new content.
    ///
    /// The lines of the rendering get the tags of the event that is
    /// replaced and of the sender of the edit. The edit is taken only if
    /// the first line of the replaced event carries the tag of that sender.
    pub fn handle_edits(
        &mut self,
        event: &AnySyncMessageEvent,
        rendered: &Option<RenderedEvent>,
        now: i64,
    )
        ensures
            final(self)@ == old(self)@.edited(*event, rendered_view(*rendered), now),
    {
        if let Some((event_id, content)) = event.get_edit() {
            match self.render_message_content(
                event_id,
                &event.sender,
                is_renderable_type(content.msgtype),
                rendered,
            ) {
                Some(r) => {
                    let r = if event.sender.same(&self.own_user_id) {
                        r.add_self_tags()
                    } else {
                        r.add_msg_tags()
                    };
                    match &mut self.buffer {
                        Some(buffer) => {
                            buffer.replace_edit(event_id, &event.sender, &r, now);
                        },
                        None => {},
                    }
                },
                None => {},
            }
        }
    }

    /// Puts a live event on display, where `rendered` holds what the
    /// renderer made of it: its lines get the tags of the event, of its
    /// sender, and of whose message it is.
    pub fn print_sync_message(
        &mut self,
        event: &AnySyncMessageEvent,
        rendered: &Option<RenderedEvent>,
        now: i64,
    )
        ensures
            final(self)@ == (match sync_message_rendering(
                old(self)@.own_user_id@,
                *event,
                rendered_view(*rendered),
            ) {
                Some(r) => old(self)@.printed(r, now),
                None => old(self)@,
            }),
    {
        match self.render_sync_message(event, rendered) {
            Some(r) => {
                self.print_rendered_event(&r, now);
            },
            None => {},
        }
    }

    /// Routes a timeline event of the live stream, where `transaction` is
    /// the transaction that the event says it came from.
    pub fn route_message(
        &mut self,
        event: &AnySyncMessageEvent,
        transaction: Option<u128>,
        now_ms: u64,
    ) -> (action: SyncAction)
        ensures
            final(self)@ == old(self)@.routed(transaction),
            action == old(self)@.message_route(*event, transaction, now_ms),
    {
        match transaction {
            Some(uuid) => {
                match self.handle_outgoing_message(uuid, event.event_id.duplicate(), now_ms) {
                    Some(confirmation) => SyncAction::Confirm(confirmation),
                    None => SyncAction::Nothing,
                }
            },
            None => {
                match &event.content {
                    AnyMessageEventContent::RoomRedaction { .. } => SyncAction::Redact,
                    _ => if event.is_edit() {
                        SyncAction::Edit
                    } else {
                        SyncAction::Print
                    },
                }
            },
        }
    }

    /// Routes a timeline event of the live stream.
    ///
    /// An event whose transaction id reads as a transaction identifier is a
    /// message of this client: see [`MatrixRoom::route_message`].
    pub fn handle_room_message(
        &mut self,
        event: &AnySyncMessageEvent,
        now_ms: u64,
    ) -> (action: SyncAction)
        ensures
            final(self)@ == old(self)@.routed(transaction_of(event.transaction_id)),
            action == old(self)@.message_route(
                *event,
                transaction_of(event.transaction_id),
                now_ms,
            ),
    {
        let transaction = transaction_id_of(&event.transaction_id);
        self.route_message(event, transaction, now_ms)
    }

    /// Puts a message whose content the homeserver has removed on display,
    /// where `rendered` holds what the renderer made of it. Other redacted
    /// events are not shown.
    pub fn handle_redacted_events(
        &mut self,
        event: &AnyRedactedSyncMessageEvent,
        rendered: &Option<RenderedEvent>,
        now: i64,
    )
        ensures
            final(self)@ == (match rendered_view(*rendered) {
                Some(r) if *event is RoomMessage => old(self)@.printed(r, now),
                _ => old(self)@,
            }),
    {
        match event {
            AnyRedactedSyncMessageEvent::RoomMessage { .. } => {
                match rendered {
                    Some(r) => {
                        self.print_rendered_event(r, now);
                    },
                    None => {},
                }
            },
            AnyRedactedSyncMessageEvent::Other => {},
        }
    }

    /// Whether a change of membership goes on display: only where it came
    /// as part of the live timeline, not with the state of the room. The
    /// roster takes note of it either way.
    pub fn handle_membership_event(&self, event: &MemberEvent, state_event: bool) -> (shown: bool)
        ensures
            shown == !state_event,
    {
        !state_event
    }

    /// Seeds the cursor anew while the display is attached and empty, so
    /// that history can be fetched again after the display was cleared.
    pub fn set_prev_batch(&mut self)
        ensures
            final(self)@ == old(self)@.reseeded(),
    {
        let empty = match &self.buffer {
            Some(buffer) => buffer.num_lines() == 0,
            None => false,
        };
        if empty {
            self.prev_batch = match &self.room.last_prev_batch {
                Some(token) => Some(PrevBatch::Backwards(token.clone())),
                None => None,
            };
        }
    }

    /// Says what a state event of the live stream asks the caller to
    /// refresh.
    pub fn handle_sync_state_event(&self, event: &AnySyncStateEvent, state_event: bool) -> (action:
        StateAction)
        ensures
            action == state_route(*event, self@.room),
    {
        match event {
            AnySyncStateEvent::RoomName => StateAction::UpdateBufferName,
            AnySyncStateEvent::RoomTopic => StateAction::SetTopic,
            AnySyncStateEvent::RoomCanonicalAlias => match &self.room.canonical_alias {
                Some(_) => StateAction::SetAlias,
                None => StateAction::Nothing,
            },
            _ => StateAction::Nothing,
        }
    }

    /// Routes an event of the live stream, where `transaction` is the
    /// transaction that the event says it came from.
    ///
    /// Before anything else the cursor is seeded anew if the display is
    /// attached and empty.
    pub fn route_sync_room_event(
        &mut self,
        event: &AnySyncRoomEvent,
        transaction: Option<u128>,
        now_ms: u64,
    ) -> (action: SyncAction)
        ensures
            final(self)@ == (match *event {
                AnySyncRoomEvent::Message(_) => old(self)@.reseeded().routed(transaction),
                _ => old(self)@.reseeded(),
            }),
            action == old(self)@.reseeded().sync_route(*event, transaction, now_ms),
    {
        self.set_prev_batch();
        match event {
            AnySyncRoomEvent::Message(message) => self.route_message(message, transaction, now_ms),
            AnySyncRoomEvent::RedactedMessage(redacted) => match redacted {
                AnyRedactedSyncMessageEvent::RoomMessage { .. } => SyncAction::PrintRedacted,
                AnyRedactedSyncMessageEvent::Other => SyncAction::Nothing,
            },
            AnySyncRoomEvent::RedactedState => SyncAction::Nothing,
            AnySyncRoomEvent::State(state) => SyncAction::State(
                self.handle_sync_state_event(state, false),
            ),
        }
    }

    /// Routes an event of the live stream and says what the caller has to
    /// do next.
    pub fn handle_sync_room_event(
        &mut self,
        event: &AnySyncRoomEvent,
        now_ms: u64,
    ) -> (action: SyncAction)
        ensures
            final(self)@ == old(self)@.reseeded().routed(sync_transaction(*event)),
            action == old(self)@.reseeded().sync_route(*event, sync_transaction(*event), now_ms),
    {
        let transaction = match event {
            AnySyncRoomEvent::Message(message) => transaction_id_of(&message.transaction_id),
            _ => None,
        };
        self.route_sync_room_event(event, transaction, now_ms)
    }

    /// Says whether typing `input` is reported to the room, and as what.
    pub fn update_typing_notice(input: &str) -> (typing: Option<bool>)
        ensures
            typing == typing_notice(input@),
    {
        let chars = input.unicode_len();
        if chars >= 1 && input.get_char(0) == '/' && !(chars >= 2 && input.get_char(1) == '/') {
            None
        } else {
            Some(input.as_bytes().len() >= 4)
        }
    }

    /// The signs that show the state of the room.
    pub fn status(&self, encrypted_room_sign: &str) -> (signs: String)
        ensures
            signs@ == status_signs(self@.room.encrypted, self@.busy, encrypted_room_sign@),
    {
        let mut signs = String::new();
        if self.is_encrypted() {
            signs.append(encrypted_room_sign);
        }
        if self.is_busy() {
            signs.append("⏳");
        }
        assert(signs@ =~= status_signs(self@.room.encrypted, self@.busy, encrypted_room_sign@));
        signs
    }
}

} // verus!
