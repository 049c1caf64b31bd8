//! What holds of a room session over several steps.

use vstd::prelude::*;
use crate::buffer::{is_sorted_by_date, law_sort_sorts};
use crate::edit::{
    count_tagged, edit_accepted, first_tagged, law_edit_by_another_sender_is_rejected,
    lemma_edit_with_more_lines,
};
use crate::echo::lemma_echo_at_the_end;
use crate::events::{
    AnyMessageEventContent, AnySyncMessageEvent, EventId, MessageType, RoomMessageEventContent,
};
use crate::line::text_view;
use crate::pagination::PrevBatchView;
use crate::redaction::{
    last_redactable, law_redaction_is_idempotent, redactable, redaction_notice, run_start,
    RedactionStyle,
};
use crate::render::{identity_tags, RenderedEventView};
use crate::state::{
    class_tags, echo_rendering, edit_rendering, page_lines, sync_message_rendering, Messages,
    RoomView, SyncAction,
};
use crate::transaction::echo_tag;
use crate::utils::{content_edit_of, event_id_tag, sender_tag};

verus! {

/// A message is on its way from the moment its sending starts: whether or
/// not it is echoed, the queue holds its content under its transaction,
/// and says that it is echoed only if an echo went on display.
pub proof fn law_sent_message_is_on_its_way(
    room: RoomView,
    uuid: u128,
    content: RoomMessageEventContent,
    local_echo: bool,
    echo: Option<RenderedEventView>,
    now: i64,
)
    ensures
        room.queued(uuid, content, local_echo, echo, now).outgoing.contains_key(uuid),
        room.queued(uuid, content, local_echo, echo, now).outgoing[uuid].1 == content,
        room.queued(uuid, content, local_echo, echo, now).outgoing[uuid].0 ==> local_echo
            && echo.is_some() && content.msgtype == MessageType::Text,
        !room.queued(uuid, content, local_echo, echo, now).outgoing[uuid].0 ==> room.queued(
            uuid,
            content,
            local_echo,
            echo,
            now,
        ).buffer == room.buffer,
{
}

/// A message on its way is settled exactly once.
///
/// Whichever comes first, the homeserver's answer to the sending, the
/// event in the live stream, or the failure of the sending: it finds the
/// message on its way and takes it off the queue. Whatever comes after it
/// for the same transaction finds nothing, confirms nothing and changes
/// nothing.
pub proof fn law_outgoing_message_is_settled_once(
    room: RoomView,
    uuid: u128,
    event_id: EventId,
    now_ms: u64,
    later: AnySyncMessageEvent,
    later_ms: u64,
)
    requires
        room.outgoing.contains_key(uuid),
    ensures
        room.confirmation(uuid, event_id, now_ms).is_some(),
        room.message_route(later, Some(uuid), now_ms) is Confirm,
        !room.settled(uuid).outgoing.contains_key(uuid),
        room.settled(uuid).confirmation(uuid, later.event_id, later_ms).is_none(),
        room.settled(uuid).message_route(later, Some(uuid), later_ms) == SyncAction::Nothing,
        room.settled(uuid).routed(Some(uuid)) == room.settled(uuid),
        room.settled(uuid).settled(uuid) == room.settled(uuid),
{
    assert(room.outgoing.remove(uuid).remove(uuid) =~= room.outgoing.remove(uuid));
}

/// A second redaction of an event changes nothing, where the lines of the
/// event that no redaction has touched stand in one unbroken run.
pub proof fn law_second_redaction_changes_nothing(
    room: RoomView,
    event: AnySyncMessageEvent,
    redacter: Option<Seq<char>>,
    style: RedactionStyle,
    second_redacter: Option<Seq<char>>,
    second_style: RedactionStyle,
)
    requires
        redacter.is_some(),
        event.content matches AnyMessageEventContent::RoomRedaction { redacts, .. }
            ==> forall|i: int|
            0 <= i < run_start(
                room.lines(),
                event_id_tag(redacts@),
                last_redactable(room.lines(), event_id_tag(redacts@)),
            ) ==> !redactable(#[trigger] room.lines()[i], event_id_tag(redacts@)),
    ensures
        room.redacted(event, redacter, style).redacted(event, second_redacter, second_style)
            == room.redacted(event, redacter, style),
{
    match (event.content, redacter, second_redacter) {
        (
            AnyMessageEventContent::RoomRedaction { redacts, reason },
            Some(name),
            Some(second_name),
        ) => {
            if room.buffer.is_some() {
                law_redaction_is_idempotent(
                    room.lines(),
                    redacts@,
                    redaction_notice(name, text_view(reason)),
                    style,
                    redaction_notice(second_name, text_view(reason)),
                    second_style,
                );
            }
        },
        _ => {},
    }
}

/// An edit that renders to more lines than the event had on display
/// leaves the display in ascending order of the dates, and the event with
/// exactly one line for each rendered line.
pub proof fn law_edit_with_more_lines_is_sorted(
    room: RoomView,
    event: AnySyncMessageEvent,
    rendered: RenderedEventView,
    now: i64,
)
    requires
        room.buffer.is_some(),
        content_edit_of(event.content).is_some(),
        edit_rendering(room.own_user_id@, event, Some(rendered)).is_some(),
        edit_accepted(
            room.lines(),
            event_id_tag(content_edit_of(event.content).unwrap().event_id@),
            sender_tag(event.sender@),
        ),
        count_tagged(
            room.lines(),
            event_id_tag(content_edit_of(event.content).unwrap().event_id@),
        ) < rendered.lines.len(),
    ensures
        is_sorted_by_date(room.edited(event, Some(rendered), now).lines()),
        count_tagged(
            room.edited(event, Some(rendered), now).lines(),
            event_id_tag(content_edit_of(event.content).unwrap().event_id@),
        ) == rendered.lines.len(),
{
    let target = content_edit_of(event.content).unwrap().event_id@;
    let r = edit_rendering(room.own_user_id@, event, Some(rendered)).unwrap();
    assert(r == rendered.with_tags(identity_tags(target, event.sender@)).with_tags(
        class_tags(room.own_user_id@, event.sender@),
    ));
    assert forall|k: int| 0 <= k < r.lines.len() implies (#[trigger] r.lines[k]).tags.contains(
        event_id_tag(target),
    ) by {
        let tags = rendered.lines[k].tags;
        assert(r.lines[k].tags[tags.len() as int] == event_id_tag(target));
    }
    lemma_edit_with_more_lines(room.lines(), target, event.sender@, r, now);
}

/// An edit by a user who did not send the event leaves the session as it
/// was: where the first line of the event carries the tag of no sender but
/// `author`, the edit of any other sender is not taken.
pub proof fn law_foreign_edit_changes_nothing(
    room: RoomView,
    event: AnySyncMessageEvent,
    author: Seq<char>,
    rendered: Option<RenderedEventView>,
    now: i64,
)
    requires
        event.sender@ != author,
        content_edit_of(event.content) matches Some(replacement) ==> (first_tagged(
            room.lines(),
            event_id_tag(replacement.event_id@),
        ) >= 0 ==> forall|other: Seq<char>|
            room.lines()[first_tagged(room.lines(), event_id_tag(replacement.event_id@))].has_tag(
                #[trigger] sender_tag(other),
            ) ==> other == author),
    ensures
        room.edited(event, rendered, now) == room,
{
    match edit_rendering(room.own_user_id@, event, rendered) {
        Some(r) => {
            let target = content_edit_of(event.content).unwrap().event_id@;
            law_edit_by_another_sender_is_rejected(
                room.lines(),
                target,
                author,
                event.sender@,
                r,
                now,
            );
            if room.buffer.is_none() {
                assert(room.with_lines(room.lines()) == room);
            } else {
                assert(room.with_lines(room.lines()).buffer =~= room.buffer);
            }
        },
        None => {},
    }
}

/// While a request for history is in flight, asking for history makes no
/// request and changes nothing; and once a request is made, none is made
/// again before its answer has come in.
pub proof fn law_one_request_in_flight(room: RoomView, connected: bool, again: bool)
    ensures
        room.busy ==> !room.requests(connected) && room.requesting(connected) == room,
        room.requests(connected) ==> room.requesting(connected).busy,
        room.requests(connected) ==> !room.requesting(connected).requests(again),
        room.requests(connected) ==> room.requesting(connected).requesting(again)
            == room.requesting(connected),
{
}

/// After a page that was fetched forwards, the session pages backwards
/// from the same token, no request is in flight, and the lines on display
/// stand in ascending order of their dates.
pub proof fn law_forward_page_turns_backwards(
    room: RoomView,
    token: Seq<char>,
    page: Messages,
    now: i64,
)
    ensures
        room.received(PrevBatchView::Forward(token), Some(page), now).prev_batch == Some(
            PrevBatchView::Backwards(token),
        ),
        !room.received(PrevBatchView::Forward(token), Some(page), now).busy,
        is_sorted_by_date(room.received(PrevBatchView::Forward(token), Some(page), now).lines()),
{
    law_sort_sorts(room.lines() + page_lines(page.chunk@, now));
}

/// After an empty page that was fetched backwards the history is at its
/// end: the cursor is gone, the display is as it was, and asking for
/// history makes no request and changes nothing.
pub proof fn law_empty_page_ends_history(
    room: RoomView,
    token: Seq<char>,
    page: Messages,
    now: i64,
    connected: bool,
)
    requires
        page.chunk@.len() == 0,
    ensures
        room.received(PrevBatchView::Backwards(token), Some(page), now).prev_batch.is_none(),
        room.received(PrevBatchView::Backwards(token), Some(page), now).buffer == room.buffer,
        !room.received(PrevBatchView::Backwards(token), Some(page), now).requests(connected),
        room.received(PrevBatchView::Backwards(token), Some(page), now).requesting(connected)
            == room.received(PrevBatchView::Backwards(token), Some(page), now),
{
    assert(room.lines() + page_lines(page.chunk@, now) =~= room.lines());
    if room.buffer.is_some() {
        assert(room.with_lines(room.lines()).buffer =~= room.buffer);
    }
}

/// A request that failed leaves cursor and display as they were, so that
/// it can be made again.
pub proof fn law_failed_request_can_be_repeated(
    room: RoomView,
    consumed: PrevBatchView,
    now: i64,
    connected: bool,
)
    requires
        room.prev_batch.is_some(),
    ensures
        room.received(consumed, None, now).prev_batch == room.prev_batch,
        room.received(consumed, None, now).buffer == room.buffer,
        room.received(consumed, None, now).requests(connected) == connected,
{
}

/// The confirmation of a message rewrites its local echo in place.
///
/// A text message is sent with a local echo and then confirmed, with a
/// rendering of as many lines as the echo has. Then the message is no
/// longer on its way, and the display holds what it held before the
/// sending and, behind that, the lines of the echo with the messages of the
/// rendering.
pub proof fn law_confirmation_rewrites_the_echo(
    room: RoomView,
    uuid: u128,
    content: RoomMessageEventContent,
    echo: RenderedEventView,
    sent: i64,
    event_id: EventId,
    now_ms: u64,
    rendered: RenderedEventView,
    now: i64,
)
    requires
        room.buffer.is_some(),
        content.msgtype == MessageType::Text,
        echo.lines.len() == rendered.lines.len(),
    ensures
        ({
            let queued = room.queued(uuid, content, true, Some(echo), sent);
            let confirmation = queued.confirmation(uuid, event_id, now_ms);
            let after = queued.settled(uuid).confirmed(confirmation.unwrap(), Some(rendered), now);
            let shown = echo_rendering(echo, uuid).display(sent);
            &&& queued.lines() == room.lines() + shown
            &&& confirmation.is_some()
            &&& !after.outgoing.contains_key(uuid)
            &&& after.lines() == room.lines() + Seq::new(
                shown.len(),
                |k: int| shown[k].with_message(rendered.lines[k].message),
            )
        }),
{
    let queued = room.queued(uuid, content, true, Some(echo), sent);
    let confirmation = queued.confirmation(uuid, event_id, now_ms).unwrap();
    let shown = echo_rendering(echo, uuid).display(sent);
    let r = sync_message_rendering(room.own_user_id@, confirmation.event, Some(rendered)).unwrap();
    assert forall|k: int| 0 <= k < shown.len() implies (#[trigger] shown[k]).has_tag(
        echo_tag(uuid),
    ) by {
        let tags = echo.lines[k].tags;
        assert(shown[k].tags[tags.len() as int] == echo_tag(uuid));
    }
    lemma_echo_at_the_end(room.lines(), shown, echo_tag(uuid), r);
    assert(Seq::new(shown.len(), |k: int| shown[k].with_message(r.lines[k].message)) =~= Seq::new(
        shown.len(),
        |k: int| shown[k].with_message(rendered.lines[k].message),
    ));
}

} // verus!
