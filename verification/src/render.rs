//! What the renderer made of an event: a prefix and the lines to display.

use vstd::prelude::*;
use vstd::string::StringExecFns;
use crate::events::{AnyMessageEventContent, EventId, MessageType, UserId};
use crate::line::{append_texts, copy_texts, texts, LineView};
use crate::utils::{event_id_tag, sender_tag, ToTag};

verus! {

/// One line of a rendered event.
#[derive(Debug, Clone, PartialEq, Eq)]
pub struct RenderedLine {
    pub message: String,
    pub tags: Vec<String>,
}

/// The lines of a rendered event.
#[derive(Debug, Clone, PartialEq, Eq)]
pub struct RenderedContent {
    pub lines: Vec<RenderedLine>,
}

/// An event as it goes on display.
#[derive(Debug, Clone, PartialEq, Eq)]
pub struct RenderedEvent {
    /// What stands before each of the lines, most often the sender's name.
    pub prefix: String,
    /// When the event happened, in seconds since the Unix epoch.
    pub message_timestamp: i64,
    pub content: RenderedContent,
}

/// A rendered line with its texts as sequences of characters.
pub ghost struct RenderedLineView {
    pub message: Seq<char>,
    pub tags: Seq<Seq<char>>,
}

/// A rendered event with its texts as sequences of characters.
pub ghost struct RenderedEventView {
    pub prefix: Seq<char>,
    pub message_timestamp: i64,
    pub lines: Seq<RenderedLineView>,
}

impl View for RenderedLine {
    type V = RenderedLineView;

    open spec fn view(&self) -> RenderedLineView {
        RenderedLineView { message: self.message@, tags: texts(self.tags@) }
    }
}

/// The views of a sequence of rendered lines.
pub open spec fn rendered_line_views(lines: Seq<RenderedLine>) -> Seq<RenderedLineView> {
    lines.map_values(|l: RenderedLine| l@)
}

impl View for RenderedEvent {
    type V = RenderedEventView;

    open spec fn view(&self) -> RenderedEventView {
        RenderedEventView {
            prefix: self.prefix@,
            message_timestamp: self.message_timestamp,
            lines: rendered_line_views(self.content.lines@),
        }
    }
}

/// The view of a rendering that may be missing.
pub open spec fn rendered_view(rendered: Option<RenderedEvent>) -> Option<RenderedEventView> {
    match rendered {
        Some(r) => Some(r@),
        None => None,
    }
}

/// The tags of a message of this client's own user.
pub open spec fn self_tags() -> Seq<Seq<char>> {
    seq!["notify_none"@, "no_highlight"@, "self_msg"@]
}

/// The tags of a message of another user.
pub open spec fn msg_tags() -> Seq<Seq<char>> {
    seq!["notify_message"@]
}

impl RenderedEventView {
    /// The event with `extra` at the end of the tags of each of its lines.
    pub open spec fn with_tags(self, extra: Seq<Seq<char>>) -> RenderedEventView {
        RenderedEventView {
            lines: self.lines.map_values(
                |l: RenderedLineView| RenderedLineView { tags: l.tags + extra, ..l },
            ),
            ..self
        }
    }

    /// The lines that go on display for the rendered lines from index
    /// `from` on, dated `date` and put on display at `now`. There are none
    /// where `from` lies behind the last rendered line.
    pub open spec fn display_from(self, from: int, date: i64, now: i64) -> Seq<LineView> {
        Seq::new(
            if from <= self.lines.len() {
                (self.lines.len() - from) as nat
            } else {
                0
            },
            |k: int|
                LineView {
                    date,
                    date_printed: now,
                    tags: self.lines[from + k].tags,
                    prefix: self.prefix,
                    message: self.lines[from + k].message,
                },
        )
    }

    /// The lines that go on display for the whole event, put there at `now`.
    pub open spec fn display(self, now: i64) -> Seq<LineView> {
        self.display_from(0, self.message_timestamp, now)
    }
}

/// Whether messages of this kind go on display.
pub open spec fn renderable_type(msgtype: MessageType) -> bool {
    msgtype != MessageType::VerificationRequest && msgtype != MessageType::Other
}

/// Whether events with this content go on display: encrypted events that
/// could not be read, and room messages of the kinds that are shown.
pub open spec fn renderable(content: AnyMessageEventContent) -> bool {
    match content {
        AnyMessageEventContent::RoomEncrypted => true,
        AnyMessageEventContent::RoomMessage(message) => renderable_type(message.msgtype),
        _ => false,
    }
}

/// The tags by which the lines of an event are found again: that of the
/// event and that of its sender.
pub open spec fn identity_tags(event_id: Seq<char>, sender: Seq<char>) -> Seq<Seq<char>> {
    seq![event_id_tag(event_id), sender_tag(sender)]
}

/// Whether messages of this kind go on display.
pub fn is_renderable_type(msgtype: MessageType) -> (shown: bool)
    ensures
        shown == renderable_type(msgtype),
{
    match msgtype {
        MessageType::VerificationRequest | MessageType::Other => false,
        _ => true,
    }
}

/// Whether events with this content go on display.
pub fn is_renderable(content: &AnyMessageEventContent) -> (shown: bool)
    ensures
        shown == renderable(*content),
{
    match content {
        AnyMessageEventContent::RoomEncrypted => true,
        AnyMessageEventContent::RoomMessage(message) => is_renderable_type(message.msgtype),
        _ => false,
    }
}

impl RenderedEvent {
    /// A copy of the event with copies of `extra` at the end of the tags of
    /// each of its lines.
    pub fn tagged(&self, extra: &Vec<String>) -> (tagged: Self)
        ensures
            tagged@ == self@.with_tags(texts(extra@)),
    {
        let mut lines: Vec<RenderedLine> = Vec::new();
        let mut i: usize = 0;
        while i < self.content.lines.len()
            invariant
                i <= self.content.lines.len(),
                rendered_line_views(lines@) == self@.with_tags(texts(extra@)).lines.take(i as int),
            decreases self.content.lines.len() - i,
        {
            let line = &self.content.lines[i];
            let mut tags = copy_texts(&line.tags);
            append_texts(&mut tags, extra);
            let ghost before = lines@;
            lines.push(RenderedLine { message: line.message.clone(), tags });
            proof {
                let goal = self@.with_tags(texts(extra@)).lines;
                assert(rendered_line_views(lines@) =~= rendered_line_views(before).push(
                    lines@[i as int]@,
                ));
                assert(goal.take(i + 1) =~= goal.take(i as int).push(goal[i as int]));
            }
            i += 1;
        }
        assert(self@.with_tags(texts(extra@)).lines.take(self.content.lines.len() as int)
            == self@.with_tags(texts(extra@)).lines);
        RenderedEvent {
            prefix: self.prefix.clone(),
            message_timestamp: self.message_timestamp,
            content: RenderedContent { lines },
        }
    }

    /// A copy of the event whose lines carry the tags of the event
    /// `event_id` and of its sender.
    pub fn identified(&self, event_id: &EventId, sender: &UserId) -> (tagged: Self)
        ensures
            tagged@ == self@.with_tags(identity_tags(event_id@, sender@)),
    {
        let mut extra: Vec<String> = Vec::new();
        extra.push(event_id.to_tag());
        extra.push(sender.to_tag());
        assert(texts(extra@) =~= identity_tags(event_id@, sender@));
        self.tagged(&extra)
    }

    /// Marks each line as a message of this client's own user.
    pub fn add_self_tags(self) -> (tagged: Self)
        ensures
            tagged@ == self@.with_tags(self_tags()),
    {
        let mut extra: Vec<String> = Vec::new();
        extra.push(String::from_str("notify_none"));
        extra.push(String::from_str("no_highlight"));
        extra.push(String::from_str("self_msg"));
        assert(texts(extra@) =~= self_tags());
        self.tagged(&extra)
    }

    /// Marks each line as a message of another user.
    pub fn add_msg_tags(self) -> (tagged: Self)
        ensures
            tagged@ == self@.with_tags(msg_tags()),
    {
        let mut extra: Vec<String> = Vec::new();
        extra.push(String::from_str("notify_message"));
        assert(texts(extra@) =~= msg_tags());
        self.tagged(&extra)
    }
}

} // verus!
