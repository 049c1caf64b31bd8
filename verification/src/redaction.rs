//! Redactions: how the lines of an event are changed once its content has
//! been removed.

use vstd::prelude::*;
use vstd::string::StringExecFns;
use unicode_segmentation::UnicodeSegmentation;
use crate::buffer::Buffer;
use crate::events::EventId;
use crate::line::{copy_texts, lemma_views_update, text_view, texts, Line, LineView};
use crate::utils::{event_id_tag, ToTag};

verus! {

/// How a redacted message is shown.
#[derive(Debug, Clone, Copy, PartialEq, Eq, Structural)]
pub enum RedactionStyle {
    /// The message is struck through and the notice follows it.
    StrikeThrough,
    /// The notice takes the place of the message.
    Delete,
    /// The notice follows the message.
    Notice,
}

/// The extended grapheme clusters of a text, in their order, as
/// `unicode_segmentation` finds them.
pub uninterp spec fn extended_grapheme_clusters(text: Seq<char>) -> Seq<Seq<char>>;

/// Splits a text into its extended grapheme clusters.
///
/// Calls `UnicodeSegmentation::graphemes` of `unicode_segmentation` with
/// `is_extended` set and hands each cluster on as a string. The contract
/// only gives the outcome its name: the clusters are those that the
/// outside crate finds, in the order in which its iterator yields them.
#[verifier::external_body]
fn graphemes(text: &str) -> (clusters: Vec<String>)
    ensures
        texts(clusters@) == extended_grapheme_clusters(text@),
{
    text.graphemes(true).map(|cluster| cluster.to_string()).collect()
}

/// The mark that strikes through the cluster before it.
pub open spec fn strike_mark() -> Seq<char> {
    seq!['\u{0336}']
}

/// The clusters, each followed by the strike-through mark, as one text.
pub open spec fn struck(clusters: Seq<Seq<char>>) -> Seq<char>
    decreases clusters.len(),
{
    if clusters.len() == 0 {
        Seq::empty()
    } else {
        struck(clusters.drop_last()) + clusters.last() + strike_mark()
    }
}

/// A text with each of its extended grapheme clusters struck through.
pub open spec fn strike_through(text: Seq<char>) -> Seq<char> {
    struck(extended_grapheme_clusters(text))
}

/// The tag of a line that a redaction has touched.
pub open spec fn redacted_tag() -> Seq<char> {
    "matrix_redacted"@
}

/// The notice that says who redacted a message and, if a reason was given,
/// why.
pub open spec fn redaction_notice(redacter: Seq<char>, reason: Option<Seq<char>>) -> Seq<char> {
    match reason {
        Some(reason) => "message redacted by "@ + redacter + ", reason: "@ + reason,
        None => "message redacted by "@ + redacter,
    }
}

/// The message of a redacted line. The most recent line of the event is its
/// `first` line.
pub open spec fn redacted_message(
    style: RedactionStyle,
    first: bool,
    message: Seq<char>,
    notice: Seq<char>,
) -> Seq<char> {
    match style {
        RedactionStyle::Delete => notice,
        RedactionStyle::Notice => message + " "@ + notice,
        RedactionStyle::StrikeThrough => if first {
            strike_through(message) + " "@ + notice
        } else {
            strike_through(message)
        },
    }
}

/// Whether a redaction of the event tagged `tag` has to touch the line: it
/// belongs to the event and no redaction has touched it yet.
pub open spec fn redactable(line: LineView, tag: Seq<char>) -> bool {
    line.has_tag(tag) && !line.has_tag(redacted_tag())
}

/// The index of the most recent line that a redaction has to touch, or -1
/// where there is none.
pub open spec fn last_redactable(lines: Seq<LineView>, tag: Seq<char>) -> int
    decreases lines.len(),
{
    if lines.len() == 0 {
        -1
    } else if redactable(lines.last(), tag) {
        lines.len() - 1
    } else {
        last_redactable(lines.drop_last(), tag)
    }
}

/// Where the unbroken run of lines to touch that ends just before `end`
/// begins.
pub open spec fn run_start(lines: Seq<LineView>, tag: Seq<char>, end: int) -> int
    decreases end,
{
    if end <= 0 || end > lines.len() || !redactable(lines[end - 1], tag) {
        end
    } else {
        run_start(lines, tag, end - 1)
    }
}

/// A line after a redaction has touched it.
pub open spec fn redacted_line(
    line: LineView,
    style: RedactionStyle,
    first: bool,
    notice: Seq<char>,
) -> LineView {
    line.with_message(redacted_message(style, first, line.message, notice)).with_tag(
        redacted_tag(),
    )
}

/// The lines after the event `redacts` has been redacted.
///
/// The most recent line of the event that no redaction has touched is its
/// first line; the lines to touch are that line and the unbroken run of
/// such lines before it. Without such a line nothing changes.
pub open spec fn redact(
    lines: Seq<LineView>,
    redacts: Seq<char>,
    notice: Seq<char>,
    style: RedactionStyle,
) -> Seq<LineView> {
    let tag = event_id_tag(redacts);
    let last = last_redactable(lines, tag);
    if last < 0 {
        lines
    } else {
        let start = run_start(lines, tag, last);
        Seq::new(
            lines.len(),
            |i: int|
                if start <= i <= last {
                    redacted_line(lines[i], style, i == last, notice)
                } else {
                    lines[i]
                },
        )
    }
}

/// The index of the most recent line to touch lies within the lines, and no
/// line behind it is to be touched.
pub proof fn lemma_last_redactable(lines: Seq<LineView>, tag: Seq<char>)
    ensures
        -1 <= last_redactable(lines, tag) < lines.len(),
        last_redactable(lines, tag) >= 0 ==> redactable(lines[last_redactable(lines, tag)], tag),
        forall|i: int|
            last_redactable(lines, tag) < i < lines.len() ==> !redactable(#[trigger] lines[i], tag),
    decreases lines.len(),
{
    if lines.len() > 0 && !redactable(lines.last(), tag) {
        let front = lines.drop_last();
        lemma_last_redactable(front, tag);
        assert forall|i: int| last_redactable(lines, tag) < i < lines.len() implies !redactable(
            #[trigger] lines[i],
            tag,
        ) by {
            if i < front.len() {
                assert(front[i] == lines[i]);
            }
        }
    }
}

/// The run of lines to touch begins within the lines, holds only lines to
/// touch, and the line before it, if there is one, is not to be touched.
pub proof fn lemma_run_start(lines: Seq<LineView>, tag: Seq<char>, end: int)
    requires
        0 <= end <= lines.len(),
    ensures
        0 <= run_start(lines, tag, end) <= end,
        forall|i: int|
            run_start(lines, tag, end) <= i < end ==> redactable(#[trigger] lines[i], tag),
        run_start(lines, tag, end) > 0 ==> !redactable(
            lines[run_start(lines, tag, end) - 1],
            tag,
        ),
    decreases end,
{
    if end > 0 && redactable(lines[end - 1], tag) {
        lemma_run_start(lines, tag, end - 1);
    }
}

/// A redaction does its work once: where the lines of the event that no
/// redaction has touched stand in one unbroken run, a second redaction of
/// the event changes nothing, whatever its notice and style.
pub proof fn law_redaction_is_idempotent(
    lines: Seq<LineView>,
    redacts: Seq<char>,
    notice: Seq<char>,
    style: RedactionStyle,
    second_notice: Seq<char>,
    second_style: RedactionStyle,
)
    requires
        forall|i: int|
            0 <= i < run_start(
                lines,
                event_id_tag(redacts),
                last_redactable(lines, event_id_tag(redacts)),
            ) ==> !redactable(#[trigger] lines[i], event_id_tag(redacts)),
    ensures
        redact(redact(lines, redacts, notice, style), redacts, second_notice, second_style)
            == redact(lines, redacts, notice, style),
{
    let tag = event_id_tag(redacts);
    let last = last_redactable(lines, tag);
    let after = redact(lines, redacts, notice, style);
    lemma_last_redactable(lines, tag);
    if last >= 0 {
        lemma_run_start(lines, tag, last);
        assert forall|i: int| 0 <= i < after.len() implies !redactable(
            #[trigger] after[i],
            tag,
        ) by {
            let start = run_start(lines, tag, last);
            if start <= i <= last {
                let touched = redacted_line(lines[i], style, i == last, notice);
                assert(touched.tags[lines[i].tags.len() as int] == redacted_tag());
            } else {
                assert(after[i] == lines[i]);
            }
        }
    } else {
        assert forall|i: int| 0 <= i < after.len() implies !redactable(
            #[trigger] after[i],
            tag,
        ) by {}
    }
    lemma_last_redactable(after, tag);
}

/// The clusters, each followed by the strike-through mark, as one text.
pub fn strike_clusters(clusters: &Vec<String>) -> (text: String)
    ensures
        text@ == struck(texts(clusters@)),
{
    let mut text = String::new();
    let mut i: usize = 0;
    while i < clusters.len()
        invariant
            i <= clusters.len(),
            text@ == struck(texts(clusters@).take(i as int)),
        decreases clusters.len() - i,
    {
        proof {
            reveal_strlit("\u{0336}");
            assert("\u{0336}"@ =~= strike_mark());
            let done = texts(clusters@).take(i + 1);
            assert(done.drop_last() =~= texts(clusters@).take(i as int));
            assert(done.last() == clusters@[i as int]@);
        }
        text.append(clusters[i].as_str());
        text.append("\u{0336}");
        i += 1;
    }
    assert(texts(clusters@).take(clusters.len() as int) == texts(clusters@));
    text
}

/// The text with each of its extended grapheme clusters struck through.
pub fn strike_through_text(message: &str) -> (text: String)
    ensures
        text@ == strike_through(message@),
{
    let clusters = graphemes(message);
    strike_clusters(&clusters)
}

/// The notice that says who redacted a message and, if a reason was given,
/// why.
pub fn redaction_notice_text(redacter: &str, reason: &Option<String>) -> (notice: String)
    ensures
        notice@ == redaction_notice(redacter@, text_view(*reason)),
{
    let mut notice = String::from_str("message redacted by ");
    notice.append(redacter);
    match reason {
        Some(r) => {
            notice.append(", reason: ");
            notice.append(r.as_str());
        },
        None => {},
    }
    notice
}

/// The message of a redacted line.
pub fn redacted_message_text(
    style: RedactionStyle,
    first: bool,
    message: &str,
    notice: &str,
) -> (text: String)
    ensures
        text@ == redacted_message(style, first, message@, notice@),
{
    match style {
        RedactionStyle::Delete => String::from_str(notice),
        RedactionStyle::Notice => {
            let mut text = String::from_str(message);
            text.append(" ");
            text.append(notice);
            text
        },
        RedactionStyle::StrikeThrough => {
            let mut text = strike_through_text(message);
            if first {
                text.append(" ");
                text.append(notice);
            }
            text
        },
    }
}

impl Line {
    /// Whether a redaction of the event tagged `tag` has to touch the line.
    pub fn is_redactable(&self, tag: &String) -> (touch: bool)
        ensures
            touch == redactable(self@, tag@),
    {
        let redacted = String::from_str("matrix_redacted");
        self.has_tag(tag) && !self.has_tag(&redacted)
    }

    /// The line as a redaction leaves it.
    pub fn redacted(&self, style: RedactionStyle, first: bool, notice: &str) -> (line: Line)
        ensures
            line@ == redacted_line(self@, style, first, notice@),
    {
        let mut tags = copy_texts(&self.tags);
        let redacted = String::from_str("matrix_redacted");
        tags.push(redacted);
        assert(texts(tags@) =~= texts(self.tags@).push(redacted_tag()));
        Line {
            date: self.date,
            date_printed: self.date_printed,
            tags,
            prefix: self.prefix.clone(),
            message: redacted_message_text(style, first, self.message.as_str(), notice),
        }
    }
}

/// The lines that a redaction of the event tagged `tag` touches: the first
/// and the last of them, or `None` where it touches none.
pub open spec fn redaction_range(lines: Seq<LineView>, tag: Seq<char>) -> Option<(int, int)> {
    let last = last_redactable(lines, tag);
    if last < 0 {
        None
    } else {
        Some((run_start(lines, tag, last), last))
    }
}

impl Buffer {
    /// The indices of the first and the last line that a redaction of the
    /// event `redacts` touches, if it touches any.
    pub fn redaction_range(&self, redacts: &EventId) -> (range: Option<(usize, usize)>)
        ensures
            match range {
                Some((first, last)) => first <= last < self@.len() && redaction_range(
                    self@,
                    event_id_tag(redacts@),
                ) == Some((first as int, last as int)),
                None => redaction_range(self@, event_id_tag(redacts@)).is_none(),
            },
    {
        let tag = redacts.to_tag();
        let ghost lines = self@;
        let mut last: usize = self.lines.len();
        assert(lines.take(last as int) =~= lines);
        while last > 0 && !self.lines[last - 1].is_redactable(&tag)
            invariant
                last <= self.lines.len(),
                lines == self@,
                last_redactable(lines, tag@) == last_redactable(lines.take(last as int), tag@),
            decreases last,
        {
            assert(lines.take(last as int).last() == self.lines@[last - 1]@);
            assert(lines.take(last as int).drop_last() =~= lines.take(last - 1));
            last -= 1;
        }
        if last == 0 {
            return None;
        }
        assert(lines.take(last as int).last() == self.lines@[last - 1]@);
        let last = last - 1;
        let mut first: usize = last;
        while first > 0 && self.lines[first - 1].is_redactable(&tag)
            invariant
                first <= last < self.lines.len(),
                lines == self@,
                run_start(lines, tag@, last as int) == run_start(lines, tag@, first as int),
            decreases first,
        {
            assert(self.lines@[first - 1]@ == lines[first - 1]);
            first -= 1;
        }
        proof {
            if first > 0 {
                assert(self.lines@[first - 1]@ == lines[first - 1]);
            }
        }
        Some((first, last))
    }

    /// Applies the redaction of the event `redacts` to the lines on display.
    ///
    /// The lines touched are the most recent line of the event that no
    /// redaction has touched and the unbroken run of such lines before it.
    /// Each gets its message changed as `style` says and gains the tag of a
    /// redacted line. Where the event has no such line, nothing changes.
    pub fn redact_event(
        &mut self,
        redacts: &EventId,
        redacter: &str,
        reason: &Option<String>,
        style: RedactionStyle,
    )
        ensures
            final(self)@ == redact(
                old(self)@,
                redacts@,
                redaction_notice(redacter@, text_view(*reason)),
                style,
            ),
    {
        let notice = redaction_notice_text(redacter, reason);
        let ghost start = self@;
        match self.redaction_range(redacts) {
            Some((first, last)) => {
                let mut i: usize = first;
                assert(self@ =~= Seq::new(
                    start.len(),
                    |j: int|
                        if first <= j < i {
                            redacted_line(start[j], style, j == last, notice@)
                        } else {
                            start[j]
                        },
                ));
                while i <= last
                    invariant
                        first <= i <= last + 1,
                        last < self.lines.len(),
                        start.len() == self.lines.len(),
                        self@ == Seq::new(
                            start.len(),
                            |j: int|
                                if first <= j < i {
                                    redacted_line(start[j], style, j == last, notice@)
                                } else {
                                    start[j]
                                },
                        ),
                    decreases last + 1 - i,
                {
                    assert(self.lines@[i as int]@ == self@[i as int]);
                    let line = self.lines[i].redacted(style, i == last, notice.as_str());
                    proof {
                        lemma_views_update(self.lines@, i as int, line);
                    }
                    self.lines.set(i, line);
                    assert(self@ =~= Seq::new(
                        start.len(),
                        |j: int|
                            if first <= j < i + 1 {
                                redacted_line(start[j], style, j == last, notice@)
                            } else {
                                start[j]
                            },
                    ));
                    i += 1;
                }
                assert(self@ =~= redact(start, redacts@, notice@, style));
            },
            None => {},
        }
    }
}

} // verus!
