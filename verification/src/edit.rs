//! Edits: how the lines of an event are overwritten with the lines of its
//! replacement.

use vstd::prelude::*;
use crate::buffer::{
    insertion_point, is_sorted_by_date, law_sort_sorts, lemma_insertion_point, sorted_by_date,
    Buffer,
};
use crate::events::{EventId, UserId};
use crate::line::{copy_texts, lemma_views_update, Line, LineView};
use crate::render::{RenderedEvent, RenderedEventView};
use crate::utils::{event_id_tag, sender_tag, ToTag};

verus! {

/// How many of the lines carry the tag.
pub open spec fn count_tagged(lines: Seq<LineView>, tag: Seq<char>) -> nat
    decreases lines.len(),
{
    if lines.len() == 0 {
        0
    } else if lines.last().has_tag(tag) {
        count_tagged(lines.drop_last(), tag) + 1
    } else {
        count_tagged(lines.drop_last(), tag)
    }
}

/// The index of the first line that carries the tag, or -1 where there is
/// none.
pub open spec fn first_tagged(lines: Seq<LineView>, tag: Seq<char>) -> int
    decreases lines.len(),
{
    if lines.len() == 0 {
        -1
    } else if first_tagged(lines.drop_last(), tag) >= 0 {
        first_tagged(lines.drop_last(), tag)
    } else if lines.last().has_tag(tag) {
        lines.len() - 1
    } else {
        -1
    }
}

/// Whether an edit of the event tagged `event_tag` by the sender tagged
/// `sender_tag` is taken: the first line of the event is there and carries
/// the sender's tag.
pub open spec fn edit_accepted(
    lines: Seq<LineView>,
    event_tag: Seq<char>,
    sender_tag: Seq<char>,
) -> bool {
    first_tagged(lines, event_tag) >= 0 && lines[first_tagged(lines, event_tag)].has_tag(
        sender_tag,
    )
}

/// The date that lines added for an event get: that of its first line.
pub open spec fn date_of_tagged(lines: Seq<LineView>, tag: Seq<char>) -> i64 {
    if first_tagged(lines, tag) >= 0 {
        lines[first_tagged(lines, tag)].date
    } else {
        0
    }
}

/// What becomes of the line of an event that has `k` lines of the event
/// before it: it takes prefix, message and tags of the rendered line `k`,
/// or loses its message where the rendering has no such line.
pub open spec fn overwritten(line: LineView, rendered: RenderedEventView, k: int) -> LineView {
    if k < rendered.lines.len() {
        LineView {
            prefix: rendered.prefix,
            message: rendered.lines[k].message,
            tags: rendered.lines[k].tags,
            ..line
        }
    } else {
        line.with_message(Seq::empty())
    }
}

/// The lines with those that carry the tag overwritten, one rendered line
/// each, in order.
pub open spec fn replaced_in_place(
    lines: Seq<LineView>,
    tag: Seq<char>,
    rendered: RenderedEventView,
) -> Seq<LineView> {
    Seq::new(
        lines.len(),
        |i: int|
            if lines[i].has_tag(tag) {
                overwritten(lines[i], rendered, count_tagged(lines.take(i), tag) as int)
            } else {
                lines[i]
            },
    )
}

/// The lines after the lines that carry the tag have been replaced with the
/// rendered lines.
///
/// Rendered lines for which no line is there are added at the end, dated
/// as the first line of the event, and the lines are sorted. Lines of the
/// event for which no rendered line is there lose their message.
pub open spec fn replace_event(
    lines: Seq<LineView>,
    tag: Seq<char>,
    rendered: RenderedEventView,
    now: i64,
) -> Seq<LineView> {
    let n = count_tagged(lines, tag) as int;
    if n < rendered.lines.len() {
        sorted_by_date(
            replaced_in_place(lines, tag, rendered) + rendered.display_from(
                n,
                date_of_tagged(lines, tag),
                now,
            ),
        )
    } else {
        replaced_in_place(lines, tag, rendered)
    }
}

/// The lines after an edit of `event_id` by `sender`, rendered as
/// `rendered`: replaced where the edit is taken, as they were where it is
/// not.
pub open spec fn replace_edit(
    lines: Seq<LineView>,
    event_id: Seq<char>,
    sender: Seq<char>,
    rendered: RenderedEventView,
    now: i64,
) -> Seq<LineView> {
    if edit_accepted(lines, event_id_tag(event_id), sender_tag(sender)) {
        replace_event(lines, event_id_tag(event_id), rendered, now)
    } else {
        lines
    }
}

/// Counting and finding the first tagged line, one line further.
pub proof fn lemma_tagged_step(lines: Seq<LineView>, tag: Seq<char>, i: int)
    requires
        0 <= i < lines.len(),
    ensures
        count_tagged(lines.take(i + 1), tag) == count_tagged(lines.take(i), tag) + (if lines[i]
            .has_tag(tag) {
            1nat
        } else {
            0nat
        }),
        first_tagged(lines.take(i + 1), tag) == (if first_tagged(lines.take(i), tag) >= 0 {
            first_tagged(lines.take(i), tag)
        } else if lines[i].has_tag(tag) {
            i
        } else {
            -1
        }),
{
    assert(lines.take(i + 1).drop_last() =~= lines.take(i));
    assert(lines.take(i + 1).last() == lines[i]);
}

/// The first tagged line, where there is one, lies within the lines and
/// carries the tag; there is one if and only if some line carries the tag.
pub proof fn lemma_first_tagged(lines: Seq<LineView>, tag: Seq<char>)
    ensures
        -1 <= first_tagged(lines, tag) < lines.len(),
        first_tagged(lines, tag) >= 0 ==> lines[first_tagged(lines, tag)].has_tag(tag),
        first_tagged(lines, tag) >= 0 <==> count_tagged(lines, tag) > 0,
        forall|i: int| 0 <= i < first_tagged(lines, tag) ==> !(#[trigger] lines[i]).has_tag(tag),
        first_tagged(lines, tag) < 0 ==> forall|i: int|
            0 <= i < lines.len() ==> !(#[trigger] lines[i]).has_tag(tag),
    decreases lines.len(),
{
    if lines.len() > 0 {
        let front = lines.drop_last();
        lemma_first_tagged(front, tag);
        assert forall|i: int| 0 <= i < front.len() implies front[i] == lines[i] by {}
        if first_tagged(front, tag) >= 0 {
            assert(front[first_tagged(front, tag)] == lines[first_tagged(front, tag)]);
            assert forall|i: int| 0 <= i < first_tagged(lines, tag) implies !(
            #[trigger] lines[i]).has_tag(tag) by {
                assert(front[i] == lines[i]);
            }
        } else {
            assert forall|i: int| 0 <= i < front.len() implies !(#[trigger] lines[i]).has_tag(
                tag,
            ) by {
                assert(front[i] == lines[i]);
            }
        }
    }
}

impl Line {
    /// The line with prefix, message and tags of the rendered line `k`, or
    /// without its message where the rendering has no such line.
    pub fn overwritten_with(&self, rendered: &RenderedEvent, k: usize) -> (line: Line)
        ensures
            line@ == overwritten(self@, rendered@, k as int),
    {
        if k < rendered.content.lines.len() {
            let new = &rendered.content.lines[k];
            Line {
                date: self.date,
                date_printed: self.date_printed,
                tags: copy_texts(&new.tags),
                prefix: rendered.prefix.clone(),
                message: new.message.clone(),
            }
        } else {
            Line {
                date: self.date,
                date_printed: self.date_printed,
                tags: copy_texts(&self.tags),
                prefix: self.prefix.clone(),
                message: String::new(),
            }
        }
    }
}

impl Buffer {
    /// The index of the first line that carries the tag.
    pub fn first_with_tag(&self, tag: &String) -> (first: Option<usize>)
        ensures
            match first {
                Some(i) => i == first_tagged(self@, tag@) && i < self@.len(),
                None => first_tagged(self@, tag@) < 0,
            },
    {
        let mut i: usize = 0;
        while i < self.lines.len()
            invariant
                i <= self.lines.len(),
                first_tagged(self@.take(i as int), tag@) < 0,
            decreases self.lines.len() - i,
        {
            proof {
                lemma_tagged_step(self@, tag@, i as int);
            }
            if self.lines[i].has_tag(tag) {
                proof {
                    lemma_first_from_prefix(self@, tag@, i + 1);
                }
                return Some(i);
            }
            i += 1;
        }
        assert(self@.take(self.lines.len() as int) =~= self@);
        None
    }

    /// Replaces the lines that carry `tag` with the rendered lines.
    ///
    /// Line for line the prefix, message and tags are overwritten. Lines of
    /// the event that are left over lose their message; rendered lines that
    /// are left over are put at the end of the display, dated as the first
    /// line of the event, and the display is sorted.
    pub fn replace_event_helper(&mut self, tag: &String, rendered: &RenderedEvent, now: i64)
        ensures
            final(self)@ == replace_event(old(self)@, tag@, rendered@, now),
    {
        let ghost start = self@;
        let mut date: i64 = 0;
        let mut k: usize = 0;
        let mut i: usize = 0;
        while i < self.lines.len()
            invariant
                i <= self.lines.len(),
                start.len() == self.lines.len(),
                k == count_tagged(start.take(i as int), tag@),
                k <= i,
                date == date_of_tagged(start.take(i as int), tag@),
                self@ == Seq::new(
                    start.len(),
                    |j: int|
                        if j < i {
                            replaced_in_place(start, tag@, rendered@)[j]
                        } else {
                            start[j]
                        },
                ),
            decreases self.lines.len() - i,
        {
            proof {
                lemma_tagged_step(start, tag@, i as int);
                lemma_first_tagged(start.take(i as int), tag@);
                lemma_first_tagged(start.take(i + 1), tag@);
                assert(self.lines@[i as int]@ == self@[i as int]);
                assert(self@[i as int] == start[i as int]);
            }
            if self.lines[i].has_tag(tag) {
                if k == 0 {
                    date = self.lines[i].date;
                }
                let line = self.lines[i].overwritten_with(rendered, k);
                proof {
                    lemma_views_update(self.lines@, i as int, line);
                }
                self.lines.set(i, line);
                k += 1;
            }
            assert(self@ =~= Seq::new(
                start.len(),
                |j: int|
                    if j < i + 1 {
                        replaced_in_place(start, tag@, rendered@)[j]
                    } else {
                        start[j]
                    },
            ));
            i += 1;
        }
        assert(start.take(start.len() as int) =~= start);
        assert(self@ =~= replaced_in_place(start, tag@, rendered@));
        if k < rendered.content.lines.len() {
            self.print_lines_from(rendered, k, date, now);
            self.sort_messages();
        }
    }

    /// Applies an edit of the event `event_id` by `sender`.
    ///
    /// The edit is taken only if the first line of the event is on display
    /// and carries the tag of `sender`; otherwise the display stays as it
    /// is.
    pub fn replace_edit(
        &mut self,
        event_id: &EventId,
        sender: &UserId,
        rendered: &RenderedEvent,
        now: i64,
    )
        ensures
            final(self)@ == replace_edit(old(self)@, event_id@, sender@, rendered@, now),
    {
        let event_tag = event_id.to_tag();
        let sender_tag = sender.to_tag();
        if let Some(first) = self.first_with_tag(&event_tag) {
            assert(self.lines@[first as int]@ == self@[first as int]);
            if self.lines[first].has_tag(&sender_tag) {
                self.replace_event_helper(&event_tag, rendered, now);
            }
        }
    }
}

/// The first tagged line of a prefix that has one is the first tagged line
/// of the whole.
pub proof fn lemma_first_from_prefix(lines: Seq<LineView>, tag: Seq<char>, n: int)
    requires
        0 <= n <= lines.len(),
        first_tagged(lines.take(n), tag) >= 0,
    ensures
        first_tagged(lines, tag) == first_tagged(lines.take(n), tag),
    decreases lines.len() - n,
{
    if n < lines.len() {
        lemma_tagged_step(lines, tag, n);
        lemma_first_from_prefix(lines, tag, n + 1);
    } else {
        assert(lines.take(n) =~= lines);
    }
}

/// The tagged lines of two runs of lines are those of the first and those
/// of the second.
pub proof fn lemma_count_add(a: Seq<LineView>, b: Seq<LineView>, tag: Seq<char>)
    ensures
        count_tagged(a + b, tag) == count_tagged(a, tag) + count_tagged(b, tag),
    decreases b.len(),
{
    if b.len() == 0 {
        assert(a + b =~= a);
    } else {
        lemma_count_add(a, b.drop_last(), tag);
        assert((a + b).drop_last() =~= a + b.drop_last());
        assert((a + b).last() == b.last());
    }
}

/// Lines that carry the tag in the same places hold equally many tagged
/// lines.
pub proof fn lemma_count_same(a: Seq<LineView>, b: Seq<LineView>, tag: Seq<char>)
    requires
        a.len() == b.len(),
        forall|i: int| 0 <= i < a.len() ==> a[i].has_tag(tag) == b[i].has_tag(tag),
    ensures
        count_tagged(a, tag) == count_tagged(b, tag),
    decreases a.len(),
{
    if a.len() > 0 {
        assert forall|i: int| 0 <= i < a.drop_last().len() implies a.drop_last()[i].has_tag(tag)
            == b.drop_last()[i].has_tag(tag) by {
            assert(a.drop_last()[i] == a[i] && b.drop_last()[i] == b[i]);
        }
        lemma_count_same(a.drop_last(), b.drop_last(), tag);
        assert(a.last() == a[a.len() - 1] && b.last() == b[b.len() - 1]);
    }
}

/// Lines that all carry the tag are all counted.
pub proof fn lemma_count_all(lines: Seq<LineView>, tag: Seq<char>)
    requires
        forall|i: int| 0 <= i < lines.len() ==> (#[trigger] lines[i]).has_tag(tag),
    ensures
        count_tagged(lines, tag) == lines.len(),
    decreases lines.len(),
{
    if lines.len() > 0 {
        assert forall|i: int| 0 <= i < lines.drop_last().len() implies (
        #[trigger] lines.drop_last()[i]).has_tag(tag) by {
            assert(lines.drop_last()[i] == lines[i]);
        }
        lemma_count_all(lines.drop_last(), tag);
        assert(lines.last() == lines[lines.len() - 1]);
    }
}

/// A tagged line has fewer tagged lines before it than there are tagged
/// lines in all.
pub proof fn lemma_count_before(lines: Seq<LineView>, tag: Seq<char>, i: int)
    requires
        0 <= i < lines.len(),
        lines[i].has_tag(tag),
    ensures
        count_tagged(lines.take(i), tag) < count_tagged(lines, tag),
{
    assert(lines =~= lines.take(i + 1) + lines.skip(i + 1));
    lemma_count_add(lines.take(i + 1), lines.skip(i + 1), tag);
    lemma_tagged_step(lines, tag, i);
}

/// Sorting keeps the number of tagged lines.
pub proof fn lemma_count_sorted(lines: Seq<LineView>, tag: Seq<char>)
    ensures
        count_tagged(sorted_by_date(lines), tag) == count_tagged(lines, tag),
    decreases lines.len(),
{
    if lines.len() > 0 {
        let front = sorted_by_date(lines.drop_last());
        let line = lines.last();
        let at = insertion_point(front, line.date);
        lemma_count_sorted(lines.drop_last(), tag);
        law_sort_sorts(lines.drop_last());
        lemma_insertion_point(front, line.date);
        assert(front =~= front.take(at) + front.skip(at));
        assert(front.insert(at, line) =~= front.take(at).push(line) + front.skip(at));
        lemma_count_add(front.take(at), front.skip(at), tag);
        lemma_count_add(front.take(at).push(line), front.skip(at), tag);
        assert(front.take(at).push(line).drop_last() =~= front.take(at));
    }
}

/// An edit that renders to more lines than the event had leaves the lines
/// in ascending order of their dates, and the event with exactly one line
/// for each rendered line, provided that every rendered line carries the
/// tag of the event.
pub proof fn lemma_edit_with_more_lines(
    lines: Seq<LineView>,
    event_id: Seq<char>,
    sender: Seq<char>,
    rendered: RenderedEventView,
    now: i64,
)
    requires
        edit_accepted(lines, event_id_tag(event_id), sender_tag(sender)),
        count_tagged(lines, event_id_tag(event_id)) < rendered.lines.len(),
        forall|k: int|
            0 <= k < rendered.lines.len() ==> (#[trigger] rendered.lines[k]).tags.contains(
                event_id_tag(event_id),
            ),
    ensures
        is_sorted_by_date(replace_edit(lines, event_id, sender, rendered, now)),
        count_tagged(replace_edit(lines, event_id, sender, rendered, now), event_id_tag(event_id))
            == rendered.lines.len(),
{
    let tag = event_id_tag(event_id);
    let n = count_tagged(lines, tag) as int;
    let in_place = replaced_in_place(lines, tag, rendered);
    let added = rendered.display_from(n, date_of_tagged(lines, tag), now);
    law_sort_sorts(in_place + added);
    lemma_count_sorted(in_place + added, tag);
    lemma_count_add(in_place, added, tag);
    assert forall|i: int| 0 <= i < lines.len() implies lines[i].has_tag(tag) == in_place[i].has_tag(
        tag,
    ) by {
        if lines[i].has_tag(tag) {
            lemma_count_before(lines, tag, i);
            let k = count_tagged(lines.take(i), tag) as int;
            assert(rendered.lines[k].tags.contains(tag));
        }
    }
    lemma_count_same(lines, in_place, tag);
    assert forall|i: int| 0 <= i < added.len() implies (#[trigger] added[i]).has_tag(tag) by {
        assert(rendered.lines[n + i].tags.contains(tag));
    }
    lemma_count_all(added, tag);
}

/// An edit by a user who did not send the event changes nothing: where the
/// first line of the event carries the tag of no sender but `author`,
/// the edit of any other sender is not taken.
pub proof fn law_edit_by_another_sender_is_rejected(
    lines: Seq<LineView>,
    event_id: Seq<char>,
    author: Seq<char>,
    sender: Seq<char>,
    rendered: RenderedEventView,
    now: i64,
)
    requires
        sender != author,
        first_tagged(lines, event_id_tag(event_id)) >= 0 ==> forall|other: Seq<char>|
            lines[first_tagged(lines, event_id_tag(event_id))].has_tag(#[trigger] sender_tag(other))
                ==> other == author,
    ensures
        replace_edit(lines, event_id, sender, rendered, now) == lines,
{
    if first_tagged(lines, event_id_tag(event_id)) >= 0 {
        let first = lines[first_tagged(lines, event_id_tag(event_id))];
        if first.has_tag(sender_tag(sender)) {
            assert(sender == author);
        }
    }
}

} // verus!
