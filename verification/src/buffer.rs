//! The display surface of a room: its lines, oldest first.

use vstd::prelude::*;
use crate::line::{
    copy_texts, lemma_views_insert, lemma_views_push, lemma_views_remove, line_views, Line,
    LineView,
};
use crate::render::RenderedEvent;

verus! {

/// The lines of a room as they stand on display.
///
/// The lines are the only record of the timeline that there is: what has to
/// be found again is found by its tags.
#[derive(Debug, Clone, PartialEq, Eq)]
pub struct Buffer {
    pub lines: Vec<Line>,
}

impl View for Buffer {
    type V = Seq<LineView>;

    open spec fn view(&self) -> Seq<LineView> {
        line_views(self.lines@)
    }
}

/// The view of a display surface that may be detached.
pub open spec fn buffer_view(buffer: Option<Buffer>) -> Option<Seq<LineView>> {
    match buffer {
        Some(b) => Some(b@),
        None => None,
    }
}

/// Whether the lines stand in ascending order of their dates.
pub open spec fn is_sorted_by_date(lines: Seq<LineView>) -> bool {
    forall|i: int, j: int| 0 <= i <= j < lines.len() ==> lines[i].date <= lines[j].date
}

/// Where a line dated `date` goes into sorted lines: behind the last line
/// that is not dated later.
pub open spec fn insertion_point(lines: Seq<LineView>, date: i64) -> int
    decreases lines.len(),
{
    if lines.len() == 0 {
        0
    } else if lines.last().date <= date {
        lines.len() as int
    } else {
        insertion_point(lines.drop_last(), date)
    }
}

/// The lines in ascending order of their dates, lines of one date in the
/// order in which they stood.
pub open spec fn sorted_by_date(lines: Seq<LineView>) -> Seq<LineView>
    decreases lines.len(),
{
    if lines.len() == 0 {
        lines
    } else {
        let front = sorted_by_date(lines.drop_last());
        front.insert(insertion_point(front, lines.last().date), lines.last())
    }
}

/// The lines that are dated `date`, in their order.
pub open spec fn dated(lines: Seq<LineView>, date: i64) -> Seq<LineView>
    decreases lines.len(),
{
    if lines.len() == 0 {
        Seq::empty()
    } else if lines.last().date == date {
        dated(lines.drop_last(), date).push(lines.last())
    } else {
        dated(lines.drop_last(), date)
    }
}

/// The insertion point lies within the lines, everything before it is dated
/// no later than `date`, and everything from it on is dated later.
pub proof fn lemma_insertion_point(lines: Seq<LineView>, date: i64)
    requires
        is_sorted_by_date(lines),
    ensures
        0 <= insertion_point(lines, date) <= lines.len(),
        forall|i: int| 0 <= i < insertion_point(lines, date) ==> lines[i].date <= date,
        forall|i: int| insertion_point(lines, date) <= i < lines.len() ==> lines[i].date > date,
    decreases lines.len(),
{
    if lines.len() > 0 {
        let front = lines.drop_last();
        assert(is_sorted_by_date(front)) by {
            assert forall|i: int, j: int| 0 <= i <= j < front.len() implies front[i].date
                <= front[j].date by {
                assert(front[i] == lines[i] && front[j] == lines[j]);
            }
        }
        if lines.last().date > date {
            lemma_insertion_point(front, date);
            assert forall|i: int| 0 <= i < insertion_point(lines, date) implies lines[i].date
                <= date by {
                assert(front[i] == lines[i]);
            }
            assert forall|i: int|
                insertion_point(lines, date) <= i < lines.len() implies lines[i].date > date by {
                if i < front.len() {
                    assert(front[i] == lines[i]);
                }
            }
        } else {
            assert forall|i: int| 0 <= i < lines.len() implies lines[i].date <= date by {
                assert(lines[i].date <= lines[lines.len() - 1].date);
            }
        }
    }
}

/// Sorting keeps the number of lines, and the sorted lines stand in
/// ascending order of their dates.
pub proof fn law_sort_sorts(lines: Seq<LineView>)
    ensures
        sorted_by_date(lines).len() == lines.len(),
        is_sorted_by_date(sorted_by_date(lines)),
    decreases lines.len(),
{
    if lines.len() > 0 {
        let front = sorted_by_date(lines.drop_last());
        law_sort_sorts(lines.drop_last());
        lemma_insertion_point(front, lines.last().date);
    }
}

/// The lines of one date among two runs of lines are those of the first
/// run, then those of the second.
pub proof fn lemma_dated_add(a: Seq<LineView>, b: Seq<LineView>, date: i64)
    ensures
        dated(a + b, date) == dated(a, date) + dated(b, date),
    decreases b.len(),
{
    if b.len() == 0 {
        assert(a + b =~= a);
        assert(dated(a, date) + dated(b, date) =~= dated(a, date));
    } else {
        lemma_dated_add(a, b.drop_last(), date);
        assert((a + b).drop_last() =~= a + b.drop_last());
        assert((a + b).last() == b.last());
        if b.last().date == date {
            assert(dated(a, date) + dated(b.drop_last(), date).push(b.last()) =~= (dated(a, date)
                + dated(b.drop_last(), date)).push(b.last()));
        }
    }
}

/// Lines that are all dated later than `date` hold no line of that date.
pub proof fn lemma_dated_none(lines: Seq<LineView>, date: i64)
    requires
        forall|i: int| 0 <= i < lines.len() ==> lines[i].date != date,
    ensures
        dated(lines, date) == Seq::<LineView>::empty(),
    decreases lines.len(),
{
    if lines.len() > 0 {
        let front = lines.drop_last();
        assert forall|i: int| 0 <= i < front.len() implies front[i].date != date by {
            assert(front[i] == lines[i]);
        }
        lemma_dated_none(front, date);
        assert(lines.last() == lines[lines.len() - 1]);
    }
}

/// Sorting is stable: the lines of each date stand in the order in which
/// they stood before.
pub proof fn law_sort_is_stable(lines: Seq<LineView>, date: i64)
    ensures
        dated(sorted_by_date(lines), date) == dated(lines, date),
    decreases lines.len(),
{
    if lines.len() > 0 {
        let front = sorted_by_date(lines.drop_last());
        let line = lines.last();
        let at = insertion_point(front, line.date);
        law_sort_is_stable(lines.drop_last(), date);
        law_sort_sorts(lines.drop_last());
        lemma_insertion_point(front, line.date);
        let before = front.take(at);
        let behind = front.skip(at);
        assert(front =~= before + behind);
        assert(front.insert(at, line) =~= before.push(line) + behind);
        lemma_dated_add(before, behind, date);
        lemma_dated_add(before.push(line), behind, date);
        assert(before.push(line).drop_last() =~= before);
        if line.date == date {
            assert forall|i: int| 0 <= i < behind.len() implies behind[i].date != date by {
                assert(behind[i] == front[at + i]);
            }
            lemma_dated_none(behind, date);
            assert(dated(before, date) + Seq::<LineView>::empty() =~= dated(before, date));
            assert(dated(before, date).push(line) + Seq::<LineView>::empty() =~= dated(
                before,
                date,
            ).push(line));
        }
    }
}

/// Sorting neither adds nor loses a line: the sorted lines are the lines
/// that were there, each as often as it was there.
pub proof fn law_sort_keeps_lines(lines: Seq<LineView>)
    ensures
        sorted_by_date(lines).to_multiset() == lines.to_multiset(),
    decreases lines.len(),
{
    if lines.len() > 0 {
        let front = sorted_by_date(lines.drop_last());
        law_sort_keeps_lines(lines.drop_last());
        law_sort_sorts(lines.drop_last());
        lemma_insertion_point(front, lines.last().date);
        vstd::seq_lib::to_multiset_insert(
            front,
            insertion_point(front, lines.last().date),
            lines.last(),
        );
        vstd::seq_lib::to_multiset_build(lines.drop_last(), lines.last());
        assert(lines.drop_last().push(lines.last()) =~= lines);
    }
}

/// Sorting lines that stand in order changes nothing.
pub proof fn law_sort_of_sorted(lines: Seq<LineView>)
    requires
        is_sorted_by_date(lines),
    ensures
        sorted_by_date(lines) == lines,
    decreases lines.len(),
{
    if lines.len() > 0 {
        let front = lines.drop_last();
        assert forall|i: int, j: int| 0 <= i <= j < front.len() implies front[i].date
            <= front[j].date by {
            assert(front[i] == lines[i] && front[j] == lines[j]);
        }
        law_sort_of_sorted(front);
        if front.len() > 0 {
            assert(front.last() == lines[lines.len() - 2]);
            assert(lines.last() == lines[lines.len() - 1]);
        }
        assert(insertion_point(front, lines.last().date) == front.len());
        assert(front.insert(front.len() as int, lines.last()) =~= lines);
    }
}

impl Buffer {
    /// A display surface without lines.
    pub fn new() -> (buffer: Self)
        ensures
            buffer@ == Seq::<LineView>::empty(),
    {
        let buffer = Buffer { lines: Vec::new() };
        assert(buffer@ =~= Seq::<LineView>::empty());
        buffer
    }

    /// The number of lines on display.
    pub fn num_lines(&self) -> (n: usize)
        ensures
            n == self@.len(),
    {
        self.lines.len()
    }

    /// Puts a line at the end of the display.
    pub fn print_line(&mut self, line: Line)
        ensures
            final(self)@ == old(self)@.push(line@),
    {
        proof {
            lemma_views_push(self.lines@, line);
        }
        self.lines.push(line);
    }

    /// Puts the rendered lines from index `from` on at the end of the
    /// display, dated `date`.
    pub fn print_lines_from(&mut self, rendered: &RenderedEvent, from: usize, date: i64, now: i64)
        ensures
            final(self)@ == old(self)@ + rendered@.display_from(from as int, date, now),
    {
        let ghost goal = rendered@.display_from(from as int, date, now);
        if from > rendered.content.lines.len() {
            assert(self@ + goal =~= self@);
            return ;
        }
        let mut i: usize = from;
        while i < rendered.content.lines.len()
            invariant
                from <= i <= rendered.content.lines.len(),
                goal == rendered@.display_from(from as int, date, now),
                self@ == old(self)@ + goal.take(i - from),
            decreases rendered.content.lines.len() - i,
        {
            let line = &rendered.content.lines[i];
            let ghost before = self@;
            self.print_line(
                Line {
                    date,
                    date_printed: now,
                    tags: copy_texts(&line.tags),
                    prefix: rendered.prefix.clone(),
                    message: line.message.clone(),
                },
            );
            assert(goal.take(i + 1 - from) =~= goal.take(i - from).push(goal[i - from]));
            assert(self@ =~= old(self)@ + goal.take(i + 1 - from));
            i += 1;
        }
        assert(goal.take(goal.len() as int) == goal);
    }

    /// Puts the lines of a rendered event at the end of the display.
    pub fn print_rendered_event(&mut self, rendered: &RenderedEvent, now: i64)
        ensures
            final(self)@ == old(self)@ + rendered@.display(now),
    {
        self.print_lines_from(rendered, 0, rendered.message_timestamp, now);
    }

    /// Sorts the lines by their dates. Lines of one date keep their order,
    /// and no line is added or lost.
    pub fn sort_messages(&mut self)
        ensures
            final(self)@ == sorted_by_date(old(self)@),
            is_sorted_by_date(final(self)@),
            final(self)@.to_multiset() == old(self)@.to_multiset(),
            forall|date: i64| #[trigger] dated(final(self)@, date) == dated(old(self)@, date),
    {
        let ghost start = self@;
        let mut i: usize = 0;
        assert(self@ =~= sorted_by_date(start.take(0)) + start.skip(0));
        while i < self.lines.len()
            invariant
                i <= self.lines.len(),
                start.len() == self.lines.len(),
                self@ == sorted_by_date(start.take(i as int)) + start.skip(i as int),
            decreases self.lines.len() - i,
        {
            let ghost front = sorted_by_date(start.take(i as int));
            proof {
                law_sort_sorts(start.take(i as int));
                lemma_views_remove(self.lines@, i as int);
                assert(self@[i as int] == start.skip(i as int)[0]);
            }
            let line = self.lines.remove(i);
            assert(line@ == start[i as int]);
            assert(self@ =~= front + start.skip(i + 1));
            let mut j: usize = i;
            assert(front.take(i as int) =~= front);
            while j > 0 && self.lines[j - 1].date > line.date
                invariant
                    j <= i,
                    i <= self.lines.len(),
                    front.len() == i,
                    self@ == front + start.skip(i + 1),
                    insertion_point(front, line.date) == insertion_point(
                        front.take(j as int),
                        line.date,
                    ),
                decreases j,
            {
                assert(front.take(j as int).last() == self@[j - 1]);
                assert(front.take(j as int).drop_last() =~= front.take(j - 1));
                j -= 1;
            }
            proof {
                if j > 0 {
                    assert(front.take(j as int).last() == self@[j - 1]);
                }
                assert(insertion_point(front, line.date) == j);
                lemma_views_insert(self.lines@, j as int, line);
                assert(start.take(i + 1).drop_last() =~= start.take(i as int));
                assert(start.take(i + 1).last() == start[i as int]);
                assert(sorted_by_date(start.take(i + 1)) == front.insert(j as int, line@));
            }
            self.lines.insert(j, line);
            assert(self@ =~= sorted_by_date(start.take(i + 1)) + start.skip(i + 1));
            i += 1;
        }
        assert(start.take(start.len() as int) == start);
        assert(self@ =~= sorted_by_date(start));
        proof {
            law_sort_sorts(start);
            law_sort_keeps_lines(start);
            assert forall|date: i64| #[trigger]
                dated(sorted_by_date(start), date) == dated(start, date) by {
                law_sort_is_stable(start, date);
            }
        }
    }
}

} // verus!
