//! Local echoes: the lines that show a message of this client before the
//! homeserver has confirmed it.

use vstd::prelude::*;
use crate::buffer::Buffer;
use crate::line::{copy_texts, lemma_views_update, Line, LineView};
use crate::render::{RenderedEvent, RenderedEventView};
use crate::transaction::{echo_tag, echo_tag_text};

verus! {

/// The index of the most recent line that carries the tag, or -1 where
/// there is none.
pub open spec fn last_tagged(lines: Seq<LineView>, tag: Seq<char>) -> int
    decreases lines.len(),
{
    if lines.len() == 0 {
        -1
    } else if lines.last().has_tag(tag) {
        lines.len() - 1
    } else {
        last_tagged(lines.drop_last(), tag)
    }
}

/// Where the unbroken run of lines with the tag that ends just before
/// `end` begins.
pub open spec fn tagged_run_start(lines: Seq<LineView>, tag: Seq<char>, end: int) -> int
    decreases end,
{
    if end <= 0 || end > lines.len() || !lines[end - 1].has_tag(tag) {
        end
    } else {
        tagged_run_start(lines, tag, end - 1)
    }
}

/// The lines after the echo tagged `tag` has been replaced with the
/// rendered event.
///
/// The echo is the most recent line with the tag and the unbroken run of
/// such lines before it. From the most recent line backwards, each line of
/// the echo takes the message of a rendered line, from the last rendered
/// line backwards, as long as there are rendered lines.
pub open spec fn replace_echo(
    lines: Seq<LineView>,
    tag: Seq<char>,
    rendered: RenderedEventView,
) -> Seq<LineView> {
    let last = last_tagged(lines, tag);
    let start = tagged_run_start(lines, tag, last);
    let count = rendered.lines.len();
    Seq::new(
        lines.len(),
        |i: int|
            if 0 <= start <= i <= last && last - i < count {
                lines[i].with_message(rendered.lines[count - 1 - (last - i)].message)
            } else {
                lines[i]
            },
    )
}

impl Line {
    /// The line with another message.
    pub fn with_message(&self, message: &String) -> (line: Line)
        ensures
            line@ == self@.with_message(message@),
    {
        Line {
            date: self.date,
            date_printed: self.date_printed,
            tags: copy_texts(&self.tags),
            prefix: self.prefix.clone(),
            message: message.clone(),
        }
    }
}

impl Buffer {
    /// Replaces the local echo of the message sent under `uuid` with the
    /// rendered event, from the most recent line of the echo backwards.
    /// Only the messages of the lines change.
    pub fn replace_local_echo(&mut self, uuid: u128, rendered: &RenderedEvent)
        ensures
            final(self)@ == replace_echo(old(self)@, echo_tag(uuid), rendered@),
    {
        let tag = echo_tag_text(uuid);
        let ghost start = self@;
        let count = rendered.content.lines.len();
        let mut last: usize = self.lines.len();
        assert(start.take(last as int) =~= start);
        while last > 0 && !self.lines[last - 1].has_tag(&tag)
            invariant
                last <= self.lines.len(),
                self@ == start,
                last_tagged(start, tag@) == last_tagged(start.take(last as int), tag@),
            decreases last,
        {
            assert(start.take(last as int).last() == self.lines@[last - 1]@);
            assert(start.take(last as int).drop_last() =~= start.take(last - 1));
            last -= 1;
        }
        if last == 0 {
            assert(self@ =~= replace_echo(start, tag@, rendered@));
            return ;
        }
        assert(start.take(last as int).last() == self.lines@[last - 1]@);
        let last = last - 1;
        assert(last_tagged(start, tag@) == last);
        let mut current: usize = last + 1;
        let mut line_num: usize = count;
        while current > 0 && line_num > 0 && self.lines[current - 1].has_tag(&tag)
            invariant
                current <= last + 1,
                last < self.lines.len(),
                start.len() == self.lines.len(),
                count == rendered@.lines.len(),
                line_num <= count,
                count - line_num == last + 1 - current,
                tagged_run_start(start, tag@, last as int) == tagged_run_start(
                    start,
                    tag@,
                    if current <= last {
                        current as int
                    } else {
                        last as int
                    },
                ),
                self@ == Seq::new(
                    start.len(),
                    |i: int|
                        if current <= i <= last {
                            start[i].with_message(rendered@.lines[count - 1 - (last - i)].message)
                        } else {
                            start[i]
                        },
                ),
            decreases current,
        {
            assert(self.lines@[current - 1]@ == self@[current - 1]);
            assert(self@[current - 1] == start[current - 1]);
            current -= 1;
            line_num -= 1;
            let line = self.lines[current].with_message(&rendered.content.lines[line_num].message);
            proof {
                lemma_views_update(self.lines@, current as int, line);
            }
            self.lines.set(current, line);
            assert(self@ =~= Seq::new(
                start.len(),
                |i: int|
                    if current <= i <= last {
                        start[i].with_message(rendered@.lines[count - 1 - (last - i)].message)
                    } else {
                        start[i]
                    },
            ));
        }
        proof {
            if current > 0 {
                assert(self.lines@[current - 1]@ == self@[current - 1]);
                assert(self@[current - 1] == start[current - 1]);
            }
            lemma_tagged_run_bounds(
                start,
                tag@,
                if current <= last {
                    current as int
                } else {
                    last as int
                },
            );
            assert(self@ =~= replace_echo(start, tag@, rendered@));
        }
    }
}

/// The run that ends before `end` begins within the lines.
pub proof fn lemma_tagged_run_bounds(lines: Seq<LineView>, tag: Seq<char>, end: int)
    requires
        0 <= end <= lines.len(),
    ensures
        0 <= tagged_run_start(lines, tag, end) <= end,
    decreases end,
{
    if end > 0 && lines[end - 1].has_tag(tag) {
        lemma_tagged_run_bounds(lines, tag, end - 1);
    }
}

/// The run that ends before `end` begins no later than any point from
/// which on all lines up to `end` carry the tag.
pub proof fn lemma_tagged_run_covers(lines: Seq<LineView>, tag: Seq<char>, end: int, from: int)
    requires
        0 <= from <= end <= lines.len(),
        forall|i: int| from <= i < end ==> (#[trigger] lines[i]).has_tag(tag),
    ensures
        0 <= tagged_run_start(lines, tag, end) <= from,
    decreases end - from,
{
    if from < end {
        assert(lines[end - 1].has_tag(tag));
        lemma_tagged_run_covers(lines, tag, end - 1, from);
    } else {
        lemma_tagged_run_bounds(lines, tag, end);
    }
}

/// An echo at the end of the display that has as many lines as the
/// rendering takes the rendered messages line for line, and no other line
/// changes.
pub proof fn lemma_echo_at_the_end(
    before: Seq<LineView>,
    echo: Seq<LineView>,
    tag: Seq<char>,
    rendered: RenderedEventView,
)
    requires
        echo.len() == rendered.lines.len(),
        forall|k: int| 0 <= k < echo.len() ==> (#[trigger] echo[k]).has_tag(tag),
    ensures
        replace_echo(before + echo, tag, rendered) == before + Seq::new(
            echo.len(),
            |k: int| echo[k].with_message(rendered.lines[k].message),
        ),
{
    let lines = before + echo;
    let count = echo.len() as int;
    let goal = before + Seq::new(
        echo.len(),
        |k: int| echo[k].with_message(rendered.lines[k].message),
    );
    if count == 0 {
        assert(replace_echo(lines, tag, rendered) =~= goal);
    } else {
        let last = lines.len() - 1;
        assert(lines.last() == echo[count - 1]);
        assert(last_tagged(lines, tag) == last);
        assert forall|i: int| before.len() <= i < last implies (#[trigger] lines[i]).has_tag(
            tag,
        ) by {
            assert(lines[i] == echo[i - before.len()]);
        }
        lemma_tagged_run_covers(lines, tag, last, before.len() as int);
        assert(replace_echo(lines, tag, rendered) =~= goal);
    }
}

} // verus!
