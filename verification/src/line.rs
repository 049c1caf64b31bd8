//! One line of a room's timeline, and the tags it carries.

use vstd::prelude::*;

verus! {

/// A line on display.
#[derive(Debug, Clone, PartialEq, Eq)]
pub struct Line {
    /// When the event happened, in seconds since the Unix epoch.
    pub date: i64,
    /// When the line was put on display, in seconds since the Unix epoch.
    pub date_printed: i64,
    pub tags: Vec<String>,
    pub prefix: String,
    pub message: String,
}

/// A line with its texts as sequences of characters.
pub ghost struct LineView {
    pub date: i64,
    pub date_printed: i64,
    pub tags: Seq<Seq<char>>,
    pub prefix: Seq<char>,
    pub message: Seq<char>,
}

/// The texts of a sequence of strings.
pub open spec fn texts(strings: Seq<String>) -> Seq<Seq<char>> {
    strings.map_values(|s: String| s@)
}

/// The text of a string that may be missing.
pub open spec fn text_view(text: Option<String>) -> Option<Seq<char>> {
    match text {
        Some(t) => Some(t@),
        None => None,
    }
}

impl View for Line {
    type V = LineView;

    open spec fn view(&self) -> LineView {
        LineView {
            date: self.date,
            date_printed: self.date_printed,
            tags: texts(self.tags@),
            prefix: self.prefix@,
            message: self.message@,
        }
    }
}

/// The views of a sequence of lines.
pub open spec fn line_views(lines: Seq<Line>) -> Seq<LineView> {
    lines.map_values(|l: Line| l@)
}

impl LineView {
    /// Whether the line carries the tag.
    pub open spec fn has_tag(self, tag: Seq<char>) -> bool {
        self.tags.contains(tag)
    }

    /// The line with another message.
    pub open spec fn with_message(self, message: Seq<char>) -> LineView {
        LineView { message, ..self }
    }

    /// The line with one more tag at the end of its tags.
    pub open spec fn with_tag(self, tag: Seq<char>) -> LineView {
        LineView { tags: self.tags.push(tag), ..self }
    }
}

/// Whether one of the strings reads `tag`.
pub fn contains_text(strings: &Vec<String>, tag: &String) -> (found: bool)
    ensures
        found == texts(strings@).contains(tag@),
{
    let mut i: usize = 0;
    while i < strings.len()
        invariant
            i <= strings.len(),
            forall|j: int| 0 <= j < i ==> texts(strings@)[j] != tag@,
        decreases strings.len() - i,
    {
        if strings[i] == *tag {
            assert(texts(strings@)[i as int] == tag@);
            return true;
        }
        i += 1;
    }
    false
}

/// A copy of the strings.
pub fn copy_texts(strings: &Vec<String>) -> (copy: Vec<String>)
    ensures
        copy@ == strings@,
{
    let mut copy: Vec<String> = Vec::new();
    let mut i: usize = 0;
    while i < strings.len()
        invariant
            i <= strings.len(),
            copy@ == strings@.take(i as int),
        decreases strings.len() - i,
    {
        copy.push(strings[i].clone());
        assert(strings@.take(i + 1) == strings@.take(i as int).push(strings@[i as int]));
        i += 1;
    }
    assert(strings@.take(strings.len() as int) == strings@);
    copy
}

/// Appends copies of `extra` to `strings`.
pub fn append_texts(strings: &mut Vec<String>, extra: &Vec<String>)
    ensures
        texts(final(strings)@) == texts(old(strings)@) + texts(extra@),
{
    let mut i: usize = 0;
    while i < extra.len()
        invariant
            i <= extra.len(),
            texts(strings@) == texts(old(strings)@) + texts(extra@).take(i as int),
        decreases extra.len() - i,
    {
        let ghost before = strings@;
        strings.push(extra[i].clone());
        assert(texts(strings@) =~= texts(before).push(extra@[i as int]@));
        assert(texts(extra@).take(i + 1) =~= texts(extra@).take(i as int).push(extra@[i as int]@));
        assert(texts(strings@) =~= texts(old(strings)@) + texts(extra@).take(i + 1));
        i += 1;
    }
    assert(texts(extra@).take(extra.len() as int) == texts(extra@));
}

impl Line {
    /// Whether the line carries the tag.
    pub fn has_tag(&self, tag: &String) -> (found: bool)
        ensures
            found == self@.has_tag(tag@),
    {
        contains_text(&self.tags, tag)
    }

    /// A copy of the line.
    pub fn duplicate(&self) -> (copy: Line)
        ensures
            copy@ == self@,
    {
        Line {
            date: self.date,
            date_printed: self.date_printed,
            tags: copy_texts(&self.tags),
            prefix: self.prefix.clone(),
            message: self.message.clone(),
        }
    }
}

/// Taking a line out of a sequence takes its view out of the views.
pub proof fn lemma_views_remove(lines: Seq<Line>, i: int)
    requires
        0 <= i < lines.len(),
    ensures
        line_views(lines.remove(i)) == line_views(lines).remove(i),
{
    assert(line_views(lines.remove(i)) =~= line_views(lines).remove(i));
}

/// Putting a line into a sequence puts its view into the views.
pub proof fn lemma_views_insert(lines: Seq<Line>, i: int, line: Line)
    requires
        0 <= i <= lines.len(),
    ensures
        line_views(lines.insert(i, line)) == line_views(lines).insert(i, line@),
{
    assert(line_views(lines.insert(i, line)) =~= line_views(lines).insert(i, line@));
}

/// Appending a line appends its view.
pub proof fn lemma_views_push(lines: Seq<Line>, line: Line)
    ensures
        line_views(lines.push(line)) == line_views(lines).push(line@),
{
    assert(line_views(lines.push(line)) =~= line_views(lines).push(line@));
}

/// Replacing a line replaces its view.
pub proof fn lemma_views_update(lines: Seq<Line>, i: int, line: Line)
    requires
        0 <= i < lines.len(),
    ensures
        line_views(lines.update(i, line)) == line_views(lines).update(i, line@),
{
    assert(line_views(lines.update(i, line)) =~= line_views(lines).update(i, line@));
}

} // verus!
