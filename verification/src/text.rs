//! Sequences of characters: where a mark first stands, how a text falls into
//! lines and a line into fields.
//!
//! The spec functions speak of `Seq<char>`, the view of a `&str`.  The
//! executable functions walk a `Vec<char>` between two positions, so that no
//! line and no field is ever copied.

use vstd::prelude::*;

verus! {

/// Position of the first `mark` in `s`; the length of `s` where it holds
/// none.
pub open spec fn first_index_of(s: Seq<char>, mark: char) -> int
    decreases s.len(),
{
    if s.len() == 0 || s[0] == mark {
        0
    } else {
        1 + first_index_of(s.skip(1), mark)
    }
}

/// A line as it stands before a line feed: a carriage return that ends it
/// belongs to the line ending.
pub open spec fn without_carriage_return(line: Seq<char>) -> Seq<char> {
    if line.len() > 0 && line.last() == '\r' {
        line.drop_last()
    } else {
        line
    }
}

/// The lines of a text.  A line ends at a line feed, or at a carriage return
/// and a line feed, or where the text ends; the line ending is no part of
/// the line, and a text that ends in a line ending has no empty last line.
pub open spec fn lines_of(text: Seq<char>) -> Seq<Seq<char>>
    decreases text.len(),
{
    let end = first_index_of(text, '\n');
    if text.len() == 0 {
        Seq::empty()
    } else if end < 0 || end >= text.len() {
        seq![text]
    } else {
        seq![without_carriage_return(text.take(end))] + lines_of(text.skip(end + 1))
    }
}

/// The fields of a line: what stands between its commas.  A line without a
/// comma is one field, and so is the empty line.
pub open spec fn fields_of(line: Seq<char>) -> Seq<Seq<char>>
    decreases line.len(),
{
    let end = first_index_of(line, ',');
    if end < 0 || end >= line.len() {
        seq![line]
    } else {
        seq![line.take(end)] + fields_of(line.skip(end + 1))
    }
}

/// The parts put together again, with `mark` between each two of them.
pub open spec fn joined(parts: Seq<Seq<char>>, mark: char) -> Seq<char>
    decreases parts.len(),
{
    if parts.len() == 0 {
        Seq::empty()
    } else if parts.len() == 1 {
        parts[0]
    } else {
        parts[0] + seq![mark] + joined(parts.skip(1), mark)
    }
}

/// `first_index_of` finds a mark, and the first one.
pub proof fn lemma_first_index_of(s: Seq<char>, mark: char)
    ensures
        0 <= first_index_of(s, mark) <= s.len(),
        forall|i: int| 0 <= i < first_index_of(s, mark) ==> s[i] != mark,
        first_index_of(s, mark) < s.len() ==> s[first_index_of(s, mark)] == mark,
    decreases s.len(),
{
    if s.len() > 0 && s[0] != mark {
        let rest = s.skip(1);
        lemma_first_index_of(rest, mark);
        assert forall|i: int| 0 <= i < 1 + first_index_of(rest, mark) implies s[i] != mark by {
            if i > 0 {
                assert(rest[i - 1] == s[i]);
            }
        }
    }
}

/// A position before which no mark stands, and which holds one or ends the
/// sequence, is the one that `first_index_of` gives.
pub proof fn lemma_first_index_is(s: Seq<char>, mark: char, at: int)
    requires
        0 <= at <= s.len(),
        forall|i: int| 0 <= i < at ==> s[i] != mark,
        at < s.len() ==> s[at] == mark,
    ensures
        first_index_of(s, mark) == at,
{
    lemma_first_index_of(s, mark);
}

/// The first field of a line ends at its first comma; the other fields are
/// the fields of what follows that comma.
pub proof fn lemma_fields_of(line: Seq<char>)
    ensures
        fields_of(line).len() >= 1,
        fields_of(line)[0] == line.take(first_index_of(line, ',')),
        first_index_of(line, ',') >= line.len() ==> fields_of(line).len() == 1,
        first_index_of(line, ',') < line.len() ==> fields_of(line).skip(1) == fields_of(
            line.skip(first_index_of(line, ',') + 1),
        ),
{
    lemma_first_index_of(line, ',');
}

/// No field holds a comma, and the fields with commas between them are the
/// line again: the fields are the one way to cut the line at every comma.
pub proof fn lemma_fields_cut_at_commas(line: Seq<char>)
    ensures
        fields_of(line).len() >= 1,
        forall|i: int, j: int|
            0 <= i < fields_of(line).len() && 0 <= j < fields_of(line)[i].len() ==> fields_of(
                line,
            )[i][j] != ',',
        joined(fields_of(line), ',') == line,
    decreases line.len(),
{
    lemma_first_index_of(line, ',');
    let end = first_index_of(line, ',');
    if end < line.len() {
        let rest = line.skip(end + 1);
        lemma_fields_cut_at_commas(rest);
        assert(fields_of(line).skip(1) =~= fields_of(rest));
    }
}

/// No line holds a line feed.
pub proof fn lemma_lines_hold_no_line_feed(text: Seq<char>)
    ensures
        forall|i: int, j: int|
            0 <= i < lines_of(text).len() && 0 <= j < lines_of(text)[i].len() ==> lines_of(
                text,
            )[i][j] != '\n',
    decreases text.len(),
{
    lemma_first_index_of(text, '\n');
    let end = first_index_of(text, '\n');
    let lines = lines_of(text);
    if text.len() > 0 && end < text.len() {
        let rest = text.skip(end + 1);
        lemma_lines_hold_no_line_feed(rest);
        assert forall|i: int, j: int|
            0 <= i < lines.len() && 0 <= j < lines[i].len() implies lines[i][j] != '\n' by {
            if i > 0 {
                assert(lines[i] == lines_of(rest)[i - 1]);
            }
        }
    }
}

/// The characters of a string, one by one.
pub(crate) fn chars_of(text: &str) -> (chars: Vec<char>)
    ensures
        chars@ == text@,
{
    let mut chars: Vec<char> = Vec::new();
    for c in it: text.chars()
        invariant
            chars@ == it.seq().take(it.index() as int),
            it.seq() == text@,
    {
        chars.push(c);
    }
    chars
}

/// Finds the first `mark` between two positions; gives `to` where there is
/// none.
pub(crate) fn find_from(chars: &Vec<char>, from: usize, to: usize, mark: char) -> (at: usize)
    requires
        from <= to <= chars.len(),
    ensures
        from <= at <= to,
        at - from == first_index_of(chars@.subrange(from as int, to as int), mark),
{
    let mut at: usize = from;
    while at < to && chars[at] != mark
        invariant
            from <= at <= to <= chars.len(),
            forall|i: int| from <= i < at ==> chars@[i] != mark,
        decreases to - at,
    {
        at += 1;
    }
    proof {
        lemma_first_index_is(chars@.subrange(from as int, to as int), mark, at - from);
    }
    at
}

/// Whether what stands between two positions begins with `label`.
pub(crate) fn begins_with(chars: &Vec<char>, from: usize, to: usize, label: &Vec<char>) -> (found:
    bool)
    requires
        from <= to <= chars.len(),
    ensures
        found == label@.is_prefix_of(chars@.subrange(from as int, to as int)),
{
    if label.len() > to - from {
        return false;
    }
    let ghost line = chars@.subrange(from as int, to as int);
    let mut i: usize = 0;
    while i < label.len()
        invariant
            from <= to <= chars.len(),
            i <= label.len() <= to - from,
            line == chars@.subrange(from as int, to as int),
            forall|j: int| 0 <= j < i ==> label@[j] == line[j],
        decreases label.len() - i,
    {
        if chars[from + i] != label[i] {
            return false;
        }
        i += 1;
    }
    true
}

} // verus!
