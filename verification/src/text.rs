//! Texts as sequences of characters: joining parts with a separator, and
//! splitting a text into its lines.

use vstd::prelude::*;
use vstd::string::*;

verus! {

/// The parts written one after another, with `sep` between neighbours.
pub open spec fn joined(parts: Seq<Seq<char>>, sep: Seq<char>) -> Seq<char>
    decreases parts.len(),
{
    if parts.len() == 0 {
        Seq::empty()
    } else if parts.len() == 1 {
        parts[0]
    } else {
        joined(parts.drop_last(), sep) + sep + parts.last()
    }
}

/// Joining one more part onto a non-empty list puts the separator before it.
pub proof fn lemma_joined_push(parts: Seq<Seq<char>>, sep: Seq<char>, part: Seq<char>)
    ensures
        joined(parts.push(part), sep) == if parts.len() == 0 {
            part
        } else {
            joined(parts, sep) + sep + part
        },
{
    let all = parts.push(part);
    assert(all.drop_last() =~= parts);
    assert(all.last() == part);
}

/// Whether `part` stands in `s` at the position `at`.
pub open spec fn occurs_at(s: Seq<char>, part: Seq<char>, at: int) -> bool {
    &&& 0 <= at
    &&& at + part.len() <= s.len()
    &&& s.subrange(at, at + part.len()) == part
}

/// A text that was put between two others stands behind the first of them.
pub proof fn lemma_occurs_between(before: Seq<char>, part: Seq<char>, after: Seq<char>)
    ensures
        occurs_at(before + part + after, part, before.len() as int),
{
    let all = before + part + after;
    assert(all.subrange(before.len() as int, (before + part).len() as int) =~= part);
}

/// Whether the character `c` is nowhere in `s`.
pub open spec fn free_of(s: Seq<char>, c: char) -> bool {
    forall|i: int| 0 <= i < s.len() ==> s[i] != c
}

/// A text made of two is free of a character where both are.
pub proof fn lemma_free_of_concat(a: Seq<char>, b: Seq<char>, c: char)
    ensures
        free_of(a + b, c) == (free_of(a, c) && free_of(b, c)),
{
    let ab = a + b;
    if free_of(ab, c) {
        assert forall|i: int| 0 <= i < a.len() implies a[i] != c by {
            assert(ab[i] == a[i]);
        }
        assert forall|i: int| 0 <= i < b.len() implies b[i] != c by {
            assert(ab[a.len() + i] == b[i]);
        }
    }
}

/// Joined parts are free of a character where every part and the separator
/// are.
pub proof fn lemma_free_of_joined(parts: Seq<Seq<char>>, sep: Seq<char>, c: char)
    requires
        forall|i: int| 0 <= i < parts.len() ==> free_of(#[trigger] parts[i], c),
        free_of(sep, c),
    ensures
        free_of(joined(parts, sep), c),
    decreases parts.len(),
{
    if parts.len() >= 2 {
        let front = parts.drop_last();
        assert forall|i: int| 0 <= i < front.len() implies free_of(#[trigger] front[i], c) by {
            assert(front[i] == parts[i]);
        }
        lemma_free_of_joined(front, sep, c);
        lemma_free_of_concat(joined(front, sep), sep, c);
        lemma_free_of_concat(joined(front, sep) + sep, parts.last(), c);
    } else if parts.len() == 1 {
        assert(free_of(parts[0], c));
    }
}

/// Writes the parts one after another, with `sep` between neighbours.
pub fn join(parts: &Vec<String>, sep: &str) -> (out: String)
    ensures
        out@ == joined(parts.deep_view(), sep@),
{
    let mut out = String::new();
    let mut i: usize = 0;
    while i < parts.len()
        invariant
            i <= parts.len(),
            out@ == joined(parts.deep_view().take(i as int), sep@),
        decreases parts.len() - i,
    {
        proof {
            let done = parts.deep_view().take(i as int);
            lemma_joined_push(done, sep@, parts@[i as int]@);
            assert(parts.deep_view().take(i + 1) =~= done.push(parts@[i as int]@));
        }
        if i > 0 {
            out.append(sep);
        }
        out.append(parts[i].as_str());
        i += 1;
    }
    assert(parts.deep_view().take(i as int) =~= parts.deep_view());
    out
}

/// Whether the first line of `s` ends at `i`: no line feed stands before `i`,
/// and at `i` stands a line feed or the end of `s`.
pub open spec fn is_line_end(s: Seq<char>, i: int) -> bool {
    &&& 0 <= i <= s.len()
    &&& forall|j: int| 0 <= j < i ==> s[j] != '\n'
    &&& i < s.len() ==> s[i] == '\n'
}

/// Where the first line of `s` ends.
pub open spec fn line_end(s: Seq<char>) -> int {
    choose|i: int| is_line_end(s, i)
}

/// A line without the carriage return that may stand at its end.
pub open spec fn without_return(line: Seq<char>) -> Seq<char> {
    if line.len() > 0 && line.last() == '\r' {
        line.drop_last()
    } else {
        line
    }
}

/// The lines of a text. A line ends with a line feed, or with a carriage
/// return and a line feed; neither belongs to the line. What follows the last
/// line feed is a line too, unless it is empty.
pub open spec fn split_lines(s: Seq<char>) -> Seq<Seq<char>>
    decreases s.len(),
{
    let end = line_end(s);
    if s.len() == 0 {
        Seq::empty()
    } else if 0 <= end < s.len() {
        seq![without_return(s.subrange(0, end))] + split_lines(
            s.subrange(end + 1, s.len() as int),
        )
    } else {
        seq![s]
    }
}

/// There is one place only where the first line of a text ends.
pub proof fn lemma_line_end(s: Seq<char>, i: int)
    requires
        is_line_end(s, i),
    ensures
        line_end(s) == i,
{
    let c = line_end(s);
    assert(is_line_end(s, c));
    if c < i {
        assert(s[c] == '\n');
    }
    if i < c {
        assert(s[i] == '\n');
    }
}

/// The first of several joined parts stands in front, with the separator
/// and the other parts joined behind it.
pub proof fn lemma_joined_front(parts: Seq<Seq<char>>, sep: Seq<char>)
    requires
        parts.len() >= 2,
    ensures
        joined(parts, sep) == parts[0] + sep + joined(parts.drop_first(), sep),
    decreases parts.len(),
{
    let tail = parts.drop_first();
    if parts.len() == 2 {
        assert(joined(parts.drop_last(), sep) == parts[0]);
        assert(joined(tail, sep) == parts[1]);
    } else {
        let front = parts.drop_last();
        lemma_joined_front(front, sep);
        assert(front.drop_first() =~= tail.drop_last());
        assert(joined(parts, sep) =~= parts[0] + sep + joined(tail, sep));
    }
}

/// Splitting undoes joining. Lines that hold no line feed, of which none but
/// the last ends with a carriage return and the last is not empty, are the
/// lines of the text that joins them with line feeds.
pub proof fn law_split_joined(lines: Seq<Seq<char>>)
    requires
        forall|i: int| 0 <= i < lines.len() ==> free_of(#[trigger] lines[i], '\n'),
        forall|i: int|
            0 <= i < lines.len() - 1 ==> without_return(#[trigger] lines[i]) == lines[i],
        lines.len() > 0 ==> lines.last().len() > 0,
    ensures
        split_lines(joined(lines, "\n"@)) == lines,
    decreases lines.len(),
{
    reveal_strlit("\n");
    let text = joined(lines, "\n"@);
    if lines.len() == 0 {
        assert(split_lines(text) =~= lines);
    } else if lines.len() == 1 {
        lemma_line_end(text, text.len() as int);
        assert(split_lines(text) =~= lines);
    } else {
        let first = lines[0];
        let tail = lines.drop_first();
        let rest = joined(tail, "\n"@);
        lemma_joined_front(lines, "\n"@);
        assert(text == first + "\n"@ + rest);
        assert forall|i: int| 0 <= i < tail.len() implies free_of(#[trigger] tail[i], '\n') by {
            assert(tail[i] == lines[i + 1]);
        }
        assert forall|i: int| 0 <= i < tail.len() - 1 implies without_return(#[trigger] tail[i])
            == tail[i] by {
            assert(tail[i] == lines[i + 1]);
        }
        assert(tail.last() == lines.last());
        law_split_joined(tail);
        assert(is_line_end(text, first.len() as int)) by {
            assert forall|j: int| 0 <= j < first.len() implies text[j] != '\n' by {
                assert(text[j] == first[j]);
            }
            assert(text[first.len() as int] == '\n');
        }
        lemma_line_end(text, first.len() as int);
        assert(text.subrange(0, first.len() as int) =~= first);
        assert(text.subrange(first.len() as int + 1, text.len() as int) =~= rest);
        assert(split_lines(text) =~= lines);
    }
}

/// The lines of a text.
pub fn lines<'a>(text: &'a str) -> (out: Vec<&'a str>)
    ensures
        out.deep_view() == split_lines(text@),
{
    let n = text.unicode_len();
    let mut out: Vec<&'a str> = Vec::new();
    let mut start: usize = 0;
    let mut i: usize = 0;
    let mut after_return = false;
    assert(text@.subrange(0, n as int) =~= text@);
    assert(out.deep_view() + split_lines(text@) =~= split_lines(text@));
    for c in it: text.chars()
        invariant
            it.seq() == text@,
            i == it.index(),
            start <= i <= n,
            n == text@.len(),
            after_return == (i > start && text@[i - 1] == '\r'),
            forall|j: int| start <= j < i ==> text@[j] != '\n',
            out.deep_view() + split_lines(text@.subrange(start as int, n as int)) == split_lines(
                text@,
            ),
    {
        if c == '\n' {
            let end = if after_return {
                i - 1
            } else {
                i
            };
            let line = text.substring_char(start, end);
            proof {
                let rest = text@.subrange(start as int, n as int);
                lemma_line_end(rest, i - start);
                assert(rest.subrange(0, i - start) =~= text@.subrange(start as int, i as int));
                assert(rest.subrange(i - start + 1, rest.len() as int) =~= text@.subrange(
                    i + 1,
                    n as int,
                ));
                assert(line@ =~= without_return(text@.subrange(start as int, i as int)));
                assert(out.deep_view().push(line@) + split_lines(text@.subrange(i + 1, n as int))
                    =~= out.deep_view() + split_lines(rest));
            }
            let ghost before = out.deep_view();
            out.push(line);
            assert(out.deep_view() =~= before.push(line@));
            start = i + 1;
        }
        after_return = c == '\r';
        i += 1;
    }
    if start < n {
        let line = text.substring_char(start, n);
        proof {
            let rest = text@.subrange(start as int, n as int);
            lemma_line_end(rest, rest.len() as int);
            assert(out.deep_view().push(line@) =~= out.deep_view() + split_lines(rest));
        }
        let ghost before = out.deep_view();
        out.push(line);
        assert(out.deep_view() =~= before.push(line@));
    } else {
        assert(out.deep_view() + split_lines(text@.subrange(start as int, n as int))
            =~= out.deep_view());
    }
    out
}

} // verus!
