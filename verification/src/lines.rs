//! The lines of a text.

use crate::text::{chars_of, slice_texts};
use vstd::prelude::*;
use vstd::string::*;

verus! {

/// Where the first line feed of `text` stands; the length of `text` where
/// it holds none.
pub open spec fn first_newline(text: Seq<char>) -> nat
    decreases text.len(),
{
    if text.len() == 0 || text[0] == '\n' {
        0
    } else {
        1 + first_newline(text.skip(1))
    }
}

/// `line` without the carriage return at its end, if it has one.
pub open spec fn without_cr(line: Seq<char>) -> Seq<char> {
    if line.len() > 0 && line.last() == '\r' {
        line.drop_last()
    } else {
        line
    }
}

/// The lines of `text`. A line ends at a line feed, which is not part of it,
/// nor is a carriage return just before that line feed. What follows the
/// last line feed is a line of its own unless it is empty, and keeps a
/// carriage return at its end.
pub open spec fn lines_of(text: Seq<char>) -> Seq<Seq<char>>
    decreases text.len(),
{
    let end = first_newline(text) as int;
    if text.len() == 0 {
        Seq::empty()
    } else if end >= text.len() {
        seq![text]
    } else {
        seq![without_cr(text.take(end))] + lines_of(text.skip(end + 1))
    }
}

/// `first_newline` finds the first line feed: none stands before it, and it
/// is within `text` exactly where `text` holds one.
pub proof fn lemma_first_newline(text: Seq<char>)
    ensures
        first_newline(text) <= text.len(),
        forall|i: int| 0 <= i < first_newline(text) ==> text[i] != '\n',
        first_newline(text) < text.len() ==> text[first_newline(text) as int] == '\n',
    decreases text.len(),
{
    if text.len() == 0 || text[0] == '\n' {
    } else {
        let rest = text.skip(1);
        lemma_first_newline(rest);
        assert forall|i: int| 0 <= i < first_newline(text) implies text[i] != '\n' by {
            if i > 0 {
                assert(text[i] == rest[i - 1]);
            }
        }
        if first_newline(text) < text.len() {
            assert(text[first_newline(text) as int] == rest[first_newline(rest) as int]);
        }
    }
}

/// A stretch without a line feed that ends at a line feed, or at the end of
/// `text`, ends where `first_newline` says.
pub proof fn lemma_first_newline_is(text: Seq<char>, end: int)
    requires
        0 <= end <= text.len(),
        forall|i: int| 0 <= i < end ==> text[i] != '\n',
        end < text.len() ==> text[end] == '\n',
    ensures
        first_newline(text) == end,
{
    lemma_first_newline(text);
}

/// The lines of `text`, as `str::lines` gives them.
pub fn split_lines<'a>(text: &'a str) -> (lines: Vec<&'a str>)
    ensures
        slice_texts(lines@) == lines_of(text@),
{
    let chars = chars_of(text);
    let n = chars.len();
    let mut lines: Vec<&'a str> = Vec::new();
    let mut start: usize = 0;
    proof {
        assert(text@.skip(0) == text@);
        assert(slice_texts(lines@) + lines_of(text@) == lines_of(text@));
    }
    while start < n
        invariant
            start <= n,
            n == text@.len(),
            chars@ == text@,
            slice_texts(lines@) + lines_of(text@.skip(start as int)) == lines_of(text@),
        decreases n - start,
    {
        let ghost rest = text@.skip(start as int);
        let ghost before = slice_texts(lines@);
        let mut end: usize = start;
        while end < n && chars[end] != '\n'
            invariant
                start <= end <= n,
                n == chars@.len(),
                forall|i: int| start <= i < end ==> chars@[i] != '\n',
            decreases n - end,
        {
            end += 1;
        }
        proof {
            lemma_first_newline_is(rest, end - start);
        }
        if end == n {
            let line = text.substring_char(start, n);
            lines.push(line);
            proof {
                assert(line@ == rest);
                assert(lines_of(text@.skip(n as int)) == Seq::<Seq<char>>::empty());
                assert(slice_texts(lines@) == before + seq![rest]);
            }
            start = n;
        } else {
            let stop = if end > start && chars[end - 1] == '\r' {
                end - 1
            } else {
                end
            };
            let line = text.substring_char(start, stop);
            lines.push(line);
            proof {
                let whole = rest.take(end - start);
                assert(whole == text@.subrange(start as int, end as int));
                assert(line@ == without_cr(whole));
                assert(rest.skip(end - start + 1) == text@.skip(end + 1));
                assert(slice_texts(lines@) == before + seq![without_cr(whole)]);
            }
            start = end + 1;
        }
    }
    proof {
        assert(lines_of(text@.skip(start as int)) == Seq::<Seq<char>>::empty());
    }
    lines
}

} // verus!
