//! Text as sequences of characters: comparing, prefixes and the `": "`
//! separator.

use vstd::prelude::*;
use vstd::string::*;

verus! {

/// The characters of `text`, in a vector.
pub fn chars_of(text: &str) -> (chars: Vec<char>)
    ensures
        chars@ == text@,
{
    let mut chars: Vec<char> = Vec::new();
    for c in it: text.chars()
        invariant
            chars@ == it.seq().take(it.index() as int),
    {
        chars.push(c);
    }
    chars
}

/// Whether two strings hold the same characters.
pub fn same_text(a: &str, b: &str) -> (same: bool)
    ensures
        same == (a@ == b@),
{
    let n = a.unicode_len();
    if b.unicode_len() != n {
        return false;
    }
    let mut i: usize = 0;
    while i < n
        invariant
            i <= n,
            n == a@.len(),
            n == b@.len(),
            a@.take(i as int) == b@.take(i as int),
        decreases n - i,
    {
        if a.get_char(i) != b.get_char(i) {
            return false;
        }
        assert(a@.take(i + 1) == a@.take(i as int).push(a@[i as int]));
        assert(b@.take(i + 1) == b@.take(i as int).push(b@[i as int]));
        i += 1;
    }
    assert(a@ == a@.take(n as int));
    assert(b@ == b@.take(n as int));
    true
}

/// What follows `prefix` in `line`, or `None` where `line` does not begin
/// with `prefix`.
pub fn strip_prefix<'a>(line: &'a str, prefix: &str) -> (rest: Option<&'a str>)
    ensures
        rest is Some <==> prefix@.is_prefix_of(line@),
        rest matches Some(rest) ==> rest@ == line@.skip(prefix@.len() as int),
{
    let n = line.unicode_len();
    let k = prefix.unicode_len();
    if n < k {
        return None;
    }
    let mut i: usize = 0;
    while i < k
        invariant
            i <= k <= n,
            n == line@.len(),
            k == prefix@.len(),
            line@.take(i as int) == prefix@.take(i as int),
        decreases k - i,
    {
        if line.get_char(i) != prefix.get_char(i) {
            assert(line@.subrange(0, k as int)[i as int] != prefix@[i as int]);
            return None;
        }
        assert(line@.take(i + 1) == line@.take(i as int).push(line@[i as int]));
        assert(prefix@.take(i + 1) == prefix@.take(i as int).push(prefix@[i as int]));
        i += 1;
    }
    assert(prefix@ == prefix@.take(k as int));
    Some(line.substring_char(k, n))
}

/// The texts of a vector of string slices.
pub open spec fn slice_texts(lines: Seq<&str>) -> Seq<Seq<char>> {
    Seq::new(lines.len(), |i: int| lines[i]@)
}

/// The texts of a vector of strings.
pub open spec fn string_texts(strings: Seq<String>) -> Seq<Seq<char>> {
    Seq::new(strings.len(), |i: int| strings[i]@)
}

/// Whether a colon and a space stand at `i` and `i + 1` in `text`.
pub open spec fn separator_at(text: Seq<char>, i: int) -> bool {
    0 <= i && i + 1 < text.len() && text[i] == ':' && text[i + 1] == ' '
}

/// The first place at or after `from` where `": "` stands in `text`.
pub open spec fn separator_from(text: Seq<char>, from: int) -> Option<int>
    decreases text.len() - from,
{
    if from < 0 || from + 1 >= text.len() {
        None
    } else if separator_at(text, from) {
        Some(from)
    } else {
        separator_from(text, from + 1)
    }
}

/// What stands before and after the first `": "` of `text`.
pub open spec fn split_at_separator(text: Seq<char>) -> Option<(Seq<char>, Seq<char>)> {
    match separator_from(text, 0) {
        Some(i) => Some((text.take(i), text.skip(i + 2))),
        None => None,
    }
}

/// `separator_from` finds the first `": "` at or after `from`, and finds
/// one wherever there is one.
pub proof fn lemma_separator_from(text: Seq<char>, from: int)
    requires
        0 <= from,
    ensures
        match separator_from(text, from) {
            Some(i) => from <= i && separator_at(text, i) && forall|j: int|
                from <= j < i ==> !separator_at(text, j),
            None => forall|j: int| from <= j ==> !separator_at(text, j),
        },
    decreases text.len() - from,
{
    if from + 1 >= text.len() {
    } else if separator_at(text, from) {
    } else {
        lemma_separator_from(text, from + 1);
    }
}

/// Splits `text` at its first `": "`, as `str::split_once` does.
pub fn split_once_separator<'a>(text: &'a str) -> (parts: Option<(&'a str, &'a str)>)
    ensures
        match parts {
            Some((before, after)) => split_at_separator(text@) == Some((before@, after@)),
            None => split_at_separator(text@) is None,
        },
{
    let chars = chars_of(text);
    let n = chars.len();
    if n < 2 {
        return None;
    }
    let mut i: usize = 0;
    while i < n - 1
        invariant
            i < n,
            n == text@.len(),
            chars@ == text@,
            separator_from(text@, 0) == separator_from(text@, i as int),
        decreases n - i,
    {
        if chars[i] == ':' && chars[i + 1] == ' ' {
            return Some((text.substring_char(0, i), text.substring_char(i + 2, n)));
        }
        i += 1;
    }
    None
}

} // verus!
