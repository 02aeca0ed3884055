//! Lists of texts that are written by index: the arguments of a request and
//! the values of a response. A write beyond the end fills the gap with empty
//! texts, so that every index up to the highest one written holds a text.

use crate::text::string_texts;
use vstd::prelude::*;

verus! {

/// `list`, with empty texts added at its end until it holds `len` of them.
pub open spec fn padded(list: Seq<Seq<char>>, len: nat) -> Seq<Seq<char>> {
    if list.len() >= len {
        list
    } else {
        list + Seq::new((len - list.len()) as nat, |i: int| Seq::<char>::empty())
    }
}

/// `list` with `value` at `index`. A list that is too short to have that
/// index is first filled up with empty texts.
pub open spec fn put_at(list: Seq<Seq<char>>, index: nat, value: Seq<char>) -> Seq<Seq<char>> {
    padded(list, index + 1).update(index as int, value)
}

/// What `put_at` leaves: the list is as long as before or just long enough
/// for `index`, it holds `value` at `index`, what it held elsewhere before,
/// and an empty text at each place that is new.
pub proof fn lemma_put_at(list: Seq<Seq<char>>, index: nat, value: Seq<char>)
    ensures
        put_at(list, index, value).len() == if list.len() > index {
            list.len()
        } else {
            index + 1
        },
        put_at(list, index, value)[index as int] == value,
        forall|i: int|
            0 <= i < list.len() && i != index ==> put_at(list, index, value)[i] == list[i],
        forall|i: int|
            list.len() <= i < index ==> put_at(list, index, value)[i] == Seq::<char>::empty(),
{
}

/// Writes `value` at `index` of `list`, which grows by empty strings where
/// it is too short. The list grows as far as `index` asks, whatever that
/// takes of memory.
pub fn put_string_at(list: &mut Vec<String>, index: usize, value: String)
    ensures
        string_texts(final(list)@) == put_at(string_texts(old(list)@), index as nat, value@),
{
    let ghost before = string_texts(list@);
    while list.len() <= index
        invariant
            before.len() <= list@.len(),
            list@.len() == before.len() || list@.len() <= index + 1,
            string_texts(list@) == padded(before, list@.len()),
        decreases index + 1 - list.len(),
    {
        let ghost previous = string_texts(list@);
        list.push(String::new());
        assert(string_texts(list@) == previous.push(Seq::<char>::empty()));
    }
    let ghost filled = string_texts(list@);
    list.set(index, value);
    assert(string_texts(list@) == filled.update(index as int, value@));
}

} // verus!
