//! Pieces of text: their characters, and whether two of them are the same.

use vstd::prelude::*;

verus! {

/// Whether two pieces of text hold the same characters in the same order.
pub fn same_text(left: &str, right: &str) -> (same: bool)
    ensures
        same == (left@ == right@),
{
    let length: usize = left.unicode_len();
    if right.unicode_len() != length {
        return false;
    }
    let mut at: usize = 0;
    while at < length
        invariant
            at <= length,
            length == left@.len(),
            length == right@.len(),
            forall|k: int| 0 <= k < at ==> left@[k] == right@[k],
        decreases length - at,
    {
        if left.get_char(at) != right.get_char(at) {
            return false;
        }
        at = at + 1;
    }
    assert(left@ =~= right@);
    true
}

/// The characters of a piece of text, in order.
pub fn characters(text: &str) -> (list: Vec<char>)
    ensures
        list@ == text@,
{
    let mut list: Vec<char> = Vec::new();
    for c in walk: text.chars()
        invariant
            walk.seq() == text@,
            list@ == text@.take(walk.index() as int),
    {
        list.push(c);
    }
    list
}

} // verus!
