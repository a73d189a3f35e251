//! Small operations on strings, specified over their characters.

use vstd::prelude::*;
use vstd::string::*;

verus! {

/// The characters of an optional string.
pub open spec fn optional_text(text: Option<String>) -> Option<Seq<char>> {
    match text {
        Some(t) => Some(t@),
        None => None,
    }
}

/// A new string holding `head` followed by `tail`.
pub fn join(head: &str, tail: &str) -> (out: String)
    ensures
        out@ == head@ + tail@,
{
    let mut out = String::from_str(head);
    out.append(tail);
    out
}

/// A new string with the characters of `text`.
pub fn copy(text: &String) -> (out: String)
    ensures
        out@ == text@,
{
    text.clone()
}

/// A copy of an optional string.
pub fn copy_optional(text: &Option<String>) -> (out: Option<String>)
    ensures
        optional_text(out) == optional_text(*text),
{
    match text {
        Some(t) => Some(copy(t)),
        None => None,
    }
}

/// Whether `text` begins with `prefix`.
pub fn starts_with(text: &str, prefix: &str) -> (found: bool)
    ensures
        found == prefix@.is_prefix_of(text@),
{
    let wanted: usize = prefix.unicode_len();
    let given: usize = text.unicode_len();
    if wanted > given {
        return false;
    }
    let mut at: usize = 0;
    while at < wanted
        invariant
            at <= wanted <= given,
            wanted == prefix@.len(),
            given == text@.len(),
            forall|i: int| 0 <= i < at ==> prefix@[i] == text@[i],
        decreases wanted - at,
    {
        if prefix.get_char(at) != text.get_char(at) {
            return false;
        }
        at = at + 1;
    }
    true
}

/// Whether two strings hold the same characters.
pub fn same(left: &str, right: &str) -> (equal: bool)
    ensures
        equal == (left@ == right@),
{
    if left.unicode_len() != right.unicode_len() {
        return false;
    }
    let equal = starts_with(left, right);
    proof {
        if equal {
            assert(left@ =~= left@.subrange(0, right@.len() as int));
        }
    }
    equal
}

} // verus!
