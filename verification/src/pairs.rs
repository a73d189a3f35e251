//! Lists of named values: the path parameters of a request, the
//! attributes of an item.

use vstd::prelude::*;
use crate::text::{copy, optional_text, same};

verus! {

/// The value of the first pair named `name`.
pub open spec fn value_of(pairs: Seq<(Seq<char>, Seq<char>)>, name: Seq<char>) -> Option<
    Seq<char>,
>
    decreases pairs.len(),
{
    if pairs.len() == 0 {
        None
    } else if pairs[0].0 == name {
        Some(pairs[0].1)
    } else {
        value_of(pairs.drop_first(), name)
    }
}

/// In two lists joined, a name is looked up in the first and, where it is
/// not there, in the second.
pub proof fn value_of_joined(
    head: Seq<(Seq<char>, Seq<char>)>,
    tail: Seq<(Seq<char>, Seq<char>)>,
    name: Seq<char>,
)
    ensures
        value_of(head + tail, name) == (if value_of(head, name) is Some {
            value_of(head, name)
        } else {
            value_of(tail, name)
        }),
    decreases head.len(),
{
    if head.len() > 0 {
        assert((head + tail).drop_first() =~= head.drop_first() + tail);
        value_of_joined(head.drop_first(), tail, name);
    }
}

/// The value of the first pair named `name`, copied.
pub fn lookup(pairs: &Vec<(String, String)>, name: &str) -> (found: Option<String>)
    ensures
        optional_text(found) == value_of(pairs.deep_view(), name@),
{
    let ghost all = pairs.deep_view();
    let mut at: usize = 0;
    assert(all.skip(0) =~= all);
    while at < pairs.len()
        invariant
            at <= pairs.len(),
            all == pairs.deep_view(),
            value_of(all, name@) == value_of(all.skip(at as int), name@),
        decreases pairs.len() - at,
    {
        proof {
            assert(all.skip(at as int).drop_first() =~= all.skip(at + 1));
        }
        if same(pairs[at].0.as_str(), name) {
            return Some(copy(&pairs[at].1));
        }
        at = at + 1;
    }
    None
}

} // verus!
