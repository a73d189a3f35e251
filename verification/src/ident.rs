//! Fresh identifiers for stories and comments.

use vstd::prelude::*;

verus! {

/// A decimal digit or one of the letters `a` to `f`.
pub open spec fn is_lower_hex(c: char) -> bool {
    ('0' <= c && c <= '9') || ('a' <= c && c <= 'f')
}

/// The textual form of a random 128-bit identifier: 36 characters, of which
/// those at 8, 13, 18 and 23 are hyphens and the others lower-case
/// hexadecimal digits; the digit at 14 is the version, 4, and the digit at
/// 19 carries the variant.
pub open spec fn is_random_id(text: Seq<char>) -> bool {
    &&& text.len() == 36
    &&& forall|i: int|
        0 <= i < 36 ==> if i == 8 || i == 13 || i == 18 || i == 23 {
            text[i] == '-'
        } else {
            is_lower_hex(#[trigger] text[i])
        }
    &&& text[14] == '4'
    &&& (text[19] == '8' || text[19] == '9' || text[19] == 'a' || text[19] == 'b')
}

/// Calls `uuid::Uuid::new_v4` and renders the result with its `Display`
/// impl, which writes the hyphenated lower-case form. Trusted: the result
/// has the shape `is_random_id`. Which identifier comes back is left open;
/// it is drawn from the operating system's random source, and the call
/// panics if that source cannot be read.
#[verifier::external_body]
pub(crate) fn random_id() -> (id: String)
    ensures
        is_random_id(id@),
{
    uuid::Uuid::new_v4().to_string()
}

} // verus!
