//! The key codec: how the identifiers of users, stories and comments become
//! the partition and sort keys of the shared table.
//!
//! Identifiers are opaque: nothing here checks their form, and any
//! character may stand in one. A key is the entity's tag, which ends in
//! `#`, and behind it the identifier; so the identifier is read back by
//! taking the tag off.

use vstd::prelude::*;
use vstd::string::StringExecFns;
use crate::text::{join, starts_with};

verus! {

/// The characters of `user#`.
pub open spec fn user_tag() -> Seq<char> {
    seq!['u', 's', 'e', 'r', '#']
}

/// The characters of `story#`.
pub open spec fn story_tag() -> Seq<char> {
    seq!['s', 't', 'o', 'r', 'y', '#']
}

/// The characters of `comment#`.
pub open spec fn comment_tag() -> Seq<char> {
    seq!['c', 'o', 'm', 'm', 'e', 'n', 't', '#']
}

/// The key pair of the user `user_id`.
pub open spec fn user_key_spec(user_id: Seq<char>) -> (Seq<char>, Seq<char>) {
    (user_tag() + user_id, user_tag() + user_id)
}

/// The key pair of the story `story_id` of the user `user_id`.
pub open spec fn story_key_spec(user_id: Seq<char>, story_id: Seq<char>) -> (
    Seq<char>,
    Seq<char>,
) {
    (user_tag() + user_id, story_tag() + story_id)
}

/// The key pair of the comment `comment_id` on the story `story_id`.
pub open spec fn comment_key_spec(comment_id: Seq<char>, story_id: Seq<char>) -> (
    Seq<char>,
    Seq<char>,
) {
    (comment_tag() + comment_id, story_tag() + story_id)
}

/// `user#` as a string.
pub fn user_prefix() -> (tag: String)
    ensures
        tag@ == user_tag(),
{
    proof {
        reveal_strlit("user#");
    }
    String::from_str("user#")
}

/// `story#` as a string.
pub fn story_prefix() -> (tag: String)
    ensures
        tag@ == story_tag(),
{
    proof {
        reveal_strlit("story#");
    }
    String::from_str("story#")
}

/// `comment#` as a string.
pub fn comment_prefix() -> (tag: String)
    ensures
        tag@ == comment_tag(),
{
    proof {
        reveal_strlit("comment#");
    }
    String::from_str("comment#")
}

/// The partition key that groups a user with their stories.
pub fn user_partition(user_id: &str) -> (pk: String)
    ensures
        pk@ == user_tag() + user_id@,
{
    proof {
        reveal_strlit("user#");
    }
    join("user#", user_id)
}

/// The sort key of a story, which is also the partition of its comments in
/// the inverted index.
pub fn story_sort(story_id: &str) -> (sk: String)
    ensures
        sk@ == story_tag() + story_id@,
{
    proof {
        reveal_strlit("story#");
    }
    join("story#", story_id)
}

/// The partition key of a comment.
pub fn comment_partition(comment_id: &str) -> (pk: String)
    ensures
        pk@ == comment_tag() + comment_id@,
{
    proof {
        reveal_strlit("comment#");
    }
    join("comment#", comment_id)
}

/// Partition and sort key of a user: both are `user#<user_id>`.
pub fn user_key(user_id: &str) -> (key: (String, String))
    ensures
        key@ == user_key_spec(user_id@),
{
    (user_partition(user_id), user_partition(user_id))
}

/// Partition and sort key of a story: `user#<user_id>` and
/// `story#<story_id>`.
pub fn story_key(user_id: &str, story_id: &str) -> (key: (String, String))
    ensures
        key@ == story_key_spec(user_id@, story_id@),
{
    (user_partition(user_id), story_sort(story_id))
}

/// Partition and sort key of a comment: `comment#<comment_id>` and
/// `story#<story_id>`.
pub fn comment_key(comment_id: &str, story_id: &str) -> (key: (String, String))
    ensures
        key@ == comment_key_spec(comment_id@, story_id@),
{
    (comment_partition(comment_id), story_sort(story_id))
}

/// Where the stories of a user are found in the primary index: the
/// partition `user#<user_id>` and the sort-key prefix `story#`.
pub fn stories_of_user_prefix(user_id: &str) -> (found: (String, String))
    ensures
        found@ == (user_tag() + user_id@, story_tag()),
{
    (user_partition(user_id), story_prefix())
}

/// Where the comments of a story are found in the inverted index: the
/// index partition `story#<story_id>` and the index sort-key prefix
/// `comment#`.
pub fn comments_of_story_prefix(story_id: &str) -> (found: (String, String))
    ensures
        found@ == (story_tag() + story_id@, comment_tag()),
{
    (story_sort(story_id), comment_prefix())
}

/// The identifier in a key: what follows the tag, whatever characters it
/// holds. A key that does not begin with the tag holds no identifier of
/// that kind; it is taken whole.
pub open spec fn identifier_spec(tag: Seq<char>, key: Seq<char>) -> Seq<char> {
    if tag.is_prefix_of(key) {
        key.subrange(tag.len() as int, key.len() as int)
    } else {
        key
    }
}

/// The identifier behind `tag` in `key`.
pub fn identifier(tag: &str, key: &str) -> (id: String)
    ensures
        id@ == identifier_spec(tag@, key@),
{
    if starts_with(key, tag) {
        String::from_str(key.substring_char(tag.unicode_len(), key.unicode_len()))
    } else {
        String::from_str(key)
    }
}

/// The user identifier in a partition key `user#<user_id>`.
pub fn user_id_of(pk: &str) -> (id: String)
    ensures
        id@ == identifier_spec(user_tag(), pk@),
{
    proof {
        reveal_strlit("user#");
    }
    assert("user#"@ =~= user_tag());
    identifier("user#", pk)
}

/// The story identifier in a sort key `story#<story_id>`.
pub fn story_id_of(sk: &str) -> (id: String)
    ensures
        id@ == identifier_spec(story_tag(), sk@),
{
    proof {
        reveal_strlit("story#");
    }
    assert("story#"@ =~= story_tag());
    identifier("story#", sk)
}

/// The comment identifier in a partition key `comment#<comment_id>`.
pub fn comment_id_of(pk: &str) -> (id: String)
    ensures
        id@ == identifier_spec(comment_tag(), pk@),
{
    proof {
        reveal_strlit("comment#");
    }
    assert("comment#"@ =~= comment_tag());
    identifier("comment#", pk)
}

/// A key gives its identifier back, whatever the identifier holds.
pub proof fn identifier_of_tagged(tag: Seq<char>, id: Seq<char>)
    ensures
        identifier_spec(tag, tag + id) == id,
{
    assert(tag =~= (tag + id).subrange(0, tag.len() as int));
    assert(id =~= (tag + id).subrange(tag.len() as int, (tag + id).len() as int));
}

/// The keys of a user, a story and a comment give back the identifiers
/// they were made from.
pub proof fn keys_give_identifiers_back(
    user_id: Seq<char>,
    story_id: Seq<char>,
    comment_id: Seq<char>,
)
    ensures
        identifier_spec(user_tag(), user_key_spec(user_id).0) == user_id,
        identifier_spec(user_tag(), story_key_spec(user_id, story_id).0) == user_id,
        identifier_spec(story_tag(), story_key_spec(user_id, story_id).1) == story_id,
        identifier_spec(comment_tag(), comment_key_spec(comment_id, story_id).0) == comment_id,
        identifier_spec(story_tag(), comment_key_spec(comment_id, story_id).1) == story_id,
{
    identifier_of_tagged(user_tag(), user_id);
    identifier_of_tagged(story_tag(), story_id);
    identifier_of_tagged(comment_tag(), comment_id);
}

/// A tag in front of two identifiers gives equal strings only for equal
/// identifiers.
pub proof fn tagged_is_injective(tag: Seq<char>, a: Seq<char>, b: Seq<char>)
    requires
        tag + a == tag + b,
    ensures
        a == b,
{
    assert(b =~= (tag + b).subrange(tag.len() as int, (tag + b).len() as int));
}

/// Distinct user identifiers have distinct user keys.
pub proof fn user_key_is_injective(a: Seq<char>, b: Seq<char>)
    requires
        a != b,
    ensures
        user_key_spec(a) != user_key_spec(b),
{
    if user_key_spec(a) == user_key_spec(b) {
        tagged_is_injective(user_tag(), a, b);
    }
}

/// Story keys that differ in the user or in the story identifier are
/// distinct.
pub proof fn story_key_is_injective(
    user_a: Seq<char>,
    story_a: Seq<char>,
    user_b: Seq<char>,
    story_b: Seq<char>,
)
    requires
        user_a != user_b || story_a != story_b,
    ensures
        story_key_spec(user_a, story_a) != story_key_spec(user_b, story_b),
{
    if story_key_spec(user_a, story_a) == story_key_spec(user_b, story_b) {
        tagged_is_injective(user_tag(), user_a, user_b);
        tagged_is_injective(story_tag(), story_a, story_b);
    }
}

/// Comment keys that differ in the comment or in the story identifier are
/// distinct.
pub proof fn comment_key_is_injective(
    comment_a: Seq<char>,
    story_a: Seq<char>,
    comment_b: Seq<char>,
    story_b: Seq<char>,
)
    requires
        comment_a != comment_b || story_a != story_b,
    ensures
        comment_key_spec(comment_a, story_a) != comment_key_spec(comment_b, story_b),
{
    if comment_key_spec(comment_a, story_a) == comment_key_spec(comment_b, story_b) {
        tagged_is_injective(comment_tag(), comment_a, comment_b);
        tagged_is_injective(story_tag(), story_a, story_b);
    }
}

/// Keys of different kinds never coincide, whatever the identifiers: a
/// user's sort key begins with `u` where a story's or comment's begins
/// with `s`, and a comment's partition key begins with `c` where a
/// story's begins with `u`.
pub proof fn key_kinds_are_disjoint(
    user_id: Seq<char>,
    story_user: Seq<char>,
    story_id: Seq<char>,
    comment_id: Seq<char>,
    comment_story: Seq<char>,
)
    ensures
        user_key_spec(user_id) != story_key_spec(story_user, story_id),
        user_key_spec(user_id) != comment_key_spec(comment_id, comment_story),
        story_key_spec(story_user, story_id) != comment_key_spec(comment_id, comment_story),
{
    assert((story_tag() + story_id)[0] == 's');
    assert((comment_tag() + comment_id)[0] == 'c');
}

} // verus!
