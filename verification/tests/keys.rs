use api_fn::keys::{
    comment_id_of, comment_key, comment_partition, comment_prefix, comments_of_story_prefix,
    identifier, stories_of_user_prefix, story_id_of, story_key, story_prefix, story_sort,
    user_id_of, user_key, user_partition, user_prefix,
};

fn pair(pk: &str, sk: &str) -> (String, String) {
    (pk.to_string(), sk.to_string())
}

#[test]
fn user_key_has_the_same_partition_and_sort_key() {
    assert_eq!(user_key("alice"), pair("user#alice", "user#alice"));
}

#[test]
fn story_key_joins_user_and_story() {
    assert_eq!(story_key("alice", "s1"), pair("user#alice", "story#s1"));
}

#[test]
fn comment_key_joins_comment_and_story() {
    assert_eq!(comment_key("c1", "s1"), pair("comment#c1", "story#s1"));
}

#[test]
fn prefixes_name_partition_and_sort_prefix() {
    assert_eq!(stories_of_user_prefix("alice"), pair("user#alice", "story#"));
    assert_eq!(comments_of_story_prefix("s1"), pair("story#s1", "comment#"));
}

#[test]
fn tags_end_in_a_hash() {
    assert_eq!(user_prefix(), "user#");
    assert_eq!(story_prefix(), "story#");
    assert_eq!(comment_prefix(), "comment#");
}

#[test]
fn parts_of_keys() {
    assert_eq!(user_partition("bob"), "user#bob");
    assert_eq!(story_sort("42"), "story#42");
    assert_eq!(comment_partition("7"), "comment#7");
}

#[test]
fn empty_and_odd_identifiers_are_taken_as_they_are() {
    assert_eq!(user_key(""), pair("user#", "user#"));
    assert_eq!(story_key("a#b", "x y"), pair("user#a#b", "story#x y"));
    assert_eq!(comment_key("ü", "ß"), pair("comment#ü", "story#ß"));
}

#[test]
fn distinct_ids_give_distinct_keys() {
    assert_ne!(user_key("alice"), user_key("bob"));
    assert_ne!(user_key("a"), user_key("a "));
    assert_ne!(story_key("alice", "s1"), story_key("alice", "s2"));
    assert_ne!(story_key("alice", "s1"), story_key("bob", "s1"));
    assert_ne!(comment_key("c1", "s1"), comment_key("c2", "s1"));
    assert_ne!(comment_key("c1", "s1"), comment_key("c1", "s2"));
}

#[test]
fn keys_of_different_kinds_never_collide() {
    assert_ne!(user_key("x"), story_key("x", "x"));
    assert_ne!(user_key("x"), comment_key("x", "x"));
    assert_ne!(story_key("x", "x"), comment_key("x", "x"));
    assert_ne!(user_key("story#x"), story_key("story#x", "x"));
}

#[test]
fn the_identifier_is_the_key_without_its_tag() {
    assert_eq!(user_id_of("user#alice"), "alice");
    assert_eq!(story_id_of("story#s1"), "s1");
    assert_eq!(comment_id_of("comment#c1"), "c1");
    assert_eq!(identifier("story#", "story#s1"), "s1");
    assert_eq!(user_id_of("user#"), "");
}

#[test]
fn a_hash_in_an_identifier_does_not_cut_it() {
    assert_eq!(user_id_of("user#a#b"), "a#b");
    assert_eq!(story_id_of("story#story#x"), "story#x");
    assert_eq!(comment_id_of("comment###"), "##");
    assert_eq!(story_id_of("story#ü#ß"), "ü#ß");
}

#[test]
fn a_key_without_the_tag_is_taken_whole() {
    assert_eq!(user_id_of("story#s1"), "story#s1");
    assert_eq!(story_id_of("stor"), "stor");
    assert_eq!(comment_id_of(""), "");
    assert_eq!(identifier("user#", "USER#a"), "USER#a");
}

#[test]
fn keys_give_their_identifiers_back() {
    for id in ["alice", "", "a#b", "#", "user#x", "ü", "a b"] {
        let (pk, sk) = user_key(id);
        assert_eq!(user_id_of(&pk), id);
        assert_eq!(user_id_of(&sk), id);
        let (pk, sk) = story_key(id, id);
        assert_eq!(user_id_of(&pk), id);
        assert_eq!(story_id_of(&sk), id);
        let (pk, sk) = comment_key(id, id);
        assert_eq!(comment_id_of(&pk), id);
        assert_eq!(story_id_of(&sk), id);
    }
}
