use api_fn::item::{to_item, Item};
use api_fn::model::Entity;
use api_fn::request::{Index, Query, Reply, Request, SortCondition};
use api_fn::table::Table;

fn text(s: &str) -> String {
    s.to_string()
}

fn user(id: &str, password: &str) -> Item {
    to_item(Entity::new_user(id, text(password)))
}

fn story(user_id: &str, id: &str, content: &str) -> Item {
    to_item(Entity::story(user_id, id, text(content)))
}

fn comment(id: &str, story_id: &str, user_id: &str, content: &str) -> Item {
    to_item(Entity::comment(id, story_id, text(user_id), text(content)))
}

fn filled() -> Table {
    let mut table = Table::new();
    table.put(user("alice", "pw1"));
    table.put(story("alice", "s1", "one"));
    table.put(story("alice", "s2", "two"));
    table.put(user("bob", "pw2"));
    table.put(story("bob", "s3", "three"));
    table.put(comment("c1", "s1", "bob", "nice"));
    table.put(comment("c2", "s1", "alice", "thanks"));
    table.put(comment("c3", "s3", "alice", "hm"));
    table
}

fn query(partition: &str, sort: SortCondition, index: Index) -> Query {
    Query { partition: text(partition), sort, index }
}

#[test]
fn a_new_table_is_empty() {
    let table = Table::new();
    assert_eq!(table.len(), 0);
    assert_eq!(table.scan(), vec![]);
    table.keys_unique();
}

#[test]
fn put_is_an_upsert() {
    let mut table = Table::new();
    table.put(user("alice", "pw1"));
    table.put(user("bob", "pw2"));
    assert_eq!(table.len(), 2);
    table.put(user("alice", "changed"));
    assert_eq!(table.len(), 2);
    assert_eq!(table.scan(), vec![user("bob", "pw2"), user("alice", "changed")]);
}

#[test]
fn delete_returns_what_was_there() {
    let mut table = filled();
    let previous = table.delete(&text("user#alice"), &text("story#s1"));
    assert_eq!(previous, Some(story("alice", "s1", "one")));
    assert_eq!(table.len(), 7);
}

#[test]
fn deleting_twice_succeeds_and_the_second_reports_nothing() {
    let mut table = filled();
    let first = table.delete(&text("comment#c1"), &text("story#s1"));
    assert_eq!(first, Some(comment("c1", "s1", "bob", "nice")));
    let after_first = table.scan();
    let second = table.delete(&text("comment#c1"), &text("story#s1"));
    assert_eq!(second, None);
    assert_eq!(table.scan(), after_first);

    let first = table.perform(Request::Delete { pk: text("user#bob"), sk: text("user#bob") });
    assert_eq!(first, Reply::Removed(Some(user("bob", "pw2"))));
    let second = table.perform(Request::Delete { pk: text("user#bob"), sk: text("user#bob") });
    assert_eq!(second, Reply::Removed(None));
}

#[test]
fn deleting_a_missing_key_changes_nothing() {
    let mut table = filled();
    let before = table.scan();
    assert_eq!(table.delete(&text("user#carol"), &text("user#carol")), None);
    assert_eq!(table.delete(&text("user#alice"), &text("story#nope")), None);
    assert_eq!(table.scan(), before);
}

#[test]
fn primary_query_by_sort_prefix() {
    let table = filled();
    let found = table.query(&query(
        "user#alice",
        SortCondition::BeginsWith(text("story#")),
        Index::Primary,
    ));
    assert_eq!(found, vec![story("alice", "s1", "one"), story("alice", "s2", "two")]);
}

#[test]
fn primary_query_of_a_whole_partition() {
    let table = filled();
    let found = table.query(&query("user#alice", SortCondition::Any, Index::Primary));
    assert_eq!(
        found,
        vec![user("alice", "pw1"), story("alice", "s1", "one"), story("alice", "s2", "two")]
    );
}

#[test]
fn primary_query_by_sort_key() {
    let table = filled();
    let found = table.query(&query(
        "user#alice",
        SortCondition::Equals(text("story#s2")),
        Index::Primary,
    ));
    assert_eq!(found, vec![story("alice", "s2", "two")]);
}

#[test]
fn inverted_query_finds_the_comments_of_a_story() {
    let table = filled();
    let found = table.query(&query(
        "story#s1",
        SortCondition::BeginsWith(text("comment#")),
        Index::Inverted,
    ));
    assert_eq!(
        found,
        vec![comment("c1", "s1", "bob", "nice"), comment("c2", "s1", "alice", "thanks")]
    );
}

#[test]
fn inverted_query_without_a_condition_finds_the_story_too() {
    let table = filled();
    let found = table.query(&query("story#s3", SortCondition::Any, Index::Inverted));
    assert_eq!(found, vec![story("bob", "s3", "three"), comment("c3", "s3", "alice", "hm")]);
}

#[test]
fn a_query_that_matches_nothing_is_empty() {
    let table = filled();
    assert_eq!(
        table.query(&query("user#carol", SortCondition::Any, Index::Primary)),
        vec![]
    );
    assert_eq!(
        table.query(&query(
            "story#s2",
            SortCondition::BeginsWith(text("comment#")),
            Index::Inverted
        )),
        vec![]
    );
    assert_eq!(
        Table::new().query(&query("user#alice", SortCondition::Any, Index::Primary)),
        vec![]
    );
}

#[test]
fn perform_answers_each_kind_of_request() {
    let mut table = Table::new();
    assert_eq!(table.perform(Request::Put(user("alice", "pw1"))), Reply::Stored);
    assert_eq!(
        table.perform(Request::Query(query("user#alice", SortCondition::Any, Index::Primary))),
        Reply::Items(vec![user("alice", "pw1")])
    );
    assert_eq!(
        table.perform(Request::Delete { pk: text("user#alice"), sk: text("user#alice") }),
        Reply::Removed(Some(user("alice", "pw1")))
    );
    assert_eq!(table.len(), 0);
}

#[test]
fn query_admits_by_index_and_condition() {
    let item = comment("c1", "s1", "bob", "nice");
    assert!(query("comment#c1", SortCondition::Any, Index::Primary).admits(&item));
    assert!(query("story#s1", SortCondition::Any, Index::Inverted).admits(&item));
    assert!(!query("story#s1", SortCondition::Any, Index::Primary).admits(&item));
    assert!(query("story#s1", SortCondition::Equals(text("comment#c1")), Index::Inverted)
        .admits(&item));
    assert!(!query("story#s1", SortCondition::Equals(text("comment#")), Index::Inverted)
        .admits(&item));
    let q = query("story#s1", SortCondition::BeginsWith(text("comment#")), Index::Inverted);
    assert!(q.admits(&item));
    assert_eq!(q.duplicate(), q);
}
