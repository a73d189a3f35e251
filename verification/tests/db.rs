use api_fn::db::{items_reply, Call, DbClient, DeleteItemInput, PutItemInput, QueryInput};
use api_fn::item::to_item;
use api_fn::model::Entity;
use api_fn::request::{Index, Query, Reply, Request, SortCondition};

fn text(s: &str) -> String {
    s.to_string()
}

fn pairs(given: &[(&str, &str)]) -> Vec<(String, String)> {
    given.iter().map(|(name, value)| (text(name), text(value))).collect()
}

#[test]
fn the_client_keeps_the_table_name() {
    let client = DbClient::new("social-network");
    assert_eq!(client.table_name(), "social-network");
}

#[test]
fn put_stores_the_encoded_entity() {
    let client = DbClient::new("social-network");
    let entity = Entity::story("alice", "s1", text("hello"));
    assert_eq!(
        client.put(entity.clone()),
        PutItemInput { table_name: text("social-network"), item: to_item(entity) }
    );
}

#[test]
fn delete_names_both_keys_and_asks_for_the_old_item() {
    let client = DbClient::new("social-network");
    assert_eq!(
        client.delete(text("user#alice"), text("story#s1")),
        DeleteItemInput {
            table_name: text("social-network"),
            key: pairs(&[("PK", "user#alice"), ("SK", "story#s1")]),
            return_all_old: true,
        }
    );
}

#[test]
fn query_passes_its_arguments_on() {
    let client = DbClient::new("t");
    let input = client.query(
        "#sk = :sk",
        pairs(&[("#sk", "SK")]),
        pairs(&[(":sk", "story#s1")]),
        Some(text("GSI1")),
    );
    assert_eq!(
        input,
        QueryInput {
            table_name: text("t"),
            key_condition_expression: text("#sk = :sk"),
            expression_attribute_names: pairs(&[("#sk", "SK")]),
            expression_attribute_values: pairs(&[(":sk", "story#s1")]),
            index_name: Some(text("GSI1")),
        }
    );
}

#[test]
fn single_table_query_on_the_table_with_a_sort_key() {
    let client = DbClient::new("t");
    let input = client.query_single_table(
        text("user#alice"),
        Some(text("story#")),
        None,
        "#pk = :pk and begins_with(#sk, :sk)",
    );
    assert_eq!(
        input,
        QueryInput {
            table_name: text("t"),
            key_condition_expression: text("#pk = :pk and begins_with(#sk, :sk)"),
            expression_attribute_names: pairs(&[("#pk", "PK"), ("#sk", "SK")]),
            expression_attribute_values: pairs(&[(":pk", "user#alice"), (":sk", "story#")]),
            index_name: None,
        }
    );
}

#[test]
fn single_table_query_on_the_index_swaps_the_attributes() {
    let client = DbClient::new("t");
    let input = client.query_single_table(
        text("story#s1"),
        Some(text("comment#c1")),
        Some(text("GSI1")),
        "#pk = :pk and #sk = :sk",
    );
    assert_eq!(
        input,
        QueryInput {
            table_name: text("t"),
            key_condition_expression: text("#pk = :pk and #sk = :sk"),
            expression_attribute_names: pairs(&[("#pk", "SK"), ("#sk", "PK")]),
            expression_attribute_values: pairs(&[(":pk", "story#s1"), (":sk", "comment#c1")]),
            index_name: Some(text("GSI1")),
        }
    );
}

#[test]
fn single_table_query_without_a_sort_key_ignores_the_expression() {
    let client = DbClient::new("t");
    let input =
        client.query_single_table(text("story#s1"), None, Some(text("GSI1")), "not used");
    assert_eq!(
        input,
        QueryInput {
            table_name: text("t"),
            key_condition_expression: text("#pk = :pk"),
            expression_attribute_names: pairs(&[("#pk", "SK")]),
            expression_attribute_values: pairs(&[(":pk", "story#s1")]),
            index_name: Some(text("GSI1")),
        }
    );
    let input = client.query_single_table(text("user#alice"), None, None, "not used");
    assert_eq!(input.expression_attribute_names, pairs(&[("#pk", "PK")]));
    assert_eq!(input.index_name, None);
}

#[test]
fn select_writes_each_condition_out() {
    let client = DbClient::new("t");
    let any = client.select(Query {
        partition: text("user#alice"),
        sort: SortCondition::Any,
        index: Index::Primary,
    });
    assert_eq!(any.key_condition_expression, "#pk = :pk");
    assert_eq!(any.expression_attribute_values, pairs(&[(":pk", "user#alice")]));
    assert_eq!(any.index_name, None);

    let equals = client.select(Query {
        partition: text("user#alice"),
        sort: SortCondition::Equals(text("story#s1")),
        index: Index::Primary,
    });
    assert_eq!(equals.key_condition_expression, "#pk = :pk and #sk = :sk");
    assert_eq!(
        equals.expression_attribute_values,
        pairs(&[(":pk", "user#alice"), (":sk", "story#s1")])
    );

    let begins = client.select(Query {
        partition: text("story#s1"),
        sort: SortCondition::BeginsWith(text("comment#")),
        index: Index::Inverted,
    });
    assert_eq!(begins.key_condition_expression, "#pk = :pk and begins_with(#sk, :sk)");
    assert_eq!(begins.expression_attribute_names, pairs(&[("#pk", "SK"), ("#sk", "PK")]));
    assert_eq!(
        begins.expression_attribute_values,
        pairs(&[(":pk", "story#s1"), (":sk", "comment#")])
    );
    assert_eq!(begins.index_name, Some(text("GSI1")));
}

#[test]
fn call_covers_every_request() {
    let client = DbClient::new("t");
    let item = to_item(Entity::new_user("alice", text("pw1")));
    assert_eq!(
        client.call(Request::Put(item.clone())),
        Call::PutItem(PutItemInput { table_name: text("t"), item })
    );
    assert_eq!(
        client.call(Request::Delete { pk: text("a"), sk: text("b") }),
        Call::DeleteItem(client.delete(text("a"), text("b")))
    );
    let query = Query {
        partition: text("user#alice"),
        sort: SortCondition::BeginsWith(text("story#")),
        index: Index::Primary,
    };
    assert_eq!(client.call(Request::Query(query.clone())), Call::Query(client.select(query)));
}

#[test]
fn a_missing_list_of_items_is_an_empty_one() {
    assert_eq!(items_reply(None), Reply::Items(vec![]));
    let item = to_item(Entity::new_user("alice", text("pw1")));
    assert_eq!(items_reply(Some(vec![item.clone()])), Reply::Items(vec![item]));
}
