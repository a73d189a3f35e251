//! The storage gateway: how a request becomes a call to the table service.
//!
//! The gateway holds the table's name and writes each call out in the
//! service's terms: attribute names `PK` and `SK`, a key condition over the
//! placeholders `#pk`, `#sk`, `:pk` and `:sk`, and the index `GSI1` for the
//! inverted view. It sends nothing and retries nothing; whoever owns the
//! connection sends the call and hands back what came.

use vstd::prelude::*;
use vstd::string::StringExecFns;
use crate::item::{to_item, Item, ItemView};
use crate::model::Entity;
use crate::request::{
    Index, Query, QueryView, Reply, ReplyView, Request, RequestView, SortCondition, SortView,
};
use crate::text::{copy, optional_text};

verus! {

/// A call that stores an item.
#[derive(Debug, Clone, PartialEq, Eq)]
pub struct PutItemInput {
    pub table_name: String,
    pub item: Item,
}

/// A call that deletes the item with a key and asks for the item that was
/// there.
#[derive(Debug, Clone, PartialEq, Eq)]
pub struct DeleteItemInput {
    pub table_name: String,
    /// Attribute names with their values: `PK` and `SK`.
    pub key: Vec<(String, String)>,
    /// Always set: the deleted item's attributes are to come back.
    pub return_all_old: bool,
}

/// A call that queries the table or one of its indexes.
#[derive(Debug, Clone, PartialEq, Eq)]
pub struct QueryInput {
    pub table_name: String,
    pub key_condition_expression: String,
    /// Placeholders with the attribute names they stand for.
    pub expression_attribute_names: Vec<(String, String)>,
    /// Placeholders with the string values they stand for.
    pub expression_attribute_values: Vec<(String, String)>,
    /// The index to query; the table itself where there is none.
    pub index_name: Option<String>,
}

/// A query call as a mathematical value.
pub struct QueryInputView {
    pub table_name: Seq<char>,
    pub key_condition_expression: Seq<char>,
    pub expression_attribute_names: Seq<(Seq<char>, Seq<char>)>,
    pub expression_attribute_values: Seq<(Seq<char>, Seq<char>)>,
    pub index_name: Option<Seq<char>>,
}

impl View for QueryInput {
    type V = QueryInputView;

    open spec fn view(&self) -> QueryInputView {
        QueryInputView {
            table_name: self.table_name@,
            key_condition_expression: self.key_condition_expression@,
            expression_attribute_names: self.expression_attribute_names.deep_view(),
            expression_attribute_values: self.expression_attribute_values.deep_view(),
            index_name: optional_text(self.index_name),
        }
    }
}

/// A call to the table service.
#[derive(Debug, Clone, PartialEq, Eq)]
pub enum Call {
    PutItem(PutItemInput),
    DeleteItem(DeleteItemInput),
    Query(QueryInput),
}

/// A call as a mathematical value.
pub enum CallView {
    PutItem { table_name: Seq<char>, item: ItemView },
    DeleteItem { table_name: Seq<char>, key: Seq<(Seq<char>, Seq<char>)>, return_all_old: bool },
    Query(QueryInputView),
}

impl View for Call {
    type V = CallView;

    open spec fn view(&self) -> CallView {
        match self {
            Call::PutItem(input) => CallView::PutItem {
                table_name: input.table_name@,
                item: input.item@,
            },
            Call::DeleteItem(input) => CallView::DeleteItem {
                table_name: input.table_name@,
                key: input.key.deep_view(),
                return_all_old: input.return_all_old,
            },
            Call::Query(input) => CallView::Query(input@),
        }
    }
}

/// The query call for one partition of the table or of the inverted
/// index.
///
/// With an index the roles of the two key attributes are swapped: `#pk`
/// stands for `SK` and `#sk` for `PK`. With a sort key, `expression` is
/// the key condition and `:sk` stands for the sort key. Without one the
/// condition is `#pk = :pk` and `expression` is not used.
pub open spec fn query_single_table_spec(
    table_name: Seq<char>,
    pk: Seq<char>,
    sk: Option<Seq<char>>,
    gsi: Option<Seq<char>>,
    expression: Seq<char>,
) -> QueryInputView {
    let primary = if gsi is Some {
        "SK"@
    } else {
        "PK"@
    };
    let secondary = if gsi is Some {
        "PK"@
    } else {
        "SK"@
    };
    match sk {
        Some(sk) => QueryInputView {
            table_name,
            key_condition_expression: expression,
            expression_attribute_names: seq![("#pk"@, primary), ("#sk"@, secondary)],
            expression_attribute_values: seq![(":pk"@, pk), (":sk"@, sk)],
            index_name: gsi,
        },
        None => QueryInputView {
            table_name,
            key_condition_expression: "#pk = :pk"@,
            expression_attribute_names: seq![("#pk"@, primary)],
            expression_attribute_values: seq![(":pk"@, pk)],
            index_name: gsi,
        },
    }
}

/// The name of the index that a query goes to, if it goes to one.
pub open spec fn index_name_spec(index: Index) -> Option<Seq<char>> {
    match index {
        Index::Primary => None,
        Index::Inverted => Some("GSI1"@),
    }
}

/// The query call for a query.
pub open spec fn select_spec(table_name: Seq<char>, query: QueryView) -> QueryInputView {
    match query.sort {
        SortView::Any => query_single_table_spec(
            table_name,
            query.partition,
            None,
            index_name_spec(query.index),
            "#pk = :pk"@,
        ),
        SortView::Equals(text) => query_single_table_spec(
            table_name,
            query.partition,
            Some(text),
            index_name_spec(query.index),
            "#pk = :pk and #sk = :sk"@,
        ),
        SortView::BeginsWith(prefix) => query_single_table_spec(
            table_name,
            query.partition,
            Some(prefix),
            index_name_spec(query.index),
            "#pk = :pk and begins_with(#sk, :sk)"@,
        ),
    }
}

/// The call for a request.
pub open spec fn call_spec(table_name: Seq<char>, request: RequestView) -> CallView {
    match request {
        RequestView::Put(item) => CallView::PutItem { table_name, item },
        RequestView::Delete { pk, sk } => CallView::DeleteItem {
            table_name,
            key: seq![("PK"@, pk), ("SK"@, sk)],
            return_all_old: true,
        },
        RequestView::Query(query) => CallView::Query(select_spec(table_name, query)),
    }
}

/// The gateway to one table.
#[derive(Debug, Clone, PartialEq, Eq)]
pub struct DbClient {
    table_name: String,
}

impl View for DbClient {
    type V = Seq<char>;

    closed spec fn view(&self) -> Seq<char> {
        self.table_name@
    }
}

impl DbClient {
    /// A gateway to the table `table_name`.
    pub fn new(table_name: &str) -> (client: DbClient)
        ensures
            client@ == table_name@,
    {
        DbClient { table_name: String::from_str(table_name) }
    }

    /// The table's name.
    pub fn table_name(&self) -> (name: &String)
        ensures
            name@ == self@,
    {
        &self.table_name
    }

    /// The call that stores `item`, in place of any item with its key.
    pub fn put(&self, item: Entity) -> (input: PutItemInput)
        ensures
            input.table_name@ == self@,
            input.item@ == crate::item::encode(item@),
    {
        PutItemInput { table_name: copy(&self.table_name), item: to_item(item) }
    }

    /// The call that deletes the item with the keys `pk` and `sk` and asks
    /// for what was there.
    pub fn delete(&self, pk: String, sk: String) -> (input: DeleteItemInput)
        ensures
            input.table_name@ == self@,
            input.key.deep_view() == seq![("PK"@, pk@), ("SK"@, sk@)],
            input.return_all_old,
    {
        let mut key: Vec<(String, String)> = Vec::new();
        key.push((String::from_str("PK"), pk));
        key.push((String::from_str("SK"), sk));
        DeleteItemInput { table_name: copy(&self.table_name), key, return_all_old: true }
    }

    /// The query call with the given condition, placeholders and index.
    pub fn query(
        &self,
        key_condition_expression: &str,
        expression_attribute_names: Vec<(String, String)>,
        expression_attribute_values: Vec<(String, String)>,
        gsi: Option<String>,
    ) -> (input: QueryInput)
        ensures
            input@ == (QueryInputView {
                table_name: self@,
                key_condition_expression: key_condition_expression@,
                expression_attribute_names: expression_attribute_names.deep_view(),
                expression_attribute_values: expression_attribute_values.deep_view(),
                index_name: optional_text(gsi),
            }),
    {
        QueryInput {
            table_name: copy(&self.table_name),
            key_condition_expression: String::from_str(key_condition_expression),
            expression_attribute_names,
            expression_attribute_values,
            index_name: gsi,
        }
    }

    /// The query call for the partition `pk` of the table, or of the index
    /// `gsi`, with `expression` as the condition where a sort key is
    /// given.
    pub fn query_single_table(
        &self,
        pk: String,
        sk: Option<String>,
        gsi: Option<String>,
        expression: &str,
    ) -> (input: QueryInput)
        ensures
            input@ == query_single_table_spec(
                self@,
                pk@,
                optional_text(sk),
                optional_text(gsi),
                expression@,
            ),
    {
        let (primary_index, secondary_index) = match gsi {
            Some(_) => ("SK", "PK"),
            None => ("PK", "SK"),
        };
        let mut names: Vec<(String, String)> = Vec::new();
        let mut values: Vec<(String, String)> = Vec::new();
        match sk {
            Some(sk) => {
                let ghost shown_names = seq![("#pk"@, primary_index@), ("#sk"@, secondary_index@)];
                let ghost shown_values = seq![(":pk"@, pk@), (":sk"@, sk@)];
                names.push((String::from_str("#pk"), String::from_str(primary_index)));
                names.push((String::from_str("#sk"), String::from_str(secondary_index)));
                values.push((String::from_str(":pk"), pk));
                values.push((String::from_str(":sk"), sk));
                assert(names.deep_view() =~= shown_names);
                assert(values.deep_view() =~= shown_values);
                self.query(expression, names, values, gsi)
            },
            None => {
                let ghost shown_names = seq![("#pk"@, primary_index@)];
                let ghost shown_values = seq![(":pk"@, pk@)];
                names.push((String::from_str("#pk"), String::from_str(primary_index)));
                values.push((String::from_str(":pk"), pk));
                assert(names.deep_view() =~= shown_names);
                assert(values.deep_view() =~= shown_values);
                self.query("#pk = :pk", names, values, gsi)
            },
        }
    }

    /// The query call for `query`.
    pub fn select(&self, query: Query) -> (input: QueryInput)
        ensures
            input@ == select_spec(self@, query@),
    {
        let gsi = match query.index {
            Index::Primary => None,
            Index::Inverted => Some(String::from_str("GSI1")),
        };
        match query.sort {
            SortCondition::Any => self.query_single_table(query.partition, None, gsi, "#pk = :pk"),
            SortCondition::Equals(text) => self.query_single_table(
                query.partition,
                Some(text),
                gsi,
                "#pk = :pk and #sk = :sk",
            ),
            SortCondition::BeginsWith(prefix) => self.query_single_table(
                query.partition,
                Some(prefix),
                gsi,
                "#pk = :pk and begins_with(#sk, :sk)",
            ),
        }
    }

    /// The call for `request`.
    pub fn call(&self, request: Request) -> (call: Call)
        ensures
            call@ == call_spec(self@, request@),
    {
        match request {
            Request::Put(item) => Call::PutItem(
                PutItemInput { table_name: copy(&self.table_name), item },
            ),
            Request::Delete { pk, sk } => Call::DeleteItem(self.delete(pk, sk)),
            Request::Query(query) => Call::Query(self.select(query)),
        }
    }
}

/// The reply that a query's output amounts to: its items, or none where
/// the service sent no list.
pub fn items_reply(items: Option<Vec<Item>>) -> (reply: Reply)
    ensures
        reply@ == ReplyView::Items(
            match items {
                Some(found) => found.deep_view(),
                None => Seq::empty(),
            },
        ),
{
    match items {
        Some(found) => Reply::Items(found),
        None => {
            let found: Vec<Item> = Vec::new();
            assert(found.deep_view() =~= Seq::<ItemView>::empty());
            Reply::Items(found)
        },
    }
}

} // verus!
