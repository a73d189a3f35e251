//! What the data-access layer asks of the table, and what the table
//! answers: put one item, delete one key, or query one partition of the
//! primary or the inverted index.

use vstd::prelude::*;
use crate::item::{Item, ItemView};
use crate::text::{copy, starts_with};

verus! {

/// The two ways into the table. In the primary index an item is found under
/// its partition key and ordered by its sort key; the inverted index swaps
/// the two roles.
#[derive(Debug, Clone, Copy, PartialEq, Eq)]
pub enum Index {
    Primary,
    Inverted,
}

/// A condition on the sort key of an index.
#[derive(Debug, Clone, PartialEq, Eq)]
pub enum SortCondition {
    Any,
    Equals(String),
    BeginsWith(String),
}

/// A sort-key condition as a mathematical value.
pub enum SortView {
    Any,
    Equals(Seq<char>),
    BeginsWith(Seq<char>),
}

impl View for SortCondition {
    type V = SortView;

    open spec fn view(&self) -> SortView {
        match self {
            SortCondition::Any => SortView::Any,
            SortCondition::Equals(text) => SortView::Equals(text@),
            SortCondition::BeginsWith(text) => SortView::BeginsWith(text@),
        }
    }
}

/// A query: the items of one partition of an index whose sort key meets a
/// condition.
#[derive(Debug, Clone, PartialEq, Eq)]
pub struct Query {
    pub partition: String,
    pub sort: SortCondition,
    pub index: Index,
}

/// A query as a mathematical value.
pub struct QueryView {
    pub partition: Seq<char>,
    pub sort: SortView,
    pub index: Index,
}

impl View for Query {
    type V = QueryView;

    open spec fn view(&self) -> QueryView {
        QueryView { partition: self.partition@, sort: self.sort@, index: self.index }
    }
}

/// A request to the table.
#[derive(Debug, Clone, PartialEq, Eq)]
pub enum Request {
    /// Store the item, in place of any item with the same keys.
    Put(Item),
    /// Remove the item with these keys, if there is one, and report it.
    Delete { pk: String, sk: String },
    /// Report the items that the query selects.
    Query(Query),
}

/// A request as a mathematical value.
pub enum RequestView {
    Put(ItemView),
    Delete { pk: Seq<char>, sk: Seq<char> },
    Query(QueryView),
}

impl View for Request {
    type V = RequestView;

    open spec fn view(&self) -> RequestView {
        match self {
            Request::Put(item) => RequestView::Put(item@),
            Request::Delete { pk, sk } => RequestView::Delete { pk: pk@, sk: sk@ },
            Request::Query(query) => RequestView::Query(query@),
        }
    }
}

/// The table's answer to a request.
#[derive(Debug, Clone, PartialEq, Eq)]
pub enum Reply {
    /// The item of a put is stored.
    Stored,
    /// The key of a delete is gone; with it comes the item that was there,
    /// if one was.
    Removed(Option<Item>),
    /// The items that a query selected.
    Items(Vec<Item>),
    /// The table could not be reached or refused the request.
    Failed(String),
}

/// A reply as a mathematical value.
pub enum ReplyView {
    Stored,
    Removed(Option<ItemView>),
    Items(Seq<ItemView>),
    Failed(Seq<char>),
}

/// An optional item as a mathematical value.
pub open spec fn optional_item(item: Option<Item>) -> Option<ItemView> {
    match item {
        Some(i) => Some(i@),
        None => None,
    }
}

impl View for Reply {
    type V = ReplyView;

    open spec fn view(&self) -> ReplyView {
        match self {
            Reply::Stored => ReplyView::Stored,
            Reply::Removed(item) => ReplyView::Removed(optional_item(*item)),
            Reply::Items(items) => ReplyView::Items(items.deep_view()),
            Reply::Failed(cause) => ReplyView::Failed(cause@),
        }
    }
}

/// The key of `item` that names its partition in `index`.
pub open spec fn partition_in(index: Index, item: ItemView) -> Seq<char> {
    match index {
        Index::Primary => item.pk,
        Index::Inverted => item.sk,
    }
}

/// The key of `item` that orders it within its partition of `index`.
pub open spec fn sort_in(index: Index, item: ItemView) -> Seq<char> {
    match index {
        Index::Primary => item.sk,
        Index::Inverted => item.pk,
    }
}

/// Whether a sort key meets a condition.
pub open spec fn sort_admits(sort: SortView, key: Seq<char>) -> bool {
    match sort {
        SortView::Any => true,
        SortView::Equals(text) => key == text,
        SortView::BeginsWith(prefix) => prefix.is_prefix_of(key),
    }
}

/// Whether a query selects an item.
pub open spec fn selects(query: QueryView, item: ItemView) -> bool {
    partition_in(query.index, item) == query.partition && sort_admits(
        query.sort,
        sort_in(query.index, item),
    )
}

impl Query {
    /// Whether the query selects `item`.
    pub fn admits(&self, item: &Item) -> (hit: bool)
        ensures
            hit == selects(self@, item@),
    {
        let (partition, sort) = match self.index {
            Index::Primary => (&item.pk, &item.sk),
            Index::Inverted => (&item.sk, &item.pk),
        };
        if !(*partition == self.partition) {
            return false;
        }
        match &self.sort {
            SortCondition::Any => true,
            SortCondition::Equals(text) => *sort == *text,
            SortCondition::BeginsWith(prefix) => starts_with(sort.as_str(), prefix.as_str()),
        }
    }

    /// A copy of the query.
    pub fn duplicate(&self) -> (out: Query)
        ensures
            out@ == self@,
    {
        let sort = match &self.sort {
            SortCondition::Any => SortCondition::Any,
            SortCondition::Equals(text) => SortCondition::Equals(copy(text)),
            SortCondition::BeginsWith(prefix) => SortCondition::BeginsWith(copy(prefix)),
        };
        Query { partition: copy(&self.partition), sort, index: self.index }
    }
}

} // verus!
