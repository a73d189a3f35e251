//! The table as a value: an in-memory store with the semantics that the
//! data-access layer expects of the real one. A put replaces, a delete of a
//! missing key succeeds and reports nothing, and a query that selects
//! nothing reports an empty sequence. No request fails.

use vstd::prelude::*;
use crate::item::{Item, ItemView};
use crate::request::{
    optional_item, selects, Query, QueryView, Reply, ReplyView, Request, RequestView,
};

verus! {

/// No two items share both keys.
pub open spec fn unique_keys(items: Seq<ItemView>) -> bool {
    forall|i: int, j: int|
        0 <= i < items.len() && 0 <= j < items.len() && i != j ==> (#[trigger] items[i]).key() != (
        #[trigger] items[j]).key()
}

/// The test that an item has the key `key`.
pub open spec fn keyed(key: (Seq<char>, Seq<char>)) -> spec_fn(ItemView) -> bool {
    |item: ItemView| item.key() == key
}

/// The test that an item has another key than `key`.
pub open spec fn not_keyed(key: (Seq<char>, Seq<char>)) -> spec_fn(ItemView) -> bool {
    |item: ItemView| item.key() != key
}

/// The test that `query` selects an item.
pub open spec fn selected(query: QueryView) -> spec_fn(ItemView) -> bool {
    |item: ItemView| selects(query, item)
}

/// The item stored under `key`, if there is one.
pub open spec fn stored(items: Seq<ItemView>, key: (Seq<char>, Seq<char>)) -> Option<ItemView> {
    let hits = items.filter(keyed(key));
    if hits.len() > 0 {
        Some(hits[0])
    } else {
        None
    }
}

/// The items without the one stored under `key`.
pub open spec fn without(items: Seq<ItemView>, key: (Seq<char>, Seq<char>)) -> Seq<ItemView> {
    items.filter(not_keyed(key))
}

/// The items after a put of `item`: what was stored under its key is gone,
/// and `item` is there.
pub open spec fn put_spec(items: Seq<ItemView>, item: ItemView) -> Seq<ItemView> {
    without(items, item.key()).push(item)
}

/// The items that `query` selects, in the order of the table.
pub open spec fn query_spec(items: Seq<ItemView>, query: QueryView) -> Seq<ItemView> {
    items.filter(selected(query))
}

/// The table after a request, and its reply.
pub open spec fn perform_spec(items: Seq<ItemView>, request: RequestView) -> (
    Seq<ItemView>,
    ReplyView,
) {
    match request {
        RequestView::Put(item) => (put_spec(items, item), ReplyView::Stored),
        RequestView::Delete { pk, sk } => (
            without(items, (pk, sk)),
            ReplyView::Removed(stored(items, (pk, sk))),
        ),
        RequestView::Query(query) => (items, ReplyView::Items(query_spec(items, query))),
    }
}

/// An item is among the filtered ones exactly if it is among the given ones
/// and passes the test.
pub proof fn filter_membership(
    items: Seq<ItemView>,
    test: spec_fn(ItemView) -> bool,
    item: ItemView,
)
    ensures
        items.filter(test).contains(item) <==> items.contains(item) && test(item),
    decreases items.len(),
{
    reveal(Seq::filter);
    if items.len() > 0 {
        let front = items.drop_last();
        filter_membership(front, test, item);
    }
}

/// Filtering keeps the keys unique.
pub proof fn filter_keeps_unique(items: Seq<ItemView>, test: spec_fn(ItemView) -> bool)
    requires
        unique_keys(items),
    ensures
        unique_keys(items.filter(test)),
    decreases items.len(),
{
    reveal(Seq::filter);
    if items.len() > 0 {
        let front = items.drop_last();
        let last = items.last();
        filter_keeps_unique(front, test);
        let kept = front.filter(test);
        let out = items.filter(test);
        if test(last) {
            assert forall|i: int, j: int|
                0 <= i < out.len() && 0 <= j < out.len() && i != j implies (#[trigger] out[i]).key()
                != (#[trigger] out[j]).key() by {
                if i >= kept.len() || j >= kept.len() {
                    let k = if i < kept.len() {
                        i
                    } else {
                        j
                    };
                    filter_membership(front, test, kept[k]);
                }
            }
        }
    }
}

/// A filter that every item passes changes nothing.
pub proof fn filter_of_all(items: Seq<ItemView>, test: spec_fn(ItemView) -> bool)
    requires
        forall|i: int| 0 <= i < items.len() ==> test(#[trigger] items[i]),
    ensures
        items.filter(test) == items,
    decreases items.len(),
{
    reveal(Seq::filter);
    if items.len() > 0 {
        let front = items.drop_last();
        filter_of_all(front, test);
    }
}

/// A filter that no item passes leaves nothing.
pub proof fn filter_of_none(items: Seq<ItemView>, test: spec_fn(ItemView) -> bool)
    requires
        forall|i: int| 0 <= i < items.len() ==> !test(#[trigger] items[i]),
    ensures
        items.filter(test).len() == 0,
    decreases items.len(),
{
    reveal(Seq::filter);
    if items.len() > 0 {
        let front = items.drop_last();
        filter_of_none(front, test);
    }
}

/// Where the keys are unique and the item at `at` has the key `key`,
/// removing the key removes that item and no other, and that item is the
/// one stored under the key.
pub proof fn without_removes_one(items: Seq<ItemView>, key: (Seq<char>, Seq<char>), at: int)
    requires
        unique_keys(items),
        0 <= at < items.len(),
        items[at].key() == key,
    ensures
        without(items, key) == items.remove(at),
        stored(items, key) == Some(items[at]),
    decreases items.len(),
{
    reveal(Seq::filter);
    let front = items.drop_last();
    if at == items.len() - 1 {
        filter_of_all(front, not_keyed(key));
        filter_of_none(front, keyed(key));
    } else {
        without_removes_one(front, key, at);
    }
}

/// Where no item has the key `key`, removing the key changes nothing and
/// nothing is stored under it.
pub proof fn without_absent(items: Seq<ItemView>, key: (Seq<char>, Seq<char>))
    requires
        forall|i: int| 0 <= i < items.len() ==> (#[trigger] items[i]).key() != key,
    ensures
        without(items, key) == items,
        stored(items, key) is None,
{
    filter_of_all(items, not_keyed(key));
    filter_of_none(items, keyed(key));
}

/// After a key is removed no item has it.
pub proof fn without_has_no_key(items: Seq<ItemView>, key: (Seq<char>, Seq<char>))
    ensures
        forall|i: int|
            0 <= i < without(items, key).len() ==> (#[trigger] without(items, key)[i]).key() != key,
{
}

/// Deleting the same key twice succeeds both times; the second delete
/// reports no previous item and leaves the table as the first left it.
pub proof fn delete_is_idempotent(items: Seq<ItemView>, pk: Seq<char>, sk: Seq<char>)
    ensures
        ({
            let request = RequestView::Delete { pk, sk };
            let first = perform_spec(items, request);
            let second = perform_spec(first.0, request);
            &&& first.1 is Removed
            &&& second.1 == ReplyView::Removed(None)
            &&& second.0 == first.0
        }),
{
    without_has_no_key(items, (pk, sk));
    without_absent(without(items, (pk, sk)), (pk, sk));
}

/// A put keeps the keys unique, and afterwards the item is the one stored
/// under its key.
pub proof fn put_keeps_unique(items: Seq<ItemView>, item: ItemView)
    requires
        unique_keys(items),
    ensures
        unique_keys(put_spec(items, item)),
        stored(put_spec(items, item), item.key()) == Some(item),
{
    let rest = without(items, item.key());
    filter_keeps_unique(items, not_keyed(item.key()));
    without_has_no_key(items, item.key());
    let out = put_spec(items, item);
    without_removes_one(out, item.key(), rest.len() as int);
}

/// The in-memory table.
#[derive(Debug)]
pub struct Table {
    items: Vec<Item>,
}

impl View for Table {
    type V = Seq<ItemView>;

    closed spec fn view(&self) -> Seq<ItemView> {
        self.items.deep_view()
    }
}

impl Table {
    #[verifier::type_invariant]
    spec fn keys_are_unique(&self) -> bool {
        unique_keys(self.items.deep_view())
    }

    /// An empty table.
    pub fn new() -> (table: Table)
        ensures
            table@ == Seq::<ItemView>::empty(),
    {
        Table { items: Vec::new() }
    }

    /// Does nothing when run; to a caller's proof it shows that the keys
    /// of a table are unique.
    pub fn keys_unique(&self)
        ensures
            unique_keys(self@),
    {
        proof {
            use_type_invariant(self);
        }
    }

    /// The number of items.
    pub fn len(&self) -> (count: usize)
        ensures
            count == self@.len(),
    {
        self.items.len()
    }

    /// Where the item with the keys `pk` and `sk` is, if there is one.
    fn position(&self, pk: &String, sk: &String) -> (at: Option<usize>)
        ensures
            match at {
                Some(i) => i < self@.len() && self@[i as int].key() == (pk@, sk@),
                None => forall|i: int| 0 <= i < self@.len() ==> (#[trigger] self@[i]).key() != (
                    pk@,
                    sk@,
                ),
            },
    {
        let mut at: usize = 0;
        while at < self.items.len()
            invariant
                at <= self.items.len(),
                forall|i: int| 0 <= i < at ==> (#[trigger] self.items.deep_view()[i]).key() != (pk@, sk@),
            decreases self.items.len() - at,
        {
            if self.items[at].pk == *pk && self.items[at].sk == *sk {
                return Some(at);
            }
            at = at + 1;
        }
        None
    }

    /// Removes the item with the keys `pk` and `sk` and returns it; where
    /// there is none, nothing changes and nothing is returned.
    pub fn delete(&mut self, pk: &String, sk: &String) -> (previous: Option<Item>)
        ensures
            final(self)@ == without(old(self)@, (pk@, sk@)),
            optional_item(previous) == stored(old(self)@, (pk@, sk@)),
    {
        proof {
            use_type_invariant(&*self);
        }
        match self.position(pk, sk) {
            Some(at) => {
                proof {
                    without_removes_one(self@, (pk@, sk@), at as int);
                    filter_keeps_unique(self@, not_keyed((pk@, sk@)));
                }
                let ghost before = self.items.deep_view();
                // The items are taken out while they change: the table's
                // invariant is asked of the finished value only.
                let mut items: Vec<Item> = Vec::new();
                std::mem::swap(&mut self.items, &mut items);
                let item = items.remove(at);
                assert(items.deep_view() =~= before.remove(at as int));
                self.items = items;
                Some(item)
            },
            None => {
                proof {
                    without_absent(self@, (pk@, sk@));
                }
                None
            },
        }
    }

    /// Stores `item`, in place of any item with the same keys.
    pub fn put(&mut self, item: Item)
        ensures
            final(self)@ == put_spec(old(self)@, item@),
    {
        let ghost given = self@;
        proof {
            use_type_invariant(&*self);
            put_keeps_unique(given, item@);
        }
        let _ = self.delete(&item.pk, &item.sk);
        let ghost before = self.items.deep_view();
        let mut items: Vec<Item> = Vec::new();
        std::mem::swap(&mut self.items, &mut items);
        items.push(item);
        assert(items.deep_view() =~= before.push(item@));
        self.items = items;
    }

    /// The items that `query` selects, in the order of the table.
    pub fn query(&self, query: &Query) -> (found: Vec<Item>)
        ensures
            found.deep_view() == query_spec(self@, query@),
    {
        let mut found: Vec<Item> = Vec::new();
        let mut at: usize = 0;
        proof {
            reveal(Seq::filter);
        }
        while at < self.items.len()
            invariant
                at <= self.items.len(),
                found.deep_view() == self@.take(at as int).filter(selected(query@)),
            decreases self.items.len() - at,
        {
            proof {
                reveal(Seq::filter);
                assert(self@.take(at + 1).drop_last() =~= self@.take(at as int));
            }
            if query.admits(&self.items[at]) {
                found.push(self.items[at].duplicate());
            }
            at = at + 1;
        }
        assert(self@.take(at as int) =~= self@);
        found
    }

    /// Every item, in the order of the table.
    pub fn scan(&self) -> (found: Vec<Item>)
        ensures
            found.deep_view() == self@,
    {
        let mut found: Vec<Item> = Vec::new();
        let mut at: usize = 0;
        while at < self.items.len()
            invariant
                at <= self.items.len(),
                found.deep_view() == self@.take(at as int),
            decreases self.items.len() - at,
        {
            found.push(self.items[at].duplicate());
            assert(self@.take(at + 1) =~= self@.take(at as int).push(self.items[at as int]@));
            at = at + 1;
        }
        found
    }

    /// Carries out a request and answers it. The answer is never a
    /// failure.
    pub fn perform(&mut self, request: Request) -> (reply: Reply)
        ensures
            (final(self)@, reply@) == perform_spec(old(self)@, request@),
    {
        match request {
            Request::Put(item) => {
                self.put(item);
                Reply::Stored
            },
            Request::Delete { pk, sk } => {
                let previous = self.delete(&pk, &sk);
                Reply::Removed(previous)
            },
            Request::Query(query) => Reply::Items(self.query(&query)),
        }
    }
}

} // verus!
