//! What the cascading deletes achieve on a table that carries out every
//! request: the story or user goes, and with it everything that hangs on
//! it.

use vstd::prelude::*;
use crate::command::{comment_keys, story_keys, CommandView, PayloadView};
use crate::item::{all_decode, decode, decode_all, ItemView};
use crate::keys::{story_key_spec, story_tag, user_tag};
use crate::request::{selects, RequestView};
use crate::run::{
    comments_ahead, pending, phase, run_spec, stories_ahead, story_steps,
};
use crate::session::{
    advance_spec, begin_spec, comments_query, delete_of, step_spec, stories_query, ActionView,
    CascadeView, SessionView,
};
use crate::table::{
    filter_keeps_unique, filter_membership, not_keyed, perform_spec, query_spec, selected,
    unique_keys, without,
};

verus! {

/// Every item of `part` is an item of `whole`.
pub open spec fn within(part: Seq<ItemView>, whole: Seq<ItemView>) -> bool {
    forall|x: ItemView| #[trigger] part.contains(x) ==> whole.contains(x)
}

/// `item` is a comment on the story with the sort key `story_sk`, by its
/// keys: the inverted index finds it under that story.
pub open spec fn is_comment_on(story_sk: Seq<char>, item: ItemView) -> bool {
    selects(comments_query(story_sk), item)
}

/// `item` is a story of the user whose partition is `partition`, by its
/// keys: the primary index finds it among that user's stories.
pub open spec fn is_story_of(partition: Seq<char>, item: ItemView) -> bool {
    selects(stories_query(partition), item)
}

/// The items of `table` that the keys place on the stories `on` store
/// comments.
pub open spec fn comments_are_sound(table: Seq<ItemView>, on: Set<Seq<char>>) -> bool {
    forall|sk: Seq<char>, x: ItemView|
        #[trigger] on.contains(sk) && #[trigger] table.contains(x) && is_comment_on(sk, x)
            ==> decode(x) is Some && decode(x)->0 is Comment
}

/// The items of `table` that the keys place among the stories of
/// `partition` store stories.
pub open spec fn stories_are_sound(table: Seq<ItemView>, partition: Seq<char>) -> bool {
    forall|x: ItemView|
        #[trigger] table.contains(x) && is_story_of(partition, x) ==> decode(x) is Some
            && decode(x)->0 is Story
}

/// The sort keys of the stories of `partition` in `table`.
pub open spec fn story_sort_keys(table: Seq<ItemView>, partition: Seq<char>) -> Set<Seq<char>> {
    Set::new(
        |sk: Seq<char>|
            exists|s: ItemView| #[trigger] table.contains(s) && is_story_of(partition, s) && s.sk == sk,
    )
}

/// Nothing that `doomed` marks is left in `table`, and no comment on any
/// of the stories `on`.
pub open spec fn cleared(
    table: Seq<ItemView>,
    doomed: spec_fn(ItemView) -> bool,
    on: Set<Seq<char>>,
) -> bool {
    &&& forall|x: ItemView| #[trigger] table.contains(x) ==> !doomed(x)
    &&& forall|sk: Seq<char>, x: ItemView|
        #[trigger] on.contains(sk) && #[trigger] table.contains(x) ==> !is_comment_on(sk, x)
}

/// `item` is a comment on one of the stories `on`, by its keys.
pub open spec fn hangs_on(on: Set<Seq<char>>, item: ItemView) -> bool {
    on.contains(item.sk) && is_comment_on(item.sk, item)
}

/// Whatever of `before` is neither marked by `doomed` nor a comment on one
/// of the stories `on` is still in `table`.
pub open spec fn spared(
    table: Seq<ItemView>,
    before: Seq<ItemView>,
    doomed: spec_fn(ItemView) -> bool,
    on: Set<Seq<char>>,
) -> bool {
    forall|x: ItemView|
        #[trigger] before.contains(x) && !doomed(x) && !hangs_on(on, x) ==> table.contains(x)
}

/// `key` is among `keys` at `from` or later.
pub open spec fn listed(
    keys: Seq<(Seq<char>, Seq<char>)>,
    from: int,
    key: (Seq<char>, Seq<char>),
) -> bool {
    exists|i: int| from <= i < keys.len() && #[trigger] keys[i] == key
}

/// A key with the sort key `sk` is among `keys` at `from` or later.
pub open spec fn sort_listed(keys: Seq<(Seq<char>, Seq<char>)>, from: int, sk: Seq<char>) -> bool {
    exists|i: int| from <= i < keys.len() && (#[trigger] keys[i]).1 == sk
}

/// What holds of a cascade between two of its requests. The table has
/// only lost items, and none but doomed ones and comments on the stories
/// `on`; the keys it works through are keys of such items only. Every
/// doomed item still there has its key among the stories from
/// `story_from` on. Every comment still there on one of the stories `on`
/// either waits for its story, which is among the stories from
/// `comment_story_from` on, or is among the comments from `comment_from`
/// on.
pub open spec fn on_course(
    work: CascadeView,
    story_from: int,
    comment_story_from: int,
    comment_from: int,
    table: Seq<ItemView>,
    before: Seq<ItemView>,
    doomed: spec_fn(ItemView) -> bool,
    on: Set<Seq<char>>,
) -> bool {
    &&& within(table, before)
    &&& unique_keys(table)
    &&& comments_are_sound(before, on)
    &&& spared(table, before, doomed, on)
    &&& forall|i: int, x: ItemView|
        0 <= i < work.stories.len() && #[trigger] before.contains(x) && x.key()
            == #[trigger] work.stories[i] ==> doomed(x)
    &&& forall|i: int, x: ItemView|
        0 <= i < work.comments.len() && #[trigger] before.contains(x) && x.key()
            == #[trigger] work.comments[i] ==> hangs_on(on, x)
    &&& forall|i: int| 0 <= i < work.stories.len() ==> on.contains((#[trigger] work.stories[i]).1)
    &&& forall|x: ItemView|
        #[trigger] table.contains(x) && doomed(x) ==> listed(work.stories, story_from, x.key())
    &&& forall|sk: Seq<char>, x: ItemView|
        #[trigger] on.contains(sk) && #[trigger] table.contains(x) && is_comment_on(sk, x)
            ==> sort_listed(work.stories, comment_story_from, sk) || listed(
            work.comments,
            comment_from,
            x.key(),
        )
}

/// What holds of a cascade while a request is out.
pub open spec fn cascading(
    session: SessionView,
    action: ActionView,
    table: Seq<ItemView>,
    before: Seq<ItemView>,
    doomed: spec_fn(ItemView) -> bool,
    on: Set<Seq<char>>,
) -> bool {
    match session {
        SessionView::RemovingStory { work } => {
            &&& session.wf()
            &&& work.next_comment == work.comments.len()
            &&& action == delete_of(work.stories[work.next_story - 1])
            &&& on_course(
                work,
                work.next_story - 1,
                work.next_story - 1,
                work.next_comment as int,
                table,
                before,
                doomed,
                on,
            )
        },
        SessionView::FindingComments { work } => {
            &&& session.wf()
            &&& work.next_comment == work.comments.len()
            &&& action == ActionView::Send(
                RequestView::Query(comments_query(work.stories[work.next_story - 1].1)),
            )
            &&& on_course(
                work,
                work.next_story as int,
                work.next_story - 1,
                work.next_comment as int,
                table,
                before,
                doomed,
                on,
            )
        },
        SessionView::RemovingComment { work } => {
            &&& session.wf()
            &&& action == delete_of(work.comments[work.next_comment - 1])
            &&& on_course(
                work,
                work.next_story as int,
                work.next_story as int,
                work.next_comment - 1,
                table,
                before,
                doomed,
                on,
            )
        },
        SessionView::Finished => {
            &&& action == ActionView::Finish(Ok(PayloadView::Empty))
            &&& within(table, before)
            &&& unique_keys(table)
            &&& cleared(table, doomed, on)
            &&& spared(table, before, doomed, on)
        },
        _ => false,
    }
}

/// Removing a key leaves exactly the items with other keys.
pub proof fn without_membership(table: Seq<ItemView>, key: (Seq<char>, Seq<char>))
    ensures
        forall|x: ItemView|
            #[trigger] without(table, key).contains(x) <==> table.contains(x) && x.key() != key,
{
    assert forall|x: ItemView|
        #[trigger] without(table, key).contains(x) <==> table.contains(x) && x.key() != key by {
        filter_membership(table, not_keyed(key), x);
    }
}

/// A query reports exactly the items that it selects.
pub proof fn query_membership(table: Seq<ItemView>, query: crate::request::QueryView)
    ensures
        forall|x: ItemView|
            #[trigger] query_spec(table, query).contains(x) <==> table.contains(x) && selects(
                query,
                x,
            ),
{
    assert forall|x: ItemView|
        #[trigger] query_spec(table, query).contains(x) <==> table.contains(x) && selects(
            query,
            x,
        ) by {
        filter_membership(table, selected(query), x);
    }
}

/// Where every item stores a story, the keys of the stories are the keys
/// of the items, one for one.
pub proof fn story_keys_of_stories(items: Seq<ItemView>)
    requires
        forall|i: int|
            0 <= i < items.len() ==> decode(#[trigger] items[i]) is Some && decode(items[i])->0 is Story,
    ensures
        all_decode(items),
        story_keys(decode_all(items)).len() == items.len(),
        forall|i: int|
            0 <= i < items.len() ==> (#[trigger] story_keys(decode_all(items))[i]) == items[i].key(),
    decreases items.len(),
{
    if items.len() > 0 {
        let front = items.drop_last();
        story_keys_of_stories(front);
        assert(decode_all(items).drop_last() =~= decode_all(front));
    }
}

/// Where every item stores a comment, the keys of the comments are the
/// keys of the items, one for one.
pub proof fn comment_keys_of_comments(items: Seq<ItemView>)
    requires
        forall|i: int|
            0 <= i < items.len() ==> decode(#[trigger] items[i]) is Some && decode(
                items[i],
            )->0 is Comment,
    ensures
        all_decode(items),
        comment_keys(decode_all(items)).len() == items.len(),
        forall|i: int|
            0 <= i < items.len() ==> (#[trigger] comment_keys(decode_all(items))[i])
                == items[i].key(),
    decreases items.len(),
{
    if items.len() > 0 {
        let front = items.drop_last();
        comment_keys_of_comments(front);
        assert(decode_all(items).drop_last() =~= decode_all(front));
    }
}

/// A cascade that is on course with nothing out takes up what is next and
/// stays on course, or is done with everything cleared.
pub proof fn advance_stays_on_course(
    work: CascadeView,
    table: Seq<ItemView>,
    before: Seq<ItemView>,
    doomed: spec_fn(ItemView) -> bool,
    on: Set<Seq<char>>,
)
    requires
        work.next_story <= work.stories.len(),
        work.next_comment <= work.comments.len(),
        on_course(
            work,
            work.next_story as int,
            work.next_story as int,
            work.next_comment as int,
            table,
            before,
            doomed,
            on,
        ),
    ensures
        cascading(advance_spec(work).0, advance_spec(work).1, table, before, doomed, on),
{
}

/// One request of a cascade and its reply keep the cascade on course.
pub proof fn step_stays_on_course(
    session: SessionView,
    action: ActionView,
    table: Seq<ItemView>,
    before: Seq<ItemView>,
    doomed: spec_fn(ItemView) -> bool,
    on: Set<Seq<char>>,
)
    requires
        action is Send,
        cascading(session, action, table, before, doomed, on),
    ensures
        ({
            let served = perform_spec(table, action->Send_0);
            let next = step_spec(session, served.1);
            cascading(next.0, next.1, served.0, before, doomed, on)
        }),
{
    match session {
        SessionView::RemovingStory { work } => {
            let key = work.stories[work.next_story - 1];
            without_membership(table, key);
            filter_keeps_unique(table, not_keyed(key));
        },
        SessionView::FindingComments { work } => {
            let story = work.stories[work.next_story - 1];
            let query = comments_query(story.1);
            let items = query_spec(table, query);
            query_membership(table, query);
            assert forall|i: int| 0 <= i < items.len() implies decode(#[trigger] items[i]) is Some
                && decode(items[i])->0 is Comment by {
                assert(items.contains(items[i]));
            }
            comment_keys_of_comments(items);
            let found = comment_keys(decode_all(items));
            let after = CascadeView { comments: found, next_comment: 0, ..work };
            assert forall|sk: Seq<char>, x: ItemView|
                #[trigger] on.contains(sk) && #[trigger] table.contains(x) && is_comment_on(
                    sk,
                    x,
                ) implies sort_listed(after.stories, after.next_story as int, sk) || listed(
                after.comments,
                0,
                x.key(),
            ) by {
                let i = choose|i: int|
                    work.next_story - 1 <= i < work.stories.len() && (#[trigger] work.stories[i]).1
                        == sk;
                if i == work.next_story - 1 {
                    assert(items.contains(x));
                    let j = choose|j: int| 0 <= j < items.len() && items[j] == x;
                    assert(found[j] == x.key());
                }
            }
            advance_stays_on_course(after, table, before, doomed, on);
        },
        SessionView::RemovingComment { work } => {
            let key = work.comments[work.next_comment - 1];
            let rest = without(table, key);
            without_membership(table, key);
            filter_keeps_unique(table, not_keyed(key));
            let after = CascadeView { removed: work.removed.push(key), ..work };
            advance_stays_on_course(after, rest, before, doomed, on);
        },
        _ => {},
    }
}

/// A cascade that is on course ends well: it reports success, the table
/// has only lost items, what was doomed is cleared, and the rest is
/// spared.
pub proof fn cascade_clears(
    session: SessionView,
    action: ActionView,
    table: Seq<ItemView>,
    before: Seq<ItemView>,
    doomed: spec_fn(ItemView) -> bool,
    on: Set<Seq<char>>,
)
    requires
        cascading(session, action, table, before, doomed, on),
    ensures
        ({
            let ended = run_spec(session, action, table);
            &&& ended.0 == Ok::<PayloadView, crate::command::FailureView>(PayloadView::Empty)
            &&& within(ended.1, before)
            &&& unique_keys(ended.1)
            &&& cleared(ended.1, doomed, on)
            &&& spared(ended.1, before, doomed, on)
        }),
    decreases
            pending(action),
            phase(session),
            stories_ahead(session),
            story_steps(session),
            comments_ahead(session),
{
    match action {
        ActionView::Finish(outcome) => {},
        ActionView::Send(request) => {
            let served = perform_spec(table, request);
            let next = step_spec(session, served.1);
            step_stays_on_course(session, action, table, before, doomed, on);
            cascade_clears(next.0, next.1, served.0, before, doomed, on);
        },
    }
}

/// The test that an item is a story of `partition`.
pub open spec fn stories_of(partition: Seq<char>) -> spec_fn(ItemView) -> bool {
    |item: ItemView| is_story_of(partition, item)
}

/// The test that an item has the key `key`.
pub open spec fn the_item(key: (Seq<char>, Seq<char>)) -> spec_fn(ItemView) -> bool {
    |item: ItemView| item.key() == key
}

/// Of the user with the partition `partition` nothing is left in `rest`:
/// not the user, none of their stories, and no comment on any story that
/// they had in `before`.
pub open spec fn user_is_gone(
    rest: Seq<ItemView>,
    before: Seq<ItemView>,
    partition: Seq<char>,
) -> bool {
    &&& forall|x: ItemView| #[trigger] rest.contains(x) ==> x.key() != (partition, partition)
    &&& forall|x: ItemView| #[trigger] rest.contains(x) ==> !is_story_of(partition, x)
    &&& forall|s: ItemView, x: ItemView|
        #[trigger] before.contains(s) && is_story_of(partition, s) && #[trigger] rest.contains(x)
            ==> !is_comment_on(s.sk, x)
}

/// What `before` held besides the user with the partition `partition`,
/// their stories and the comments on those is still in `rest`.
pub open spec fn others_outlast_user(
    rest: Seq<ItemView>,
    before: Seq<ItemView>,
    partition: Seq<char>,
) -> bool {
    forall|x: ItemView|
        #[trigger] before.contains(x) && x.key() != (partition, partition) && !is_story_of(
            partition,
            x,
        ) && !hangs_on(story_sort_keys(before, partition), x) ==> rest.contains(x)
}

/// What `before` held besides the story with the key `key` and the
/// comments on it is still in `rest`.
pub open spec fn others_outlast_story(
    rest: Seq<ItemView>,
    before: Seq<ItemView>,
    key: (Seq<char>, Seq<char>),
) -> bool {
    forall|x: ItemView|
        #[trigger] before.contains(x) && x.key() != key && !is_comment_on(key.1, x)
            ==> rest.contains(x)
}

/// Of the story with the key `key` nothing is left in `rest`: not the
/// story, and no comment on it.
pub open spec fn story_is_gone(rest: Seq<ItemView>, key: (Seq<char>, Seq<char>)) -> bool {
    &&& forall|x: ItemView| #[trigger] rest.contains(x) ==> x.key() != key
    &&& forall|x: ItemView| #[trigger] rest.contains(x) ==> !is_comment_on(key.1, x)
}

/// Deleting a user is complete. Take a table in which the items under
/// the user's partition with a story's sort key store stories, and the
/// items that the inverted index finds as comments on those stories store
/// comments. On that table the command succeeds, removes items only, and
/// leaves neither the user, nor a story of theirs, nor a comment on any of
/// their stories. Everything else it leaves in place.
pub proof fn delete_user_is_complete(table: Seq<ItemView>, user_id: Seq<char>, fresh: Seq<char>)
    requires
        unique_keys(table),
        stories_are_sound(table, user_tag() + user_id),
        comments_are_sound(table, story_sort_keys(table, user_tag() + user_id)),
    ensures
        ({
            let started = begin_spec(CommandView::DeleteUser { user_id }, fresh);
            let ended = run_spec(started.0, started.1, table);
            &&& ended.0 == Ok::<PayloadView, crate::command::FailureView>(PayloadView::Empty)
            &&& within(ended.1, table)
            &&& unique_keys(ended.1)
            &&& user_is_gone(ended.1, table, user_tag() + user_id)
            &&& others_outlast_user(ended.1, table, user_tag() + user_id)
        }),
{
    let partition = user_tag() + user_id;
    let doomed = stories_of(partition);
    let on = story_sort_keys(table, partition);
    let started = begin_spec(CommandView::DeleteUser { user_id }, fresh);
    // The user goes first.
    let first = perform_spec(table, started.1->Send_0);
    let rest = without(table, (partition, partition));
    without_membership(table, (partition, partition));
    filter_keeps_unique(table, not_keyed((partition, partition)));
    let asked = step_spec(started.0, first.1);
    // Then the stories are found.
    let query = stories_query(partition);
    let items = query_spec(rest, query);
    let second = perform_spec(rest, asked.1->Send_0);
    query_membership(rest, query);
    assert forall|i: int| 0 <= i < items.len() implies decode(#[trigger] items[i]) is Some
        && decode(items[i])->0 is Story by {
        assert(items.contains(items[i]));
    }
    story_keys_of_stories(items);
    let found = story_keys(decode_all(items));
    let work = CascadeView {
        stories: found,
        next_story: 0,
        comments: Seq::empty(),
        next_comment: 0,
        removed: seq![(partition, partition)],
    };
    let taken = step_spec(asked.0, second.1);
    assert(run_spec(asked.0, asked.1, rest) == run_spec(taken.0, taken.1, rest));
    assert forall|i: int| 0 <= i < work.stories.len() implies on.contains(
        (#[trigger] work.stories[i]).1,
    ) by {
        assert(items.contains(items[i]));
    }
    assert forall|x: ItemView| #[trigger] rest.contains(x) && doomed(x) implies listed(
        work.stories,
        0,
        x.key(),
    ) by {
        assert(items.contains(x));
        let j = choose|j: int| 0 <= j < items.len() && items[j] == x;
        assert(found[j] == x.key());
    }
    assert forall|sk: Seq<char>, x: ItemView|
        #[trigger] on.contains(sk) && #[trigger] rest.contains(x) && is_comment_on(
            sk,
            x,
        ) implies sort_listed(work.stories, 0, sk) || listed(work.comments, 0, x.key()) by {
        let s = choose|s: ItemView|
            #[trigger] table.contains(s) && is_story_of(partition, s) && s.sk == sk;
        assert(items.contains(s));
    }
    advance_stays_on_course(work, rest, rest, doomed, on);
    cascade_clears(taken.0, taken.1, rest, rest, doomed, on);
    let ended = run_spec(started.0, started.1, table);
    assert forall|s: ItemView, x: ItemView|
        #[trigger] table.contains(s) && is_story_of(partition, s) && #[trigger] ended.1.contains(
            x,
        ) implies !is_comment_on(s.sk, x) by {
        assert(on.contains(s.sk));
    }
    assert forall|x: ItemView|
        #[trigger] table.contains(x) && x.key() != (partition, partition) && !is_story_of(
            partition,
            x,
        ) && !hangs_on(on, x) implies ended.1.contains(x) by {
        assert(rest.contains(x));
    }
}

/// Deleting a story is complete. Take a table in which the items that
/// the inverted index finds as comments on the story store comments. On
/// that table the command succeeds, removes items only, and leaves
/// neither the story nor a comment on it. Everything else it leaves in
/// place. The story need not be there.
pub proof fn delete_story_is_complete(
    table: Seq<ItemView>,
    user_id: Seq<char>,
    story_id: Seq<char>,
    fresh: Seq<char>,
)
    requires
        unique_keys(table),
        comments_are_sound(table, set![story_tag() + story_id]),
    ensures
        ({
            let started = begin_spec(CommandView::DeleteStory { user_id, story_id }, fresh);
            let ended = run_spec(started.0, started.1, table);
            &&& ended.0 == Ok::<PayloadView, crate::command::FailureView>(PayloadView::Empty)
            &&& within(ended.1, table)
            &&& unique_keys(ended.1)
            &&& story_is_gone(ended.1, story_key_spec(user_id, story_id))
            &&& others_outlast_story(ended.1, table, story_key_spec(user_id, story_id))
        }),
{
    let key = story_key_spec(user_id, story_id);
    let doomed = the_item(key);
    let on = set![story_tag() + story_id];
    let started = begin_spec(CommandView::DeleteStory { user_id, story_id }, fresh);
    let work = started.0->RemovingStory_work;
    assert forall|sk: Seq<char>, x: ItemView|
        #[trigger] on.contains(sk) && #[trigger] table.contains(x) && is_comment_on(
            sk,
            x,
        ) implies sort_listed(work.stories, 0, sk) || listed(work.comments, 0, x.key()) by {}
    cascade_clears(started.0, started.1, table, table, doomed, on);
}

/// Deleting a comment removes the item with its key and nothing else,
/// and succeeds whether or not the comment was there.
pub proof fn delete_comment_removes_one(
    table: Seq<ItemView>,
    comment_id: Seq<char>,
    story_id: Seq<char>,
    fresh: Seq<char>,
)
    ensures
        ({
            let started = begin_spec(CommandView::DeleteComment { comment_id, story_id }, fresh);
            let ended = run_spec(started.0, started.1, table);
            &&& ended.0 == Ok::<PayloadView, crate::command::FailureView>(PayloadView::Empty)
            &&& ended.1 == without(table, crate::keys::comment_key_spec(comment_id, story_id))
        }),
{
    let started = begin_spec(CommandView::DeleteComment { comment_id, story_id }, fresh);
    let served = perform_spec(table, started.1->Send_0);
    let next = step_spec(started.0, served.1);
    assert(run_spec(started.0, started.1, table) == run_spec(next.0, next.1, served.0));
}

/// Deleting a user of whom nothing is in the table succeeds and changes
/// nothing. So a user who never was can be deleted, and a cascade that
/// ran to its end can be run again.
pub proof fn delete_of_absent_user_changes_nothing(
    table: Seq<ItemView>,
    user_id: Seq<char>,
    fresh: Seq<char>,
)
    requires
        forall|x: ItemView|
            #[trigger] table.contains(x) ==> x.key() != (user_tag() + user_id, user_tag() + user_id)
                && !is_story_of(user_tag() + user_id, x),
    ensures
        ({
            let started = begin_spec(CommandView::DeleteUser { user_id }, fresh);
            let ended = run_spec(started.0, started.1, table);
            &&& ended.0 == Ok::<PayloadView, crate::command::FailureView>(PayloadView::Empty)
            &&& ended.1 == table
        }),
{
    let partition = user_tag() + user_id;
    let started = begin_spec(CommandView::DeleteUser { user_id }, fresh);
    assert forall|i: int| 0 <= i < table.len() implies (#[trigger] table[i]).key() != (
        partition,
        partition,
    ) by {
        assert(table.contains(table[i]));
    }
    crate::table::without_absent(table, (partition, partition));
    let first = perform_spec(table, started.1->Send_0);
    let asked = step_spec(started.0, first.1);
    let query = stories_query(partition);
    assert forall|i: int| 0 <= i < table.len() implies !selected(query)(#[trigger] table[i]) by {
        assert(table.contains(table[i]));
    }
    crate::table::filter_of_none(table, selected(query));
    let second = perform_spec(table, asked.1->Send_0);
    let taken = step_spec(asked.0, second.1);
    assert(run_spec(asked.0, asked.1, table) == run_spec(taken.0, taken.1, table));
}

/// Deleting a story of which nothing is in the table, neither the story
/// nor a comment on it, succeeds and changes nothing.
pub proof fn delete_of_absent_story_changes_nothing(
    table: Seq<ItemView>,
    user_id: Seq<char>,
    story_id: Seq<char>,
    fresh: Seq<char>,
)
    requires
        forall|x: ItemView|
            #[trigger] table.contains(x) ==> x.key() != story_key_spec(user_id, story_id)
                && !is_comment_on(story_tag() + story_id, x),
    ensures
        ({
            let started = begin_spec(CommandView::DeleteStory { user_id, story_id }, fresh);
            let ended = run_spec(started.0, started.1, table);
            &&& ended.0 == Ok::<PayloadView, crate::command::FailureView>(PayloadView::Empty)
            &&& ended.1 == table
        }),
{
    let key = story_key_spec(user_id, story_id);
    let started = begin_spec(CommandView::DeleteStory { user_id, story_id }, fresh);
    assert forall|i: int| 0 <= i < table.len() implies (#[trigger] table[i]).key() != key by {
        assert(table.contains(table[i]));
    }
    crate::table::without_absent(table, key);
    let first = perform_spec(table, started.1->Send_0);
    let asked = step_spec(started.0, first.1);
    let query = comments_query(key.1);
    assert forall|i: int| 0 <= i < table.len() implies !selected(query)(#[trigger] table[i]) by {
        assert(table.contains(table[i]));
    }
    crate::table::filter_of_none(table, selected(query));
    let second = perform_spec(table, asked.1->Send_0);
    let taken = step_spec(asked.0, second.1);
    assert(run_spec(asked.0, asked.1, table) == run_spec(taken.0, taken.1, table));
}

} // verus!
