//! What the listings show of what was created: a story is found under its
//! user in the primary index, a comment under its story in the inverted
//! index, and the identifiers read back from the keys are the ones that
//! went in, whatever characters they hold.

use vstd::prelude::*;
use crate::command::{
    comment_entries, story_entries, CommandView, CommentEntryView, FailureView, PayloadView,
    StoryEntryView,
};
use crate::item::{encode, ItemView};
use crate::keys::{comment_tag, identifier_of_tagged, story_tag, user_tag};
use crate::model::{comment_entity, story_entity};
use crate::request::selects;
use crate::run::run_spec;
use crate::session::{begin_spec, comments_query, step_spec, stories_query};
use crate::cascade::{is_comment_on, is_story_of, without_membership};
use crate::table::{filter_of_none, perform_spec, put_spec, query_spec, selected, without};

verus! {

/// After a put into a table in which `query` selects nothing, it selects
/// exactly the item that was put, if it selects that.
pub proof fn query_after_put(table: Seq<ItemView>, item: ItemView, query: crate::request::QueryView)
    requires
        forall|x: ItemView| #[trigger] table.contains(x) ==> !selects(query, x),
        selects(query, item),
    ensures
        query_spec(put_spec(table, item), query) == seq![item],
{
    let rest = without(table, item.key());
    let stored = put_spec(table, item);
    without_membership(table, item.key());
    assert forall|i: int| 0 <= i < rest.len() implies !selected(query)(#[trigger] rest[i]) by {
        assert(rest.contains(rest[i]));
    }
    filter_of_none(rest, selected(query));
    reveal(Seq::filter);
    assert(stored.drop_last() =~= rest);
}

/// Inverted-index correctness. Into a table that holds no comment on the
/// story `story_id`, one is created under the fresh identifier `fresh`.
/// Listing the comments of that story then shows exactly one entry, with
/// the story, the user and the content that were given and the identifier
/// that was drawn. This holds of any identifiers, also of ones that
/// hold a `#`.
pub proof fn created_comment_is_listed(
    table: Seq<ItemView>,
    story_id: Seq<char>,
    user_id: Seq<char>,
    content: Seq<char>,
    fresh: Seq<char>,
    ignored: Seq<char>,
)
    requires
        forall|x: ItemView| #[trigger] table.contains(x) ==> !is_comment_on(story_tag() + story_id, x),
    ensures
        ({
            let create = begin_spec(
                CommandView::CreateComment { story_id, user_id, content },
                fresh,
            );
            let created = run_spec(create.0, create.1, table);
            let list = begin_spec(CommandView::ListComments { story_id }, ignored);
            let listed = run_spec(list.0, list.1, created.1);
            &&& created.0 == Ok::<PayloadView, FailureView>(PayloadView::CommentId(fresh))
            &&& listed.0 == Ok::<PayloadView, FailureView>(
                PayloadView::Comments(
                    seq![CommentEntryView { user_id, comment_id: fresh, story_id, content }],
                ),
            )
            &&& listed.1 == created.1
        }),
{
    let entity = comment_entity(fresh, story_id, user_id, content);
    let item = encode(entity);
    let create = begin_spec(CommandView::CreateComment { story_id, user_id, content }, fresh);
    let stored = perform_spec(table, create.1->Send_0);
    let done = step_spec(create.0, stored.1);
    assert(run_spec(create.0, create.1, table) == run_spec(done.0, done.1, stored.0));

    let query = comments_query(story_tag() + story_id);
    query_after_put(table, item, query);
    let list = begin_spec(CommandView::ListComments { story_id }, ignored);
    let found = perform_spec(stored.0, list.1->Send_0);
    reveal_with_fuel(comment_entries, 2);
    identifier_of_tagged(comment_tag(), fresh);
    identifier_of_tagged(story_tag(), story_id);
    let shown = step_spec(list.0, found.1);
    assert(run_spec(list.0, list.1, stored.0) == run_spec(shown.0, shown.1, found.0));
}

/// Into a table that holds no story of the user `user_id`, one is created
/// under the fresh identifier `fresh`. Listing the stories of that user
/// then shows exactly one entry, with the user and the content that were
/// given and the identifier that was drawn. This holds of any
/// identifiers, also of ones that hold a `#`.
pub proof fn created_story_is_listed(
    table: Seq<ItemView>,
    user_id: Seq<char>,
    content: Seq<char>,
    fresh: Seq<char>,
    ignored: Seq<char>,
)
    requires
        forall|x: ItemView| #[trigger] table.contains(x) ==> !is_story_of(user_tag() + user_id, x),
    ensures
        ({
            let create = begin_spec(CommandView::CreateStory { user_id, content }, fresh);
            let created = run_spec(create.0, create.1, table);
            let list = begin_spec(CommandView::ListStories { user_id }, ignored);
            let listed = run_spec(list.0, list.1, created.1);
            &&& created.0 == Ok::<PayloadView, FailureView>(PayloadView::StoryId(fresh))
            &&& listed.0 == Ok::<PayloadView, FailureView>(
                PayloadView::Stories(seq![StoryEntryView { user_id, story_id: fresh, content }]),
            )
            &&& listed.1 == created.1
        }),
{
    let entity = story_entity(user_id, fresh, content);
    let item = encode(entity);
    let create = begin_spec(CommandView::CreateStory { user_id, content }, fresh);
    let stored = perform_spec(table, create.1->Send_0);
    let done = step_spec(create.0, stored.1);
    assert(run_spec(create.0, create.1, table) == run_spec(done.0, done.1, stored.0));

    let query = stories_query(user_tag() + user_id);
    query_after_put(table, item, query);
    let list = begin_spec(CommandView::ListStories { user_id }, ignored);
    let found = perform_spec(stored.0, list.1->Send_0);
    reveal_with_fuel(story_entries, 2);
    identifier_of_tagged(user_tag(), user_id);
    identifier_of_tagged(story_tag(), fresh);
    let shown = step_spec(list.0, found.1);
    assert(run_spec(list.0, list.1, stored.0) == run_spec(shown.0, shown.1, found.0));
}

} // verus!
