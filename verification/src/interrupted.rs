//! What a failure report is worth. A cascade is not atomic: when the table
//! fails in the middle, what was removed stays removed. The report says
//! how far the cascade came, and what it says is true of the table.

use vstd::prelude::*;
use crate::cascade::{within, without_membership};
use crate::command::{CommandView, FailureView, PayloadView};
use crate::item::ItemView;
use crate::request::ReplyView;
use crate::run::run_short_spec;
use crate::session::{
    advance_spec, begin_spec, delete_of, step_spec, ActionView, CascadeView, SessionView,
};
use crate::table::perform_spec;

verus! {

/// None of `keys` is the key of an item in `table`.
pub open spec fn gone(keys: Seq<(Seq<char>, Seq<char>)>, table: Seq<ItemView>) -> bool {
    forall|i: int, x: ItemView|
        0 <= i < keys.len() && #[trigger] table.contains(x) ==> x.key() != #[trigger] keys[i]
}

/// What the end of a command says of the table it leaves, `before` being
/// the table it found. Where storage is reported unavailable, nothing was
/// changed. Where a cascade is reported to have stopped, at least one key
/// is reported removed, every key reported removed is gone, and nothing
/// was added. A bad request is never reported by a session.
pub open spec fn report_is_true(
    outcome: Result<PayloadView, FailureView>,
    table: Seq<ItemView>,
    before: Seq<ItemView>,
) -> bool {
    match outcome {
        Ok(_) => true,
        Err(FailureView::StorageUnavailable(_)) => table == before,
        Err(FailureView::PartialCascadeFailure { removed, .. }) => removed.len() > 0 && gone(
            removed,
            table,
        ) && within(table, before),
        Err(FailureView::BadRequest(_)) => false,
    }
}

/// What holds of the work of a cascade: the keys it has reported removed
/// are gone, nothing was added, and as long as it has reported none the
/// table is untouched.
pub open spec fn work_is_true(
    work: CascadeView,
    table: Seq<ItemView>,
    before: Seq<ItemView>,
) -> bool {
    &&& gone(work.removed, table)
    &&& within(table, before)
    &&& work.removed.len() == 0 ==> table == before
}

/// What holds of a session while a request is out, so that its report
/// will be true however the request is answered.
pub open spec fn on_record(
    session: SessionView,
    action: ActionView,
    table: Seq<ItemView>,
    before: Seq<ItemView>,
) -> bool {
    match session {
        SessionView::Creating { .. } => action is Send && action->Send_0 is Put && table
            == before,
        SessionView::Listing { .. } => action is Send && action->Send_0 is Query && table
            == before,
        SessionView::RemovingUser { partition } => action == delete_of((partition, partition))
            && table == before,
        SessionView::FindingStories { removed } => {
            &&& action is Send
            &&& action->Send_0 is Query
            &&& removed.len() > 0
            &&& gone(removed, table)
            &&& within(table, before)
        },
        SessionView::RemovingStory { work } => {
            &&& session.wf()
            &&& action == delete_of(work.stories[work.next_story - 1])
            &&& work_is_true(work, table, before)
        },
        SessionView::FindingComments { work } => {
            &&& session.wf()
            &&& action is Send
            &&& action->Send_0 is Query
            &&& work.removed.len() > 0
            &&& work_is_true(work, table, before)
        },
        SessionView::RemovingComment { work } => {
            &&& session.wf()
            &&& action == delete_of(work.comments[work.next_comment - 1])
            &&& work_is_true(work, table, before)
        },
        SessionView::Finished => action is Finish && report_is_true(
            action->Finish_0,
            table,
            before,
        ),
    }
}

/// A cascade with nothing out, of which at least one delete has been
/// acknowledged, goes on record with what it takes up next.
pub proof fn advance_goes_on_record(
    work: CascadeView,
    table: Seq<ItemView>,
    before: Seq<ItemView>,
)
    requires
        work.next_story <= work.stories.len(),
        work.next_comment <= work.comments.len(),
        work.removed.len() > 0,
        work_is_true(work, table, before),
    ensures
        on_record(advance_spec(work).0, advance_spec(work).1, table, before),
{
}

/// A session on record stays on record when its request is carried out
/// and answered.
pub proof fn served_stays_on_record(
    session: SessionView,
    action: ActionView,
    table: Seq<ItemView>,
    before: Seq<ItemView>,
)
    requires
        action is Send,
        on_record(session, action, table, before),
    ensures
        ({
            let served = perform_spec(table, action->Send_0);
            let next = step_spec(session, served.1);
            on_record(next.0, next.1, served.0, before)
        }),
{
    let served = perform_spec(table, action->Send_0);
    let next = step_spec(session, served.1);
    match session {
        SessionView::RemovingUser { partition } => {
            without_membership(table, (partition, partition));
        },
        SessionView::FindingStories { removed } => {
            if next.1 is Send {
                let work = CascadeView {
                    stories: crate::command::story_keys(
                        crate::item::decode_all(served.1->Items_0),
                    ),
                    next_story: 0,
                    comments: Seq::empty(),
                    next_comment: 0,
                    removed,
                };
                advance_goes_on_record(work, table, before);
            }
        },
        SessionView::RemovingStory { work } => {
            let key = work.stories[work.next_story - 1];
            without_membership(table, key);
        },
        SessionView::FindingComments { work } => {
            if next.1 is Send {
                let after = CascadeView {
                    comments: crate::command::comment_keys(
                        crate::item::decode_all(served.1->Items_0),
                    ),
                    next_comment: 0,
                    ..work
                };
                advance_goes_on_record(after, table, before);
            }
        },
        SessionView::RemovingComment { work } => {
            let key = work.comments[work.next_comment - 1];
            without_membership(table, key);
            let after = CascadeView { removed: work.removed.push(key), ..work };
            advance_goes_on_record(after, served.0, before);
        },
        _ => {},
    }
}

/// A session on record reports truly when its request fails.
pub proof fn failed_stays_on_record(
    session: SessionView,
    action: ActionView,
    table: Seq<ItemView>,
    before: Seq<ItemView>,
    cause: Seq<char>,
)
    requires
        action is Send,
        on_record(session, action, table, before),
    ensures
        ({
            let next = step_spec(session, ReplyView::Failed(cause));
            &&& next.1 is Finish
            &&& report_is_true(next.1->Finish_0, table, before)
        }),
{
}

/// However far a session on record gets before the table fails, what it
/// reports is true of the table it leaves.
pub proof fn record_holds_to_the_end(
    session: SessionView,
    action: ActionView,
    table: Seq<ItemView>,
    before: Seq<ItemView>,
    budget: nat,
    cause: Seq<char>,
)
    requires
        on_record(session, action, table, before),
    ensures
        ({
            let ended = run_short_spec(session, action, table, budget, cause);
            report_is_true(ended.0, ended.1, before)
        }),
    decreases budget,
{
    match action {
        ActionView::Finish(outcome) => {},
        ActionView::Send(request) => {
            if budget == 0 {
                failed_stays_on_record(session, action, table, before, cause);
            } else {
                let served = perform_spec(table, request);
                let next = step_spec(session, served.1);
                served_stays_on_record(session, action, table, before);
                record_holds_to_the_end(
                    next.0,
                    next.1,
                    served.0,
                    before,
                    (budget - 1) as nat,
                    cause,
                );
            }
        },
    }
}

/// Failure reports are true. Take any command, and let the table fail
/// after any number of requests. If the command reports that storage was
/// unavailable, the table is as it was. If it reports a cascade that
/// stopped half way, every key that it reports removed is gone from the
/// table, at least one is reported, and nothing was added.
pub proof fn failure_reports_are_true(
    command: CommandView,
    fresh: Seq<char>,
    table: Seq<ItemView>,
    budget: nat,
    cause: Seq<char>,
)
    ensures
        ({
            let started = begin_spec(command, fresh);
            let ended = run_short_spec(started.0, started.1, table, budget, cause);
            report_is_true(ended.0, ended.1, table)
        }),
{
    let started = begin_spec(command, fresh);
    record_holds_to_the_end(started.0, started.1, table, table, budget, cause);
}

} // verus!
