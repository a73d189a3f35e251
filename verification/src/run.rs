//! Whole commands on the in-memory table: a session is driven to its end,
//! each request carried out by the table and each reply handed back.

use vstd::prelude::*;
use crate::command::{outcome_view, Command, Failure, FailureView, Payload, PayloadView};
use crate::ident::is_random_id;
use crate::item::ItemView;
use crate::session::{
    begin_spec, needs_fresh_id, step_spec, Action, ActionView, CascadeView, Session, SessionView,
};
use crate::request::{Reply, ReplyView};
use crate::table::{perform_spec, Table};
use vstd::string::StringExecFns;

verus! {

/// 1 while a request is out, 0 when the command is over.
pub open spec fn pending(action: ActionView) -> nat {
    if action is Send {
        1
    } else {
        0
    }
}

/// How far a session is from the loop over the stories.
pub open spec fn phase(session: SessionView) -> nat {
    match session {
        SessionView::RemovingUser { .. } => 3,
        SessionView::FindingStories { .. } => 2,
        SessionView::RemovingStory { .. } => 1,
        SessionView::FindingComments { .. } => 1,
        SessionView::RemovingComment { .. } => 1,
        _ => 0,
    }
}

/// The stories that a cascade has not taken up.
pub open spec fn stories_left(work: CascadeView) -> nat {
    if work.next_story <= work.stories.len() {
        (work.stories.len() - work.next_story) as nat
    } else {
        0
    }
}

/// The comments that a cascade has not taken up.
pub open spec fn comments_left(work: CascadeView) -> nat {
    if work.next_comment <= work.comments.len() {
        (work.comments.len() - work.next_comment) as nat
    } else {
        0
    }
}

/// The stories ahead of a session, the one at hand counted.
pub open spec fn stories_ahead(session: SessionView) -> nat {
    match session {
        SessionView::RemovingStory { work } => stories_left(work) + 1,
        SessionView::FindingComments { work } => stories_left(work) + 1,
        SessionView::RemovingComment { work } => stories_left(work) + 1,
        _ => 0,
    }
}

/// The requests ahead for the story at hand before its comments are
/// known.
pub open spec fn story_steps(session: SessionView) -> nat {
    match session {
        SessionView::RemovingStory { .. } => 2,
        SessionView::FindingComments { .. } => 1,
        _ => 0,
    }
}

/// The comments ahead of a session, the one at hand counted.
pub open spec fn comments_ahead(session: SessionView) -> nat {
    match session {
        SessionView::RemovingComment { work } => comments_left(work) + 1,
        _ => 0,
    }
}

/// How a session ends on a table that carries out each of its requests,
/// and the table it leaves.
pub open spec fn run_spec(session: SessionView, action: ActionView, table: Seq<ItemView>) -> (
    Result<PayloadView, FailureView>,
    Seq<ItemView>,
)
    decreases
            pending(action),
            phase(session),
            stories_ahead(session),
            story_steps(session),
            comments_ahead(session),
{
    match action {
        ActionView::Finish(outcome) => (outcome, table),
        ActionView::Send(request) => {
            let served = perform_spec(table, request);
            let next = step_spec(session, served.1);
            run_spec(next.0, next.1, served.0)
        },
    }
}

/// Drives a session to its end on `table`.
pub fn run(session: Session, action: Action, table: &mut Table) -> (outcome: Result<
    Payload,
    Failure,
>)
    ensures
        (outcome_view(outcome), final(table)@) == run_spec(session@, action@, old(table)@),
{
    let mut current = session;
    let mut todo = action;
    loop
        invariant
            run_spec(current@, todo@, table@) == run_spec(session@, action@, old(table)@),
        decreases
                pending(todo@),
                phase(current@),
                stories_ahead(current@),
                story_steps(current@),
                comments_ahead(current@),
    {
        match todo {
            Action::Finish(outcome) => {
                return outcome;
            },
            Action::Send(request) => {
                let reply = table.perform(request);
                let next = current.step(reply);
                current = next.0;
                todo = next.1;
            },
        }
    }
}

/// How a session ends on a table that carries out `budget` requests and
/// fails the one after with `cause`, and the table it leaves.
pub open spec fn run_short_spec(
    session: SessionView,
    action: ActionView,
    table: Seq<ItemView>,
    budget: nat,
    cause: Seq<char>,
) -> (Result<PayloadView, FailureView>, Seq<ItemView>)
    decreases budget,
{
    match action {
        ActionView::Finish(outcome) => (outcome, table),
        ActionView::Send(request) => if budget == 0 {
            // A failure ends every session: see `failure_ends_the_session`.
            match step_spec(session, ReplyView::Failed(cause)).1 {
                ActionView::Finish(outcome) => (outcome, table),
                ActionView::Send(_) => (Err(FailureView::StorageUnavailable(cause)), table),
            }
        } else {
            let served = perform_spec(table, request);
            let next = step_spec(session, served.1);
            run_short_spec(next.0, next.1, served.0, (budget - 1) as nat, cause)
        },
    }
}

/// Whatever a session waits for, a failure ends it.
pub proof fn failure_ends_the_session(session: SessionView, cause: Seq<char>)
    ensures
        step_spec(session, ReplyView::Failed(cause)).0 is Finished,
        step_spec(session, ReplyView::Failed(cause)).1 is Finish,
        step_spec(session, ReplyView::Failed(cause)).1->Finish_0 is Err,
{
}

/// Drives a session on `table` as far as `budget` requests; the request
/// after those is not carried out but answered with a failure that gives
/// `cause`.
pub fn run_short(
    session: Session,
    action: Action,
    table: &mut Table,
    budget: usize,
    cause: &str,
) -> (outcome: Result<Payload, Failure>)
    ensures
        (outcome_view(outcome), final(table)@) == run_short_spec(
            session@,
            action@,
            old(table)@,
            budget as nat,
            cause@,
        ),
{
    let mut current = session;
    let mut todo = action;
    let mut left = budget;
    loop
        invariant
            run_short_spec(current@, todo@, table@, left as nat, cause@) == run_short_spec(
                session@,
                action@,
                old(table)@,
                budget as nat,
                cause@,
            ),
        decreases left,
    {
        match todo {
            Action::Finish(outcome) => {
                return outcome;
            },
            Action::Send(request) => {
                if left == 0 {
                    proof {
                        failure_ends_the_session(current@, cause@);
                    }
                    let next = current.step(Reply::Failed(String::from_str(cause)));
                    match next.1 {
                        Action::Finish(outcome) => {
                            return outcome;
                        },
                        Action::Send(_) => {
                            return Err(Failure::StorageUnavailable(String::from_str(cause)));
                        },
                    }
                }
                let reply = table.perform(request);
                let next = current.step(reply);
                current = next.0;
                todo = next.1;
                left = left - 1;
            },
        }
    }
}

/// Carries out a command on `table`. A new story or comment gets a fresh
/// random identifier.
pub fn execute(command: Command, table: &mut Table) -> (outcome: Result<Payload, Failure>)
    ensures
        exists|fresh: Seq<char>|
            (needs_fresh_id(command@) ==> is_random_id(fresh)) && (
                outcome_view(outcome),
                final(table)@,
            ) == run_spec(
                (#[trigger] begin_spec(command@, fresh)).0,
                begin_spec(command@, fresh).1,
                old(table)@,
            ),
{
    let started = Session::begin(command);
    run(started.0, started.1, table)
}

/// Carries out a command on `table`, with `fresh` as the identifier of a
/// new story or comment.
pub fn execute_with(command: Command, fresh: String, table: &mut Table) -> (outcome: Result<
    Payload,
    Failure,
>)
    ensures
        (outcome_view(outcome), final(table)@) == run_spec(
            begin_spec(command@, fresh@).0,
            begin_spec(command@, fresh@).1,
            old(table)@,
        ),
{
    let started = Session::begin_with(command, fresh);
    run(started.0, started.1, table)
}

} // verus!
