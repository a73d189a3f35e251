//! One command in flight: the requests it makes of the table, one at a
//! time, and what it does with each reply.
//!
//! A session is started from a command and hands out its first request.
//! Whoever owns the table carries the request out and hands the reply to
//! `step`, which either asks for the next request or finishes. The session
//! never touches a table itself, so the same steps drive a remote table
//! and the in-memory one.
//!
//! Deletes cascade. A user goes first, then each of their stories, and
//! behind each story its comments; a story goes first, then its comments.
//! The steps of a cascade are not atomic: a failure in the middle leaves
//! what was already removed removed, and is reported with the keys that
//! are gone.

use vstd::prelude::*;
use vstd::string::StringExecFns;
use crate::command::{
    comment_entries, comment_keys, keys_of_comments, keys_of_stories, list_comments,
    list_stories, story_entries, story_keys, Command, CommandView, Failure, FailureView, Payload,
    PayloadView,
};
use crate::ident::{is_random_id, random_id};
use crate::item::{all_decode, decode_all, encode, from_items, to_item};
use crate::keys::{
    comment_key, comment_key_spec, comment_prefix, comment_tag, comments_of_story_prefix,
    stories_of_user_prefix, story_key, story_key_spec, story_prefix, story_tag, user_partition,
    user_tag,
};
use crate::model::{comment_entity, story_entity, user_entity, Entity};
use crate::request::{
    Index, Query, QueryView, Reply, ReplyView, Request, RequestView, SortCondition, SortView,
};
use crate::text::copy;

verus! {

/// What a session wants done next.
#[derive(Debug, PartialEq, Eq)]
pub enum Action {
    /// Carry this request out and hand the reply to `step`.
    Send(Request),
    /// The command is over, with this result.
    Finish(Result<Payload, Failure>),
}

/// An action as a mathematical value.
pub enum ActionView {
    Send(RequestView),
    Finish(Result<PayloadView, FailureView>),
}

impl View for Action {
    type V = ActionView;

    open spec fn view(&self) -> ActionView {
        match self {
            Action::Send(request) => ActionView::Send(request@),
            Action::Finish(Ok(payload)) => ActionView::Finish(Ok(payload@)),
            Action::Finish(Err(failure)) => ActionView::Finish(Err(failure@)),
        }
    }
}

/// Which of the two listings a session is making.
#[derive(Debug, Clone, Copy, PartialEq, Eq)]
pub enum Listing {
    Stories,
    Comments,
}

/// The work of a cascade, as a mathematical value: the keys of the stories
/// found and how many of them have been taken up, the keys of the comments
/// found for the story at hand and how many of those have been taken up,
/// and the keys whose delete the table has acknowledged.
pub struct CascadeView {
    pub stories: Seq<(Seq<char>, Seq<char>)>,
    pub next_story: nat,
    pub comments: Seq<(Seq<char>, Seq<char>)>,
    pub next_comment: nat,
    pub removed: Seq<(Seq<char>, Seq<char>)>,
}

/// A session as a mathematical value: which reply it waits for, and what
/// it knows.
pub enum SessionView {
    /// A put is out; `payload` is handed back when it is stored.
    Creating { payload: PayloadView },
    /// The query of a listing is out.
    Listing { listing: Listing },
    /// The delete of a user is out; their stories are under `partition`.
    RemovingUser { partition: Seq<char> },
    /// The query for a user's stories is out.
    FindingStories { removed: Seq<(Seq<char>, Seq<char>)> },
    /// The delete of the story before `next_story` is out.
    RemovingStory { work: CascadeView },
    /// The query for the comments of the story before `next_story` is out.
    FindingComments { work: CascadeView },
    /// The delete of the comment before `next_comment` is out.
    RemovingComment { work: CascadeView },
    /// Nothing is out.
    Finished,
}

impl SessionView {
    /// The counters of a session point into its lists, and a delete that
    /// is out has its key in front of the counter.
    pub open spec fn wf(self) -> bool {
        match self {
            SessionView::RemovingStory { work } => 1 <= work.next_story <= work.stories.len()
                && work.next_comment <= work.comments.len(),
            SessionView::FindingComments { work } => 1 <= work.next_story <= work.stories.len()
                && work.next_comment <= work.comments.len(),
            SessionView::RemovingComment { work } => work.next_story <= work.stories.len() && 1
                <= work.next_comment <= work.comments.len(),
            _ => true,
        }
    }
}

/// The end of a command.
pub open spec fn finish(outcome: Result<PayloadView, FailureView>) -> (SessionView, ActionView) {
    (SessionView::Finished, ActionView::Finish(outcome))
}

/// The cause given for a reply that is not the awaited one: the table's
/// own words where it reported a failure.
pub open spec fn refusal(reply: ReplyView) -> Seq<char> {
    match reply {
        ReplyView::Failed(cause) => cause,
        _ => "unexpected reply"@,
    }
}

/// The failure of a command that has had the deletes of `removed`
/// acknowledged: with none it left the table as it was, with some it is a
/// cascade that stopped half way.
pub open spec fn stopped(removed: Seq<(Seq<char>, Seq<char>)>, cause: Seq<char>) -> Result<
    PayloadView,
    FailureView,
> {
    if removed.len() == 0 {
        Err(FailureView::StorageUnavailable(cause))
    } else {
        Err(FailureView::PartialCascadeFailure { removed, cause })
    }
}

/// The query for the stories under a user's partition.
pub open spec fn stories_query(partition: Seq<char>) -> QueryView {
    QueryView { partition, sort: SortView::BeginsWith(story_tag()), index: Index::Primary }
}

/// The query for the comments on the story with the sort key `story_sk`.
pub open spec fn comments_query(story_sk: Seq<char>) -> QueryView {
    QueryView { partition: story_sk, sort: SortView::BeginsWith(comment_tag()), index: Index::Inverted }
}

/// The delete of a key.
pub open spec fn delete_of(key: (Seq<char>, Seq<char>)) -> ActionView {
    ActionView::Send(RequestView::Delete { pk: key.0, sk: key.1 })
}

/// What a cascade does when nothing is out: it removes the next comment of
/// the story at hand; with none left, the next story; with none left, it
/// is done.
pub open spec fn advance_spec(work: CascadeView) -> (SessionView, ActionView) {
    if work.next_comment < work.comments.len() {
        (
            SessionView::RemovingComment {
                work: CascadeView { next_comment: work.next_comment + 1, ..work },
            },
            delete_of(work.comments[work.next_comment as int]),
        )
    } else if work.next_story < work.stories.len() {
        (
            SessionView::RemovingStory {
                work: CascadeView { next_story: work.next_story + 1, ..work },
            },
            delete_of(work.stories[work.next_story as int]),
        )
    } else {
        finish(Ok(PayloadView::Empty))
    }
}

/// Whether a command needs a fresh identifier.
pub open spec fn needs_fresh_id(command: CommandView) -> bool {
    command is CreateStory || command is CreateComment
}

/// The session of a command and its first request. `fresh` is the
/// identifier given to a new story or comment; other commands ignore it.
pub open spec fn begin_spec(command: CommandView, fresh: Seq<char>) -> (SessionView, ActionView) {
    match command {
        CommandView::CreateUser { user_id, password } => (
            SessionView::Creating { payload: PayloadView::UserId(user_id) },
            ActionView::Send(RequestView::Put(encode(user_entity(user_id, password)))),
        ),
        CommandView::CreateStory { user_id, content } => (
            SessionView::Creating { payload: PayloadView::StoryId(fresh) },
            ActionView::Send(RequestView::Put(encode(story_entity(user_id, fresh, content)))),
        ),
        CommandView::CreateComment { story_id, user_id, content } => (
            SessionView::Creating { payload: PayloadView::CommentId(fresh) },
            ActionView::Send(
                RequestView::Put(encode(comment_entity(fresh, story_id, user_id, content))),
            ),
        ),
        CommandView::DeleteUser { user_id } => (
            SessionView::RemovingUser { partition: user_tag() + user_id },
            delete_of((user_tag() + user_id, user_tag() + user_id)),
        ),
        CommandView::DeleteStory { user_id, story_id } => (
            SessionView::RemovingStory {
                work: CascadeView {
                    stories: seq![story_key_spec(user_id, story_id)],
                    next_story: 1,
                    comments: Seq::empty(),
                    next_comment: 0,
                    removed: Seq::empty(),
                },
            },
            delete_of(story_key_spec(user_id, story_id)),
        ),
        CommandView::DeleteComment { comment_id, story_id } => (
            SessionView::RemovingComment {
                work: CascadeView {
                    stories: Seq::empty(),
                    next_story: 0,
                    comments: seq![comment_key_spec(comment_id, story_id)],
                    next_comment: 1,
                    removed: Seq::empty(),
                },
            },
            delete_of(comment_key_spec(comment_id, story_id)),
        ),
        CommandView::ListStories { user_id } => (
            SessionView::Listing { listing: Listing::Stories },
            ActionView::Send(RequestView::Query(stories_query(user_tag() + user_id))),
        ),
        CommandView::ListComments { story_id } => (
            SessionView::Listing { listing: Listing::Comments },
            ActionView::Send(RequestView::Query(comments_query(story_tag() + story_id))),
        ),
    }
}

/// What a session does with a reply: the session it becomes and its next
/// action.
///
/// A failure, a reply of the wrong kind, or items that store no entity end
/// the command. Of the items of a query only those of the kind asked for
/// are used; others are passed over.
pub open spec fn step_spec(session: SessionView, reply: ReplyView) -> (SessionView, ActionView) {
    match session {
        SessionView::Creating { payload } => match reply {
            ReplyView::Stored => finish(Ok(payload)),
            _ => finish(stopped(Seq::empty(), refusal(reply))),
        },
        SessionView::Listing { listing } => match reply {
            ReplyView::Items(items) => if all_decode(items) {
                match listing {
                    Listing::Stories => finish(
                        Ok(PayloadView::Stories(story_entries(decode_all(items)))),
                    ),
                    Listing::Comments => finish(
                        Ok(PayloadView::Comments(comment_entries(decode_all(items)))),
                    ),
                }
            } else {
                finish(stopped(Seq::empty(), "malformed item"@))
            },
            _ => finish(stopped(Seq::empty(), refusal(reply))),
        },
        SessionView::RemovingUser { partition } => match reply {
            ReplyView::Removed(_) => (
                SessionView::FindingStories { removed: seq![(partition, partition)] },
                ActionView::Send(RequestView::Query(stories_query(partition))),
            ),
            _ => finish(stopped(Seq::empty(), refusal(reply))),
        },
        SessionView::FindingStories { removed } => match reply {
            ReplyView::Items(items) => if all_decode(items) {
                advance_spec(
                    CascadeView {
                        stories: story_keys(decode_all(items)),
                        next_story: 0,
                        comments: Seq::empty(),
                        next_comment: 0,
                        removed,
                    },
                )
            } else {
                finish(stopped(removed, "malformed item"@))
            },
            _ => finish(stopped(removed, refusal(reply))),
        },
        SessionView::RemovingStory { work } => match reply {
            ReplyView::Removed(_) => {
                let key = work.stories[work.next_story - 1];
                (
                    SessionView::FindingComments {
                        work: CascadeView { removed: work.removed.push(key), ..work },
                    },
                    ActionView::Send(RequestView::Query(comments_query(key.1))),
                )
            },
            _ => finish(stopped(work.removed, refusal(reply))),
        },
        SessionView::FindingComments { work } => match reply {
            ReplyView::Items(items) => if all_decode(items) {
                advance_spec(
                    CascadeView {
                        comments: comment_keys(decode_all(items)),
                        next_comment: 0,
                        ..work
                    },
                )
            } else {
                finish(stopped(work.removed, "malformed item"@))
            },
            _ => finish(stopped(work.removed, refusal(reply))),
        },
        SessionView::RemovingComment { work } => match reply {
            ReplyView::Removed(_) => advance_spec(
                CascadeView {
                    removed: work.removed.push(work.comments[work.next_comment - 1]),
                    ..work
                },
            ),
            _ => finish(stopped(work.removed, refusal(reply))),
        },
        SessionView::Finished => finish(stopped(Seq::empty(), refusal(reply))),
    }
}

/// The work of a cascade: what was found, how much of it is taken up,
/// and what is gone.
struct Cascade {
    stories: Vec<(String, String)>,
    next_story: usize,
    comments: Vec<(String, String)>,
    next_comment: usize,
    removed: Vec<(String, String)>,
}

impl View for Cascade {
    type V = CascadeView;

    closed spec fn view(&self) -> CascadeView {
        CascadeView {
            stories: self.stories.deep_view(),
            next_story: self.next_story as nat,
            comments: self.comments.deep_view(),
            next_comment: self.next_comment as nat,
            removed: self.removed.deep_view(),
        }
    }
}

/// Which reply a session waits for, and what it knows.
enum Stage {
    Creating { payload: Payload },
    Listing { listing: Listing },
    RemovingUser { partition: String },
    FindingStories { removed: Vec<(String, String)> },
    RemovingStory { work: Cascade },
    FindingComments { work: Cascade },
    RemovingComment { work: Cascade },
    Finished,
}

/// A command in flight.
pub struct Session {
    stage: Stage,
}

impl View for Session {
    type V = SessionView;

    closed spec fn view(&self) -> SessionView {
        match self.stage {
            Stage::Creating { payload } => SessionView::Creating { payload: payload@ },
            Stage::Listing { listing } => SessionView::Listing { listing },
            Stage::RemovingUser { partition } => SessionView::RemovingUser { partition: partition@ },
            Stage::FindingStories { removed } => SessionView::FindingStories {
                removed: removed.deep_view(),
            },
            Stage::RemovingStory { work } => SessionView::RemovingStory { work: work@ },
            Stage::FindingComments { work } => SessionView::FindingComments { work: work@ },
            Stage::RemovingComment { work } => SessionView::RemovingComment { work: work@ },
            Stage::Finished => SessionView::Finished,
        }
    }
}

/// A copy of a key.
fn copy_key(key: &(String, String)) -> (out: (String, String))
    ensures
        out.deep_view() == key.deep_view(),
{
    (copy(&key.0), copy(&key.1))
}

/// The end of a command.
fn finished(outcome: Result<Payload, Failure>) -> (next: (Session, Action))
    ensures
        next.0@ == SessionView::Finished,
        next.1@ == ActionView::Finish(crate::command::outcome_view(outcome)),
{
    (Session { stage: Stage::Finished }, Action::Finish(outcome))
}

/// The cause given for a reply that is not the awaited one.
fn refusal_of(reply: Reply) -> (cause: String)
    ensures
        cause@ == refusal(reply@),
{
    match reply {
        Reply::Failed(cause) => cause,
        _ => String::from_str("unexpected reply"),
    }
}

/// The failure of a command that has had the deletes of `removed`
/// acknowledged.
fn stop(removed: Vec<(String, String)>, cause: String) -> (next: (Session, Action))
    ensures
        next.0@ == SessionView::Finished,
        next.1@ == ActionView::Finish(stopped(removed.deep_view(), cause@)),
{
    if removed.len() == 0 {
        finished(Err(Failure::StorageUnavailable(cause)))
    } else {
        finished(Err(Failure::PartialCascadeFailure { removed, cause }))
    }
}

/// Takes up the next comment, the next story, or finishes.
fn advance(work: Cascade) -> (next: (Session, Action))
    requires
        work.next_story <= work.stories.len(),
        work.next_comment <= work.comments.len(),
    ensures
        (next.0@, next.1@) == advance_spec(work@),
{
    let mut work = work;
    if work.next_comment < work.comments.len() {
        let key = copy_key(&work.comments[work.next_comment]);
        work.next_comment = work.next_comment + 1;
        (
            Session { stage: Stage::RemovingComment { work } },
            Action::Send(Request::Delete { pk: key.0, sk: key.1 }),
        )
    } else if work.next_story < work.stories.len() {
        let key = copy_key(&work.stories[work.next_story]);
        work.next_story = work.next_story + 1;
        (
            Session { stage: Stage::RemovingStory { work } },
            Action::Send(Request::Delete { pk: key.0, sk: key.1 }),
        )
    } else {
        finished(Ok(Payload::Empty))
    }
}

impl Session {
    #[verifier::type_invariant]
    spec fn counters_fit(&self) -> bool {
        self@.wf()
    }

    /// Starts a command whose fresh identifier, if it needs one, is
    /// `fresh`.
    pub fn begin_with(command: Command, fresh: String) -> (started: (Session, Action))
        ensures
            (started.0@, started.1@) == begin_spec(command@, fresh@),
    {
        match command {
            Command::CreateUser(input) => {
                let payload = Payload::UserId(copy(&input.user_id));
                let entity = Entity::new_user(input.user_id.as_str(), input.password);
                (Session { stage: Stage::Creating { payload } }, Action::Send(Request::Put(to_item(entity))))
            },
            Command::CreateStory(input) => {
                let entity = Entity::story(input.user_id.as_str(), fresh.as_str(), input.content);
                let payload = Payload::StoryId(fresh);
                (Session { stage: Stage::Creating { payload } }, Action::Send(Request::Put(to_item(entity))))
            },
            Command::CreateComment(input) => {
                let entity = Entity::comment(
                    fresh.as_str(),
                    input.story_id.as_str(),
                    input.user_id,
                    input.content,
                );
                let payload = Payload::CommentId(fresh);
                (Session { stage: Stage::Creating { payload } }, Action::Send(Request::Put(to_item(entity))))
            },
            Command::DeleteUser(input) => {
                let partition = user_partition(input.user_id.as_str());
                let request = Request::Delete { pk: copy(&partition), sk: copy(&partition) };
                (Session { stage: Stage::RemovingUser { partition } }, Action::Send(request))
            },
            Command::DeleteStory(input) => {
                let key = story_key(input.user_id.as_str(), input.story_id.as_str());
                let request = Request::Delete { pk: copy(&key.0), sk: copy(&key.1) };
                let ghost shown = key.deep_view();
                let mut stories: Vec<(String, String)> = Vec::new();
                stories.push(key);
                let work = Cascade {
                    stories,
                    next_story: 1,
                    comments: Vec::new(),
                    next_comment: 0,
                    removed: Vec::new(),
                };
                proof {
                    assert(work.stories.deep_view() =~= seq![shown]);
                    assert(work.removed.deep_view() =~= Seq::empty());
                }
                (Session { stage: Stage::RemovingStory { work } }, Action::Send(request))
            },
            Command::DeleteComment(input) => {
                let key = comment_key(input.comment_id.as_str(), input.story_id.as_str());
                let request = Request::Delete { pk: copy(&key.0), sk: copy(&key.1) };
                let ghost shown = key.deep_view();
                let mut comments: Vec<(String, String)> = Vec::new();
                comments.push(key);
                let work = Cascade {
                    stories: Vec::new(),
                    next_story: 0,
                    comments,
                    next_comment: 1,
                    removed: Vec::new(),
                };
                proof {
                    assert(work.comments.deep_view() =~= seq![shown]);
                    assert(work.removed.deep_view() =~= Seq::empty());
                }
                (Session { stage: Stage::RemovingComment { work } }, Action::Send(request))
            },
            Command::ListStories { user_id } => {
                let (partition, prefix) = stories_of_user_prefix(user_id.as_str());
                let query = Query {
                    partition,
                    sort: SortCondition::BeginsWith(prefix),
                    index: Index::Primary,
                };
                (
                    Session { stage: Stage::Listing { listing: Listing::Stories } },
                    Action::Send(Request::Query(query)),
                )
            },
            Command::ListComments { story_id } => {
                let (partition, prefix) = comments_of_story_prefix(story_id.as_str());
                let query = Query {
                    partition,
                    sort: SortCondition::BeginsWith(prefix),
                    index: Index::Inverted,
                };
                (
                    Session { stage: Stage::Listing { listing: Listing::Comments } },
                    Action::Send(Request::Query(query)),
                )
            },
        }
    }

    /// Starts a command. A new story or comment gets a fresh random
    /// identifier.
    pub fn begin(command: Command) -> (started: (Session, Action))
        ensures
            exists|fresh: Seq<char>|
                (needs_fresh_id(command@) ==> is_random_id(fresh)) && (started.0@, started.1@)
                    == #[trigger] begin_spec(command@, fresh),
    {
        let fresh = match &command {
            Command::CreateStory(_) => random_id(),
            Command::CreateComment(_) => random_id(),
            _ => String::new(),
        };
        Session::begin_with(command, fresh)
    }

    /// Whether the command is over.
    pub fn is_finished(&self) -> (over: bool)
        ensures
            over == (self@ is Finished),
    {
        match &self.stage {
            Stage::Finished => true,
            _ => false,
        }
    }

    /// Takes the reply to the request that is out and says what comes
    /// next.
    pub fn step(self, reply: Reply) -> (next: (Session, Action))
        ensures
            (next.0@, next.1@) == step_spec(self@, reply@),
            next.0@.wf(),
    {
        proof {
            use_type_invariant(&self);
        }
        match self.stage {
            Stage::Creating { payload } => match reply {
                Reply::Stored => finished(Ok(payload)),
                other => {
                    let empty: Vec<(String, String)> = Vec::new();
                    stop(empty, refusal_of(other))
                },
            },
            Stage::Listing { listing } => match reply {
                Reply::Items(items) => match from_items(items) {
                    Some(entities) => match listing {
                        Listing::Stories => finished(
                            Ok(Payload::Stories(list_stories(&entities))),
                        ),
                        Listing::Comments => finished(
                            Ok(Payload::Comments(list_comments(&entities))),
                        ),
                    },
                    None => {
                        let empty: Vec<(String, String)> = Vec::new();
                        stop(empty, String::from_str("malformed item"))
                    },
                },
                other => {
                    let empty: Vec<(String, String)> = Vec::new();
                    stop(empty, refusal_of(other))
                },
            },
            Stage::RemovingUser { partition } => match reply {
                Reply::Removed(_) => {
                    let query = Query {
                        partition: copy(&partition),
                        sort: SortCondition::BeginsWith(story_prefix()),
                        index: Index::Primary,
                    };
                    let ghost shown = (partition@, partition@);
                    let mut removed: Vec<(String, String)> = Vec::new();
                    removed.push((copy(&partition), partition));
                    assert(removed.deep_view() =~= seq![shown]);
                    (
                        Session { stage: Stage::FindingStories { removed } },
                        Action::Send(Request::Query(query)),
                    )
                },
                other => {
                    let empty: Vec<(String, String)> = Vec::new();
                    stop(empty, refusal_of(other))
                },
            },
            Stage::FindingStories { removed } => match reply {
                Reply::Items(items) => match from_items(items) {
                    Some(entities) => {
                        let work = Cascade {
                            stories: keys_of_stories(&entities),
                            next_story: 0,
                            comments: Vec::new(),
                            next_comment: 0,
                            removed,
                        };
                        assert(work.comments.deep_view() =~= Seq::empty());
                        advance(work)
                    },
                    None => stop(removed, String::from_str("malformed item")),
                },
                other => stop(removed, refusal_of(other)),
            },
            Stage::RemovingStory { work } => match reply {
                Reply::Removed(_) => {
                    let mut work = work;
                    let key = copy_key(&work.stories[work.next_story - 1]);
                    let query = Query {
                        partition: copy(&key.1),
                        sort: SortCondition::BeginsWith(comment_prefix()),
                        index: Index::Inverted,
                    };
                    let ghost before = work.removed.deep_view();
                    let ghost shown = key.deep_view();
                    work.removed.push(key);
                    assert(work.removed.deep_view() =~= before.push(shown));
                    (
                        Session { stage: Stage::FindingComments { work } },
                        Action::Send(Request::Query(query)),
                    )
                },
                other => stop(work.removed, refusal_of(other)),
            },
            Stage::FindingComments { work } => match reply {
                Reply::Items(items) => match from_items(items) {
                    Some(entities) => {
                        let mut work = work;
                        work.comments = keys_of_comments(&entities);
                        work.next_comment = 0;
                        advance(work)
                    },
                    None => stop(work.removed, String::from_str("malformed item")),
                },
                other => stop(work.removed, refusal_of(other)),
            },
            Stage::RemovingComment { work } => match reply {
                Reply::Removed(_) => {
                    let mut work = work;
                    let key = copy_key(&work.comments[work.next_comment - 1]);
                    let ghost before = work.removed.deep_view();
                    let ghost shown = key.deep_view();
                    work.removed.push(key);
                    assert(work.removed.deep_view() =~= before.push(shown));
                    advance(work)
                },
                other => stop(work.removed, refusal_of(other)),
            },
            Stage::Finished => {
                let empty: Vec<(String, String)> = Vec::new();
                stop(empty, refusal_of(reply))
            },
        }
    }
}

} // verus!
