//! The commands of the social network and what each of them yields.

use vstd::prelude::*;
use crate::model::{
    CreateCommentInput, CreateStoryInput, CreateUserInput, DeleteCommentInput, DeleteStoryInput,
    DeleteUserInput, Entity, EntityView,
};
use crate::keys::{
    comment_id_of, comment_tag, identifier_spec, story_id_of, story_tag, user_id_of, user_tag,
};
use crate::text::copy;

verus! {

/// A command, with its input already parsed.
#[derive(Debug, Clone, PartialEq, Eq)]
pub enum Command {
    CreateUser(CreateUserInput),
    DeleteUser(DeleteUserInput),
    CreateStory(CreateStoryInput),
    DeleteStory(DeleteStoryInput),
    CreateComment(CreateCommentInput),
    DeleteComment(DeleteCommentInput),
    ListStories { user_id: String },
    ListComments { story_id: String },
}

/// A command as a mathematical value.
pub enum CommandView {
    CreateUser { user_id: Seq<char>, password: Seq<char> },
    DeleteUser { user_id: Seq<char> },
    CreateStory { user_id: Seq<char>, content: Seq<char> },
    DeleteStory { user_id: Seq<char>, story_id: Seq<char> },
    CreateComment { story_id: Seq<char>, user_id: Seq<char>, content: Seq<char> },
    DeleteComment { comment_id: Seq<char>, story_id: Seq<char> },
    ListStories { user_id: Seq<char> },
    ListComments { story_id: Seq<char> },
}

impl View for Command {
    type V = CommandView;

    open spec fn view(&self) -> CommandView {
        match self {
            Command::CreateUser(input) => CommandView::CreateUser {
                user_id: input.user_id@,
                password: input.password@,
            },
            Command::DeleteUser(input) => CommandView::DeleteUser { user_id: input.user_id@ },
            Command::CreateStory(input) => CommandView::CreateStory {
                user_id: input.user_id@,
                content: input.content@,
            },
            Command::DeleteStory(input) => CommandView::DeleteStory {
                user_id: input.user_id@,
                story_id: input.story_id@,
            },
            Command::CreateComment(input) => CommandView::CreateComment {
                story_id: input.story_id@,
                user_id: input.user_id@,
                content: input.content@,
            },
            Command::DeleteComment(input) => CommandView::DeleteComment {
                comment_id: input.comment_id@,
                story_id: input.story_id@,
            },
            Command::ListStories { user_id } => CommandView::ListStories { user_id: user_id@ },
            Command::ListComments { story_id } => CommandView::ListComments { story_id: story_id@ },
        }
    }
}

/// One story in the answer to a listing.
#[derive(Debug, Clone, PartialEq, Eq)]
pub struct StoryEntry {
    pub user_id: String,
    pub story_id: String,
    pub content: String,
}

/// A story entry as a mathematical value.
pub struct StoryEntryView {
    pub user_id: Seq<char>,
    pub story_id: Seq<char>,
    pub content: Seq<char>,
}

impl View for StoryEntry {
    type V = StoryEntryView;

    open spec fn view(&self) -> StoryEntryView {
        StoryEntryView { user_id: self.user_id@, story_id: self.story_id@, content: self.content@ }
    }
}

impl DeepView for StoryEntry {
    type V = StoryEntryView;

    open spec fn deep_view(&self) -> StoryEntryView {
        self@
    }
}

/// One comment in the answer to a listing.
#[derive(Debug, Clone, PartialEq, Eq)]
pub struct CommentEntry {
    pub user_id: String,
    pub comment_id: String,
    pub story_id: String,
    pub content: String,
}

/// A comment entry as a mathematical value.
pub struct CommentEntryView {
    pub user_id: Seq<char>,
    pub comment_id: Seq<char>,
    pub story_id: Seq<char>,
    pub content: Seq<char>,
}

impl View for CommentEntry {
    type V = CommentEntryView;

    open spec fn view(&self) -> CommentEntryView {
        CommentEntryView {
            user_id: self.user_id@,
            comment_id: self.comment_id@,
            story_id: self.story_id@,
            content: self.content@,
        }
    }
}

impl DeepView for CommentEntry {
    type V = CommentEntryView;

    open spec fn deep_view(&self) -> CommentEntryView {
        self@
    }
}

/// What a command that succeeded hands back.
#[derive(Debug, Clone, PartialEq, Eq)]
pub enum Payload {
    /// Nothing: the answer to a delete.
    Empty,
    /// The identifier of the user that was created.
    UserId(String),
    /// The fresh identifier of the story that was created.
    StoryId(String),
    /// The fresh identifier of the comment that was created.
    CommentId(String),
    /// The stories of a user.
    Stories(Vec<StoryEntry>),
    /// The comments on a story.
    Comments(Vec<CommentEntry>),
}

/// A payload as a mathematical value.
pub enum PayloadView {
    Empty,
    UserId(Seq<char>),
    StoryId(Seq<char>),
    CommentId(Seq<char>),
    Stories(Seq<StoryEntryView>),
    Comments(Seq<CommentEntryView>),
}

impl View for Payload {
    type V = PayloadView;

    open spec fn view(&self) -> PayloadView {
        match self {
            Payload::Empty => PayloadView::Empty,
            Payload::UserId(id) => PayloadView::UserId(id@),
            Payload::StoryId(id) => PayloadView::StoryId(id@),
            Payload::CommentId(id) => PayloadView::CommentId(id@),
            Payload::Stories(entries) => PayloadView::Stories(entries.deep_view()),
            Payload::Comments(entries) => PayloadView::Comments(entries.deep_view()),
        }
    }
}

/// Why a command did not succeed.
#[derive(Debug, Clone, PartialEq, Eq)]
pub enum Failure {
    /// The command was missing or malformed. Nothing was asked of the
    /// table.
    BadRequest(String),
    /// The table failed before anything was removed.
    StorageUnavailable(String),
    /// A cascade stopped after some of its deletes were carried out. The
    /// keys of those deletes are listed in the order in which they were
    /// acknowledged; what the cascade had not reached yet is still in the
    /// table.
    PartialCascadeFailure { removed: Vec<(String, String)>, cause: String },
}

/// A failure as a mathematical value.
pub enum FailureView {
    BadRequest(Seq<char>),
    StorageUnavailable(Seq<char>),
    PartialCascadeFailure { removed: Seq<(Seq<char>, Seq<char>)>, cause: Seq<char> },
}

impl View for Failure {
    type V = FailureView;

    open spec fn view(&self) -> FailureView {
        match self {
            Failure::BadRequest(cause) => FailureView::BadRequest(cause@),
            Failure::StorageUnavailable(cause) => FailureView::StorageUnavailable(cause@),
            Failure::PartialCascadeFailure { removed, cause } => FailureView::PartialCascadeFailure {
                removed: removed.deep_view(),
                cause: cause@,
            },
        }
    }
}

/// How a command ended, as a mathematical value.
pub open spec fn outcome_view(outcome: Result<Payload, Failure>) -> Result<
    PayloadView,
    FailureView,
> {
    match outcome {
        Ok(payload) => Ok(payload@),
        Err(failure) => Err(failure@),
    }
}

/// The keys of the stories among `entities`, in order.
pub open spec fn story_keys(entities: Seq<EntityView>) -> Seq<(Seq<char>, Seq<char>)>
    decreases entities.len(),
{
    if entities.len() == 0 {
        Seq::empty()
    } else {
        let front = story_keys(entities.drop_last());
        match entities.last() {
            EntityView::Story { pk, sk, .. } => front.push((pk, sk)),
            _ => front,
        }
    }
}

/// The keys of the comments among `entities`, in order.
pub open spec fn comment_keys(entities: Seq<EntityView>) -> Seq<(Seq<char>, Seq<char>)>
    decreases entities.len(),
{
    if entities.len() == 0 {
        Seq::empty()
    } else {
        let front = comment_keys(entities.drop_last());
        match entities.last() {
            EntityView::Comment { pk, sk, .. } => front.push((pk, sk)),
            _ => front,
        }
    }
}

/// The stories among `entities` as a listing shows them, in order: the
/// identifiers are the keys without their tags.
pub open spec fn story_entries(entities: Seq<EntityView>) -> Seq<StoryEntryView>
    decreases entities.len(),
{
    if entities.len() == 0 {
        Seq::empty()
    } else {
        let front = story_entries(entities.drop_last());
        match entities.last() {
            EntityView::Story { pk, sk, story_text } => front.push(
                StoryEntryView {
                    user_id: identifier_spec(user_tag(), pk),
                    story_id: identifier_spec(story_tag(), sk),
                    content: story_text,
                },
            ),
            _ => front,
        }
    }
}

/// The comments among `entities` as a listing shows them, in order.
pub open spec fn comment_entries(entities: Seq<EntityView>) -> Seq<CommentEntryView>
    decreases entities.len(),
{
    if entities.len() == 0 {
        Seq::empty()
    } else {
        let front = comment_entries(entities.drop_last());
        match entities.last() {
            EntityView::Comment { pk, sk, user_id, comment_text } => front.push(
                CommentEntryView {
                    user_id,
                    comment_id: identifier_spec(comment_tag(), pk),
                    story_id: identifier_spec(story_tag(), sk),
                    content: comment_text,
                },
            ),
            _ => front,
        }
    }
}

/// The keys of the stories among `entities`.
pub fn keys_of_stories(entities: &Vec<Entity>) -> (keys: Vec<(String, String)>)
    ensures
        keys.deep_view() == story_keys(entities.deep_view()),
{
    let ghost all = entities.deep_view();
    let mut keys: Vec<(String, String)> = Vec::new();
    let mut at: usize = 0;
    while at < entities.len()
        invariant
            at <= entities.len(),
            all == entities.deep_view(),
            keys.deep_view() == story_keys(all.take(at as int)),
        decreases entities.len() - at,
    {
        proof {
            assert(all.take(at + 1).drop_last() =~= all.take(at as int));
        }
        match &entities[at] {
            Entity::Story { pk, sk, .. } => {
                keys.push((copy(pk), copy(sk)));
            },
            _ => {},
        }
        at = at + 1;
    }
    assert(all.take(at as int) =~= all);
    keys
}

/// The keys of the comments among `entities`.
pub fn keys_of_comments(entities: &Vec<Entity>) -> (keys: Vec<(String, String)>)
    ensures
        keys.deep_view() == comment_keys(entities.deep_view()),
{
    let ghost all = entities.deep_view();
    let mut keys: Vec<(String, String)> = Vec::new();
    let mut at: usize = 0;
    while at < entities.len()
        invariant
            at <= entities.len(),
            all == entities.deep_view(),
            keys.deep_view() == comment_keys(all.take(at as int)),
        decreases entities.len() - at,
    {
        proof {
            assert(all.take(at + 1).drop_last() =~= all.take(at as int));
        }
        match &entities[at] {
            Entity::Comment { pk, sk, .. } => {
                keys.push((copy(pk), copy(sk)));
            },
            _ => {},
        }
        at = at + 1;
    }
    assert(all.take(at as int) =~= all);
    keys
}

/// The stories among `entities` as a listing shows them.
pub fn list_stories(entities: &Vec<Entity>) -> (entries: Vec<StoryEntry>)
    ensures
        entries.deep_view() == story_entries(entities.deep_view()),
{
    let ghost all = entities.deep_view();
    let mut entries: Vec<StoryEntry> = Vec::new();
    let mut at: usize = 0;
    while at < entities.len()
        invariant
            at <= entities.len(),
            all == entities.deep_view(),
            entries.deep_view() == story_entries(all.take(at as int)),
        decreases entities.len() - at,
    {
        proof {
            assert(all.take(at + 1).drop_last() =~= all.take(at as int));
        }
        match &entities[at] {
            Entity::Story { pk, sk, story_text } => {
                let entry = StoryEntry {
                    user_id: user_id_of(pk.as_str()),
                    story_id: story_id_of(sk.as_str()),
                    content: copy(story_text),
                };
                entries.push(entry);
            },
            _ => {},
        }
        at = at + 1;
    }
    assert(all.take(at as int) =~= all);
    entries
}

/// The comments among `entities` as a listing shows them.
pub fn list_comments(entities: &Vec<Entity>) -> (entries: Vec<CommentEntry>)
    ensures
        entries.deep_view() == comment_entries(entities.deep_view()),
{
    let ghost all = entities.deep_view();
    let mut entries: Vec<CommentEntry> = Vec::new();
    let mut at: usize = 0;
    while at < entities.len()
        invariant
            at <= entities.len(),
            all == entities.deep_view(),
            entries.deep_view() == comment_entries(all.take(at as int)),
        decreases entities.len() - at,
    {
        proof {
            assert(all.take(at + 1).drop_last() =~= all.take(at as int));
        }
        match &entities[at] {
            Entity::Comment { pk, sk, user_id, comment_text } => {
                let entry = CommentEntry {
                    user_id: copy(user_id),
                    comment_id: comment_id_of(pk.as_str()),
                    story_id: story_id_of(sk.as_str()),
                    content: copy(comment_text),
                };
                entries.push(entry);
            },
            _ => {},
        }
        at = at + 1;
    }
    assert(all.take(at as int) =~= all);
    entries
}

} // verus!
