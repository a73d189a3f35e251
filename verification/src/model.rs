//! The entity model: the inputs of the commands and the three kinds of
//! record that the table holds.

use vstd::prelude::*;
use crate::ident::{is_random_id, random_id};
use crate::keys::{
    comment_key, comment_key_spec, story_key, story_key_spec, user_key, user_key_spec,
};

verus! {

/// Input of the command that creates a user.
#[derive(Debug, Clone, PartialEq, Eq)]
pub struct CreateUserInput {
    pub user_id: String,
    pub password: String,
}

/// Input of the command that deletes a user with all their stories and the
/// comments on them.
#[derive(Debug, Clone, PartialEq, Eq)]
pub struct DeleteUserInput {
    pub user_id: String,
}

/// Input of the command that creates a story.
#[derive(Debug, Clone, PartialEq, Eq)]
pub struct CreateStoryInput {
    pub user_id: String,
    pub content: String,
}

/// Input of the command that deletes a story with its comments.
#[derive(Debug, Clone, PartialEq, Eq)]
pub struct DeleteStoryInput {
    pub user_id: String,
    pub story_id: String,
}

/// Input of the command that creates a comment.
#[derive(Debug, Clone, PartialEq, Eq)]
pub struct CreateCommentInput {
    pub story_id: String,
    pub user_id: String,
    pub content: String,
}

/// Input of the command that deletes a comment.
#[derive(Debug, Clone, PartialEq, Eq)]
pub struct DeleteCommentInput {
    pub comment_id: String,
    pub story_id: String,
}

/// A record of the table. The kind is not stored: it shows in the keys and
/// in which fields are there.
#[derive(Debug, Clone, PartialEq, Eq)]
pub enum Entity {
    User { pk: String, sk: String, password: String },
    Story { pk: String, sk: String, story_text: String },
    Comment { pk: String, sk: String, user_id: String, comment_text: String },
}

/// An entity as a mathematical value.
pub enum EntityView {
    User { pk: Seq<char>, sk: Seq<char>, password: Seq<char> },
    Story { pk: Seq<char>, sk: Seq<char>, story_text: Seq<char> },
    Comment { pk: Seq<char>, sk: Seq<char>, user_id: Seq<char>, comment_text: Seq<char> },
}

impl View for Entity {
    type V = EntityView;

    open spec fn view(&self) -> EntityView {
        match self {
            Entity::User { pk, sk, password } => EntityView::User {
                pk: pk@,
                sk: sk@,
                password: password@,
            },
            Entity::Story { pk, sk, story_text } => EntityView::Story {
                pk: pk@,
                sk: sk@,
                story_text: story_text@,
            },
            Entity::Comment { pk, sk, user_id, comment_text } => EntityView::Comment {
                pk: pk@,
                sk: sk@,
                user_id: user_id@,
                comment_text: comment_text@,
            },
        }
    }
}

impl DeepView for Entity {
    type V = EntityView;

    open spec fn deep_view(&self) -> EntityView {
        self@
    }
}

impl EntityView {
    /// Partition and sort key.
    pub open spec fn key(self) -> (Seq<char>, Seq<char>) {
        match self {
            EntityView::User { pk, sk, .. } => (pk, sk),
            EntityView::Story { pk, sk, .. } => (pk, sk),
            EntityView::Comment { pk, sk, .. } => (pk, sk),
        }
    }
}

/// The record of the user `user_id`.
pub open spec fn user_entity(user_id: Seq<char>, password: Seq<char>) -> EntityView {
    EntityView::User {
        pk: user_key_spec(user_id).0,
        sk: user_key_spec(user_id).1,
        password,
    }
}

/// The record of the story `story_id` written by `user_id`.
pub open spec fn story_entity(
    user_id: Seq<char>,
    story_id: Seq<char>,
    content: Seq<char>,
) -> EntityView {
    EntityView::Story {
        pk: story_key_spec(user_id, story_id).0,
        sk: story_key_spec(user_id, story_id).1,
        story_text: content,
    }
}

/// The record of the comment `comment_id` that `user_id` wrote on the story
/// `story_id`.
pub open spec fn comment_entity(
    comment_id: Seq<char>,
    story_id: Seq<char>,
    user_id: Seq<char>,
    content: Seq<char>,
) -> EntityView {
    EntityView::Comment {
        pk: comment_key_spec(comment_id, story_id).0,
        sk: comment_key_spec(comment_id, story_id).1,
        user_id,
        comment_text: content,
    }
}

impl Entity {
    /// The record of a user.
    pub fn new_user(user_id: &str, password: String) -> (entity: Entity)
        ensures
            entity@ == user_entity(user_id@, password@),
    {
        let key = user_key(user_id);
        Entity::User { pk: key.0, sk: key.1, password }
    }

    /// The record of a story whose identifier is given.
    pub fn story(user_id: &str, story_id: &str, content: String) -> (entity: Entity)
        ensures
            entity@ == story_entity(user_id@, story_id@, content@),
    {
        let key = story_key(user_id, story_id);
        Entity::Story { pk: key.0, sk: key.1, story_text: content }
    }

    /// The record of a comment whose identifier is given.
    pub fn comment(comment_id: &str, story_id: &str, user_id: String, content: String) -> (entity:
        Entity)
        ensures
            entity@ == comment_entity(comment_id@, story_id@, user_id@, content@),
    {
        let key = comment_key(comment_id, story_id);
        Entity::Comment { pk: key.0, sk: key.1, user_id, comment_text: content }
    }

    /// The record of a new story, under a fresh random identifier, which is
    /// returned with it.
    pub fn new_story(user_id: &str, content: String) -> (made: (String, Entity))
        ensures
            is_random_id(made.0@),
            made.1@ == story_entity(user_id@, made.0@, content@),
    {
        let story_id = random_id();
        let entity = Entity::story(user_id, story_id.as_str(), content);
        (story_id, entity)
    }

    /// The record of a new comment, under a fresh random identifier, which
    /// is returned with it.
    pub fn new_comment(story_id: &str, user_id: String, content: String) -> (made: (
        String,
        Entity,
    ))
        ensures
            is_random_id(made.0@),
            made.1@ == comment_entity(made.0@, story_id@, user_id@, content@),
    {
        let comment_id = random_id();
        let entity = Entity::comment(comment_id.as_str(), story_id, user_id, content);
        (comment_id, entity)
    }

    /// The partition key.
    pub fn pk(&self) -> (pk: &String)
        ensures
            pk@ == self@.key().0,
    {
        match self {
            Entity::User { pk, .. } => pk,
            Entity::Story { pk, .. } => pk,
            Entity::Comment { pk, .. } => pk,
        }
    }

    /// The sort key.
    pub fn sk(&self) -> (sk: &String)
        ensures
            sk@ == self@.key().1,
    {
        match self {
            Entity::User { sk, .. } => sk,
            Entity::Story { sk, .. } => sk,
            Entity::Comment { sk, .. } => sk,
        }
    }
}

} // verus!
