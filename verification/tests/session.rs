use api_fn::command::{Command, CommentEntry, Failure, Payload, StoryEntry};
use api_fn::item::{to_item, Item};
use api_fn::model::{
    CreateCommentInput, CreateStoryInput, CreateUserInput, DeleteCommentInput, DeleteStoryInput,
    DeleteUserInput, Entity,
};
use api_fn::request::{Index, Query, Reply, Request, SortCondition};
use api_fn::session::{Action, Session};

fn text(s: &str) -> String {
    s.to_string()
}

fn key(pk: &str, sk: &str) -> (String, String) {
    (text(pk), text(sk))
}

fn delete(pk: &str, sk: &str) -> Action {
    Action::Send(Request::Delete { pk: text(pk), sk: text(sk) })
}

fn stories_of(user: &str) -> Action {
    Action::Send(Request::Query(Query {
        partition: format!("user#{}", user),
        sort: SortCondition::BeginsWith(text("story#")),
        index: Index::Primary,
    }))
}

fn comments_on(story: &str) -> Action {
    Action::Send(Request::Query(Query {
        partition: format!("story#{}", story),
        sort: SortCondition::BeginsWith(text("comment#")),
        index: Index::Inverted,
    }))
}

fn story(user_id: &str, id: &str, content: &str) -> Item {
    to_item(Entity::story(user_id, id, text(content)))
}

fn comment(id: &str, story_id: &str, user_id: &str, content: &str) -> Item {
    to_item(Entity::comment(id, story_id, text(user_id), text(content)))
}

fn delete_user(id: &str) -> Command {
    Command::DeleteUser(DeleteUserInput { user_id: text(id) })
}

#[test]
fn create_user_puts_and_echoes_the_id() {
    let command =
        Command::CreateUser(CreateUserInput { user_id: text("alice"), password: text("pw1") });
    let (session, action) = Session::begin(command);
    assert_eq!(
        action,
        Action::Send(Request::Put(to_item(Entity::new_user("alice", text("pw1")))))
    );
    assert!(!session.is_finished());
    let (session, action) = session.step(Reply::Stored);
    assert_eq!(action, Action::Finish(Ok(Payload::UserId(text("alice")))));
    assert!(session.is_finished());
}

#[test]
fn create_story_uses_the_given_id() {
    let command =
        Command::CreateStory(CreateStoryInput { user_id: text("alice"), content: text("hello") });
    let (session, action) = Session::begin_with(command, text("s1"));
    assert_eq!(action, Action::Send(Request::Put(story("alice", "s1", "hello"))));
    let (_, action) = session.step(Reply::Stored);
    assert_eq!(action, Action::Finish(Ok(Payload::StoryId(text("s1")))));
}

#[test]
fn create_story_draws_an_id_and_stores_under_it() {
    let command =
        Command::CreateStory(CreateStoryInput { user_id: text("alice"), content: text("hello") });
    let (session, action) = Session::begin(command);
    let stored = match action {
        Action::Send(Request::Put(item)) => item,
        other => panic!("no put: {:?}", other),
    };
    let (_, action) = session.step(Reply::Stored);
    let id = match action {
        Action::Finish(Ok(Payload::StoryId(id))) => id,
        other => panic!("no id: {:?}", other),
    };
    assert_eq!(id.chars().count(), 36);
    assert_eq!(stored, story("alice", &id, "hello"));
}

#[test]
fn create_comment_uses_the_given_id() {
    let command = Command::CreateComment(CreateCommentInput {
        story_id: text("s1"),
        user_id: text("bob"),
        content: text("nice"),
    });
    let (session, action) = Session::begin_with(command, text("c1"));
    assert_eq!(action, Action::Send(Request::Put(comment("c1", "s1", "bob", "nice"))));
    let (_, action) = session.step(Reply::Stored);
    assert_eq!(action, Action::Finish(Ok(Payload::CommentId(text("c1")))));
}

#[test]
fn a_failed_put_is_storage_unavailable() {
    let command =
        Command::CreateUser(CreateUserInput { user_id: text("alice"), password: text("pw1") });
    let (session, _) = Session::begin(command);
    let (session, action) = session.step(Reply::Failed(text("throttled")));
    assert_eq!(action, Action::Finish(Err(Failure::StorageUnavailable(text("throttled")))));
    assert!(session.is_finished());
}

#[test]
fn list_stories_shows_the_stories_only() {
    let (session, action) =
        Session::begin(Command::ListStories { user_id: text("alice") });
    assert_eq!(action, stories_of("alice"));
    let items = vec![
        story("alice", "s1", "one"),
        comment("c9", "s9", "bob", "stray"),
        story("alice", "s2", "two"),
    ];
    let (_, action) = session.step(Reply::Items(items));
    assert_eq!(
        action,
        Action::Finish(Ok(Payload::Stories(vec![
            StoryEntry { user_id: text("alice"), story_id: text("s1"), content: text("one") },
            StoryEntry { user_id: text("alice"), story_id: text("s2"), content: text("two") },
        ])))
    );
}

#[test]
fn list_comments_shows_the_comments_only() {
    let (session, action) =
        Session::begin(Command::ListComments { story_id: text("s1") });
    assert_eq!(action, comments_on("s1"));
    let items = vec![comment("c1", "s1", "u1", "hi"), story("alice", "s1", "one")];
    let (_, action) = session.step(Reply::Items(items));
    assert_eq!(
        action,
        Action::Finish(Ok(Payload::Comments(vec![CommentEntry {
            user_id: text("u1"),
            comment_id: text("c1"),
            story_id: text("s1"),
            content: text("hi"),
        }])))
    );
}

#[test]
fn ids_in_listings_are_the_keys_without_their_tags() {
    let (session, _) = Session::begin(Command::ListStories { user_id: text("a#b") });
    let (_, action) = session.step(Reply::Items(vec![story("a#b", "x#y", "text")]));
    assert_eq!(
        action,
        Action::Finish(Ok(Payload::Stories(vec![StoryEntry {
            user_id: text("a#b"),
            story_id: text("x#y"),
            content: text("text"),
        }])))
    );

    let (session, _) = Session::begin(Command::ListComments { story_id: text("a#b") });
    let (_, action) = session.step(Reply::Items(vec![comment("c#1", "a#b", "u#1", "hi")]));
    assert_eq!(
        action,
        Action::Finish(Ok(Payload::Comments(vec![CommentEntry {
            user_id: text("u#1"),
            comment_id: text("c#1"),
            story_id: text("a#b"),
            content: text("hi"),
        }])))
    );
}

#[test]
fn a_listing_with_a_malformed_item_fails() {
    let (session, _) = Session::begin(Command::ListStories { user_id: text("alice") });
    let broken = Item {
        pk: text("user#alice"),
        sk: text("story#s1"),
        password: None,
        story_text: None,
        user_id: None,
        comment_text: None,
    };
    let (_, action) = session.step(Reply::Items(vec![story("alice", "s0", "fine"), broken]));
    assert_eq!(action, Action::Finish(Err(Failure::StorageUnavailable(text("malformed item")))));
}

#[test]
fn an_empty_listing_is_no_error() {
    let (session, _) = Session::begin(Command::ListComments { story_id: text("s1") });
    let (_, action) = session.step(Reply::Items(vec![]));
    assert_eq!(action, Action::Finish(Ok(Payload::Comments(vec![]))));
}

#[test]
fn delete_comment_is_one_delete() {
    let command = Command::DeleteComment(DeleteCommentInput {
        comment_id: text("c1"),
        story_id: text("s1"),
    });
    let (session, action) = Session::begin(command);
    assert_eq!(action, delete("comment#c1", "story#s1"));
    let (session, action) = session.step(Reply::Removed(None));
    assert_eq!(action, Action::Finish(Ok(Payload::Empty)));
    assert!(session.is_finished());
}

#[test]
fn delete_story_removes_the_story_then_its_comments() {
    let command = Command::DeleteStory(DeleteStoryInput {
        user_id: text("alice"),
        story_id: text("s1"),
    });
    let (session, action) = Session::begin(command);
    assert_eq!(action, delete("user#alice", "story#s1"));
    let (session, action) = session.step(Reply::Removed(Some(story("alice", "s1", "one"))));
    assert_eq!(action, comments_on("s1"));
    let found = vec![comment("c1", "s1", "bob", "a"), comment("c2", "s1", "bob", "b")];
    let (session, action) = session.step(Reply::Items(found));
    assert_eq!(action, delete("comment#c1", "story#s1"));
    let (session, action) = session.step(Reply::Removed(None));
    assert_eq!(action, delete("comment#c2", "story#s1"));
    let (_, action) = session.step(Reply::Removed(None));
    assert_eq!(action, Action::Finish(Ok(Payload::Empty)));
}

#[test]
fn delete_user_goes_parent_before_children() {
    let (session, action) = Session::begin(delete_user("alice"));
    assert_eq!(action, delete("user#alice", "user#alice"));
    let (session, action) = session.step(Reply::Removed(None));
    assert_eq!(action, stories_of("alice"));
    let stories = vec![story("alice", "s1", "one"), story("alice", "s2", "two")];
    let (session, action) = session.step(Reply::Items(stories));
    assert_eq!(action, delete("user#alice", "story#s1"));
    let (session, action) = session.step(Reply::Removed(None));
    assert_eq!(action, comments_on("s1"));
    let (session, action) = session.step(Reply::Items(vec![comment("c1", "s1", "bob", "a")]));
    assert_eq!(action, delete("comment#c1", "story#s1"));
    let (session, action) = session.step(Reply::Removed(None));
    assert_eq!(action, delete("user#alice", "story#s2"));
    let (session, action) = session.step(Reply::Removed(None));
    assert_eq!(action, comments_on("s2"));
    let (session, action) = session.step(Reply::Items(vec![]));
    assert_eq!(action, Action::Finish(Ok(Payload::Empty)));
    assert!(session.is_finished());
}

#[test]
fn delete_user_without_stories_ends_after_the_query() {
    let (session, _) = Session::begin(delete_user("nobody"));
    let (session, _) = session.step(Reply::Removed(None));
    let (_, action) = session.step(Reply::Items(vec![]));
    assert_eq!(action, Action::Finish(Ok(Payload::Empty)));
}

#[test]
fn items_of_another_kind_are_passed_over_in_a_cascade() {
    let (session, _) = Session::begin(delete_user("alice"));
    let (session, _) = session.step(Reply::Removed(None));
    let found = vec![
        to_item(Entity::new_user("odd", text("pw"))),
        story("alice", "s1", "one"),
    ];
    let (session, action) = session.step(Reply::Items(found));
    assert_eq!(action, delete("user#alice", "story#s1"));
    let (session, _) = session.step(Reply::Removed(None));
    let found = vec![story("alice", "s1", "one"), comment("c1", "s1", "bob", "a")];
    let (_, action) = session.step(Reply::Items(found));
    assert_eq!(action, delete("comment#c1", "story#s1"));
}

#[test]
fn a_failure_at_the_first_step_is_storage_unavailable() {
    let (session, _) = Session::begin(delete_user("alice"));
    let (_, action) = session.step(Reply::Failed(text("unreachable")));
    assert_eq!(action, Action::Finish(Err(Failure::StorageUnavailable(text("unreachable")))));

    let command = Command::DeleteStory(DeleteStoryInput {
        user_id: text("alice"),
        story_id: text("s1"),
    });
    let (session, _) = Session::begin(command);
    let (_, action) = session.step(Reply::Failed(text("unreachable")));
    assert_eq!(action, Action::Finish(Err(Failure::StorageUnavailable(text("unreachable")))));
}

#[test]
fn a_failure_later_reports_how_far_the_cascade_came() {
    let (session, _) = Session::begin(delete_user("alice"));
    let (session, _) = session.step(Reply::Removed(None));
    let (_, action) = session.step(Reply::Failed(text("throttled")));
    assert_eq!(
        action,
        Action::Finish(Err(Failure::PartialCascadeFailure {
            removed: vec![key("user#alice", "user#alice")],
            cause: text("throttled"),
        }))
    );

    let (session, _) = Session::begin(delete_user("alice"));
    let (session, _) = session.step(Reply::Removed(None));
    let (session, _) = session.step(Reply::Items(vec![story("alice", "s1", "one")]));
    let (session, _) = session.step(Reply::Removed(None));
    let found = vec![comment("c1", "s1", "bob", "a"), comment("c2", "s1", "bob", "b")];
    let (session, _) = session.step(Reply::Items(found));
    let (session, _) = session.step(Reply::Removed(None));
    let (session, action) = session.step(Reply::Failed(text("timeout")));
    assert_eq!(
        action,
        Action::Finish(Err(Failure::PartialCascadeFailure {
            removed: vec![
                key("user#alice", "user#alice"),
                key("user#alice", "story#s1"),
                key("comment#c1", "story#s1"),
            ],
            cause: text("timeout"),
        }))
    );
    assert!(session.is_finished());
}

#[test]
fn a_malformed_item_stops_a_cascade() {
    let (session, _) = Session::begin(delete_user("alice"));
    let (session, _) = session.step(Reply::Removed(None));
    let broken = Item {
        pk: text("user#alice"),
        sk: text("story#s1"),
        password: None,
        story_text: None,
        user_id: Some(text("only half a comment")),
        comment_text: None,
    };
    let (_, action) = session.step(Reply::Items(vec![broken]));
    assert_eq!(
        action,
        Action::Finish(Err(Failure::PartialCascadeFailure {
            removed: vec![key("user#alice", "user#alice")],
            cause: text("malformed item"),
        }))
    );
}

#[test]
fn a_reply_of_the_wrong_kind_ends_the_command() {
    let (session, _) = Session::begin(Command::ListStories { user_id: text("alice") });
    let (_, action) = session.step(Reply::Stored);
    assert_eq!(
        action,
        Action::Finish(Err(Failure::StorageUnavailable(text("unexpected reply"))))
    );

    let (session, _) = Session::begin(delete_user("alice"));
    let (session, _) = session.step(Reply::Removed(None));
    let (_, action) = session.step(Reply::Removed(None));
    assert_eq!(
        action,
        Action::Finish(Err(Failure::PartialCascadeFailure {
            removed: vec![key("user#alice", "user#alice")],
            cause: text("unexpected reply"),
        }))
    );
}

#[test]
fn a_finished_session_takes_no_more_replies() {
    let (session, _) = Session::begin(Command::ListStories { user_id: text("alice") });
    let (session, _) = session.step(Reply::Items(vec![]));
    let (session, action) = session.step(Reply::Items(vec![]));
    assert_eq!(
        action,
        Action::Finish(Err(Failure::StorageUnavailable(text("unexpected reply"))))
    );
    assert!(session.is_finished());
}
