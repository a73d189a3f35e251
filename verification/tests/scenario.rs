use api_fn::command::{Command, Payload};
use api_fn::model::{CreateCommentInput, CreateStoryInput, CreateUserInput, DeleteStoryInput};
use api_fn::run::execute;
use api_fn::table::Table;

fn text(s: &str) -> String {
    s.to_string()
}

#[test]
fn story_with_comment_is_listed_and_removed() {
    let mut table = Table::new();
    let made = execute(
        Command::CreateUser(CreateUserInput { user_id: text("alice"), password: text("pw1") }),
        &mut table,
    );
    assert_eq!(made, Ok(Payload::UserId(text("alice"))));

    let story_id = match execute(
        Command::CreateStory(CreateStoryInput { user_id: text("alice"), content: text("hello") }),
        &mut table,
    ) {
        Ok(Payload::StoryId(id)) => id,
        other => panic!("no story id: {:?}", other),
    };
    assert_eq!(story_id.len(), 36);

    let comment_id = match execute(
        Command::CreateComment(CreateCommentInput {
            story_id: story_id.clone(),
            user_id: text("bob"),
            content: text("nice"),
        }),
        &mut table,
    ) {
        Ok(Payload::CommentId(id)) => id,
        other => panic!("no comment id: {:?}", other),
    };
    assert_ne!(comment_id, story_id);
    assert_eq!(table.len(), 3);

    match execute(Command::ListStories { user_id: text("alice") }, &mut table) {
        Ok(Payload::Stories(stories)) => {
            assert_eq!(stories.len(), 1);
            assert_eq!(stories[0].content, "hello");
            assert_eq!(stories[0].user_id, "alice");
            assert_eq!(stories[0].story_id, story_id);
        }
        other => panic!("no stories: {:?}", other),
    }

    let gone = execute(
        Command::DeleteStory(DeleteStoryInput { user_id: text("alice"), story_id: story_id.clone() }),
        &mut table,
    );
    assert_eq!(gone, Ok(Payload::Empty));

    let left = execute(Command::ListComments { story_id: story_id.clone() }, &mut table);
    assert_eq!(left, Ok(Payload::Comments(vec![])));
    assert_eq!(table.len(), 1);
}
