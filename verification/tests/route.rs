use api_fn::command::{Command, Failure, Payload, StoryEntry};
use api_fn::command::CommentEntry;
use api_fn::route::{
    malformed_request, operation, path_param, respond, response, route, Method, Operation,
    Response, Route,
};

fn text(s: &str) -> String {
    s.to_string()
}

fn params(given: &[(&str, &str)]) -> Vec<(String, String)> {
    given.iter().map(|(name, value)| (text(name), text(value))).collect()
}

fn turned_away(message: &str) -> Route {
    Route::Reject(Response { status_code: 400, body: Some(text(message)) })
}

#[test]
fn path_param_finds_a_value_by_name() {
    let given = params(&[("entity", "stories"), ("id", "alice")]);
    assert_eq!(path_param(&given, "id").map_err(|e| e.message()), Ok(text("alice")));
    assert_eq!(path_param(&given, "entity").map_err(|e| e.message()), Ok(text("stories")));
}

#[test]
fn path_param_names_what_is_missing() {
    let given = params(&[("entity", "stories")]);
    assert_eq!(
        path_param(&given, "id").map_err(|e| e.message()),
        Err(text("no path param: id"))
    );
    assert_eq!(
        path_param(&vec![], "entity").map_err(|e| e.message()),
        Err(text("no path param: entity"))
    );
}

#[test]
fn get_lists_stories_and_comments() {
    let stories = route(Method::Get, &params(&[("entity", "stories"), ("id", "alice")]), false);
    assert_eq!(
        stories.map_err(|e| e.message()),
        Ok(Route::Run(Command::ListStories { user_id: text("alice") }))
    );
    let comments = route(Method::Get, &params(&[("id", "s1"), ("entity", "comments")]), true);
    assert_eq!(
        comments.map_err(|e| e.message()),
        Ok(Route::Run(Command::ListComments { story_id: text("s1") }))
    );
}

#[test]
fn get_of_something_else_is_invalid() {
    let found = route(Method::Get, &params(&[("entity", "users"), ("id", "alice")]), false);
    assert_eq!(found.map_err(|e| e.message()), Ok(turned_away("invalid request")));
}

#[test]
fn get_needs_entity_and_id() {
    let found = route(Method::Get, &params(&[("id", "alice")]), false);
    assert_eq!(found.map_err(|e| e.message()), Err(text("no path param: entity")));
    let found = route(Method::Get, &params(&[("entity", "stories")]), false);
    assert_eq!(found.map_err(|e| e.message()), Err(text("no path param: id")));
}

#[test]
fn post_names_the_input_to_read() {
    let cases = [
        ("user", "create", Operation::CreateUser),
        ("story", "create", Operation::CreateStory),
        ("comment", "create", Operation::CreateComment),
        ("user", "delete", Operation::DeleteUser),
        ("story", "delete", Operation::DeleteStory),
        ("comment", "delete", Operation::DeleteComment),
    ];
    for (entity, action, expected) in cases {
        let found = route(Method::Post, &params(&[("entity", entity), ("action", action)]), true);
        assert_eq!(found.map_err(|e| e.message()), Ok(Route::Parse(expected)));
        assert_eq!(operation(entity, action), Some(expected));
    }
}

#[test]
fn post_of_something_else_is_invalid() {
    let found = route(Method::Post, &params(&[("entity", "user"), ("action", "update")]), true);
    assert_eq!(found.map_err(|e| e.message()), Ok(turned_away("invalid request")));
    let found = route(Method::Post, &params(&[("entity", "stories"), ("action", "create")]), true);
    assert_eq!(found.map_err(|e| e.message()), Ok(turned_away("invalid request")));
    assert_eq!(operation("users", "create"), None);
    assert_eq!(operation("", ""), None);
}

#[test]
fn post_without_a_body_is_turned_away_first() {
    let found = route(Method::Post, &params(&[("entity", "user"), ("action", "create")]), false);
    assert_eq!(found.map_err(|e| e.message()), Ok(turned_away("no request body")));
    let found = route(Method::Post, &params(&[("entity", "x"), ("action", "y")]), false);
    assert_eq!(found.map_err(|e| e.message()), Ok(turned_away("no request body")));
}

#[test]
fn post_needs_entity_and_action() {
    let found = route(Method::Post, &params(&[("action", "create")]), true);
    assert_eq!(found.map_err(|e| e.message()), Err(text("no path param: entity")));
    let found = route(Method::Post, &params(&[("entity", "user")]), false);
    assert_eq!(found.map_err(|e| e.message()), Err(text("no path param: action")));
}

#[test]
fn other_methods_get_a_bare_400() {
    let found = route(Method::Other, &params(&[("entity", "stories"), ("id", "alice")]), true);
    assert_eq!(
        found.map_err(|e| e.message()),
        Ok(Route::Reject(Response { status_code: 400, body: None }))
    );
}

#[test]
fn response_holds_status_and_body() {
    assert_eq!(response(200, None), Response { status_code: 200, body: None });
    assert_eq!(
        response(400, Some(text("no"))),
        Response { status_code: 400, body: Some(text("no")) }
    );
    assert_eq!(
        malformed_request(),
        Response { status_code: 400, body: Some(text("malformed request")) }
    );
}

fn shown(outcome: Result<Payload, Failure>) -> Result<Response, String> {
    respond(outcome).map_err(|e| e.message())
}

fn ok(body: &str) -> Result<Response, String> {
    Ok(Response { status_code: 200, body: Some(text(body)) })
}

#[test]
fn a_delete_is_answered_with_a_bare_200() {
    assert_eq!(shown(Ok(Payload::Empty)), Ok(Response { status_code: 200, body: None }));
}

#[test]
fn a_create_is_answered_with_the_id() {
    assert_eq!(shown(Ok(Payload::UserId(text("alice")))), ok(r#"{"user_id":"alice"}"#));
    assert_eq!(shown(Ok(Payload::StoryId(text("s1")))), ok(r#"{"story_id":"s1"}"#));
    assert_eq!(shown(Ok(Payload::CommentId(text("c1")))), ok(r#"{"comment_id":"c1"}"#));
}

#[test]
fn a_listing_is_answered_with_an_array() {
    let stories = Payload::Stories(vec![
        StoryEntry { user_id: text("alice"), story_id: text("s1"), content: text("hello") },
        StoryEntry { user_id: text("alice"), story_id: text("s2"), content: text("again") },
    ]);
    assert_eq!(
        shown(Ok(stories)),
        ok(concat_two(
            r#"[{"content":"hello","story_id":"s1","user_id":"alice"},"#,
            r#"{"content":"again","story_id":"s2","user_id":"alice"}]"#
        )
        .as_str())
    );
    let comments = Payload::Comments(vec![CommentEntry {
        user_id: text("u1"),
        comment_id: text("c1"),
        story_id: text("s1"),
        content: text("hi"),
    }]);
    assert_eq!(
        shown(Ok(comments)),
        ok(r#"[{"comment_id":"c1","content":"hi","story_id":"s1","user_id":"u1"}]"#)
    );
    assert_eq!(shown(Ok(Payload::Stories(vec![]))), ok("[]"));
    assert_eq!(shown(Ok(Payload::Comments(vec![]))), ok("[]"));
}

fn concat_two(head: &str, tail: &str) -> String {
    format!("{}{}", head, tail)
}

#[test]
fn texts_are_escaped_in_bodies() {
    let quoted = Payload::UserId(text("a\"b\\c\n"));
    assert_eq!(shown(Ok(quoted)), ok(r#"{"user_id":"a\"b\\c\n"}"#));
    let story = Payload::Stories(vec![StoryEntry {
        user_id: text("ü"),
        story_id: text(""),
        content: text("{\"x\":1}"),
    }]);
    assert_eq!(
        shown(Ok(story)),
        ok(r#"[{"content":"{\"x\":1}","story_id":"","user_id":"ü"}]"#)
    );
}

#[test]
fn a_bad_request_is_answered_with_400() {
    assert_eq!(
        shown(Err(Failure::BadRequest(text("malformed request")))),
        Ok(Response { status_code: 400, body: Some(text("malformed request")) })
    );
}

#[test]
fn a_failure_of_the_table_is_an_error() {
    assert_eq!(
        shown(Err(Failure::StorageUnavailable(text("throttled")))),
        Err(text("throttled"))
    );
    let partial = Failure::PartialCascadeFailure {
        removed: vec![(text("user#a"), text("user#a")), (text("user#a"), text("story#s1"))],
        cause: text("timeout"),
    };
    assert_eq!(partial.message(), "timeout; the cascade had removed: user#a/user#a user#a/story#s1");
    assert_eq!(
        shown(Err(partial)),
        Err(text("timeout; the cascade had removed: user#a/user#a user#a/story#s1"))
    );
    let none = Failure::PartialCascadeFailure { removed: vec![], cause: text("x") };
    assert_eq!(none.message(), "x; the cascade had removed:");
}

#[test]
fn bodies_of_payloads() {
    assert_eq!(Payload::Empty.body(), None);
    assert_eq!(Payload::UserId(text("u")).body(), Some(text(r#"{"user_id":"u"}"#)));
    assert_eq!(Payload::Stories(vec![]).body(), Some(text("[]")));
    assert_eq!(Payload::Comments(vec![]).body(), Some(text("[]")));
    let one = Payload::Stories(vec![StoryEntry {
        user_id: text("a#b"),
        story_id: text("x#y"),
        content: text("c"),
    }]);
    assert_eq!(
        one.body(),
        Some(text(r#"[{"content":"c","story_id":"x#y","user_id":"a#b"}]"#))
    );
}
