//! From a request's method and path to a command, and from a command's
//! end to a response.
//!
//! A `GET` names what to list and whose: `stories` or `comments`, and an
//! id. A `POST` names an entity and an action, and carries the command's
//! input in its body; reading the body is left to the caller, who is told
//! which input to expect. Anything else is turned away with status 400.

use vstd::prelude::*;
use vstd::string::StringExecFns;
use crate::command::{
    outcome_view, Command, CommandView, Failure, FailureView, Payload, PayloadView,
};
use crate::error::CustomError;
use crate::pairs::{lookup, value_of};
use crate::render::{body_spec, failure_text};
use crate::text::{join, optional_text, same};

verus! {

/// The method of a request.
#[derive(Debug, Clone, Copy, PartialEq, Eq)]
pub enum Method {
    Get,
    Post,
    Other,
}

/// The commands that come with an input in the request's body.
#[derive(Debug, Clone, Copy, PartialEq, Eq)]
pub enum Operation {
    CreateUser,
    CreateStory,
    CreateComment,
    DeleteUser,
    DeleteStory,
    DeleteComment,
}

/// A response: a status and, for most, a body.
#[derive(Debug, Clone, PartialEq, Eq)]
pub struct Response {
    pub status_code: i64,
    pub body: Option<String>,
}

/// A response as a mathematical value.
pub struct ResponseView {
    pub status_code: i64,
    pub body: Option<Seq<char>>,
}

impl View for Response {
    type V = ResponseView;

    open spec fn view(&self) -> ResponseView {
        ResponseView { status_code: self.status_code, body: optional_text(self.body) }
    }
}

/// Where a request leads.
#[derive(Debug, Clone, PartialEq, Eq)]
pub enum Route {
    /// To a command that needs nothing more.
    Run(Command),
    /// To a command whose input is to be read from the body.
    Parse(Operation),
    /// Nowhere: this response goes back.
    Reject(Response),
}

/// A route as a mathematical value.
pub enum RouteView {
    Run(CommandView),
    Parse(Operation),
    Reject(ResponseView),
}

impl View for Route {
    type V = RouteView;

    open spec fn view(&self) -> RouteView {
        match self {
            Route::Run(command) => RouteView::Run(command@),
            Route::Parse(operation) => RouteView::Parse(*operation),
            Route::Reject(response) => RouteView::Reject(response@),
        }
    }
}

/// The message for a path parameter that is not there.
pub open spec fn missing_param(name: Seq<char>) -> Seq<char> {
    "no path param: "@ + name
}

/// A response with status 400 and a text.
pub open spec fn turned_away(text: Seq<char>) -> ResponseView {
    ResponseView { status_code: 400, body: Some(text) }
}

/// The operation that an entity and an action name, if they name one.
pub open spec fn operation_spec(entity: Seq<char>, action: Seq<char>) -> Option<Operation> {
    if entity == "user"@ && action == "create"@ {
        Some(Operation::CreateUser)
    } else if entity == "story"@ && action == "create"@ {
        Some(Operation::CreateStory)
    } else if entity == "comment"@ && action == "create"@ {
        Some(Operation::CreateComment)
    } else if entity == "user"@ && action == "delete"@ {
        Some(Operation::DeleteUser)
    } else if entity == "story"@ && action == "delete"@ {
        Some(Operation::DeleteStory)
    } else if entity == "comment"@ && action == "delete"@ {
        Some(Operation::DeleteComment)
    } else {
        None
    }
}

/// Where a request leads, or the message of the error that ends it.
///
/// A `GET` needs the parameters `entity` and `id`, a `POST` the parameters
/// `entity` and `action`: a missing one is an error. A `POST` without a
/// body is turned away before its entity and action are looked at.
pub open spec fn route_spec(
    method: Method,
    params: Seq<(Seq<char>, Seq<char>)>,
    has_body: bool,
) -> Result<RouteView, Seq<char>> {
    match method {
        Method::Get => match value_of(params, "entity"@) {
            None => Err(missing_param("entity"@)),
            Some(entity) => match value_of(params, "id"@) {
                None => Err(missing_param("id"@)),
                Some(id) => if entity == "stories"@ {
                    Ok(RouteView::Run(CommandView::ListStories { user_id: id }))
                } else if entity == "comments"@ {
                    Ok(RouteView::Run(CommandView::ListComments { story_id: id }))
                } else {
                    Ok(RouteView::Reject(turned_away("invalid request"@)))
                },
            },
        },
        Method::Post => match value_of(params, "entity"@) {
            None => Err(missing_param("entity"@)),
            Some(entity) => match value_of(params, "action"@) {
                None => Err(missing_param("action"@)),
                Some(action) => if !has_body {
                    Ok(RouteView::Reject(turned_away("no request body"@)))
                } else {
                    match operation_spec(entity, action) {
                        Some(operation) => Ok(RouteView::Parse(operation)),
                        None => Ok(RouteView::Reject(turned_away("invalid request"@))),
                    }
                },
            },
        },
        Method::Other => Ok(RouteView::Reject(ResponseView { status_code: 400, body: None })),
    }
}

/// The response to a command's end: 200 with the payload written out for
/// a command that succeeded, which is no body for a delete; 400 with its
/// text for a bad request. A failure of the table is no response but an
/// error, with the failure's text as its message.
pub open spec fn respond_spec(outcome: Result<PayloadView, FailureView>) -> Result<
    ResponseView,
    Seq<char>,
> {
    match outcome {
        Ok(payload) => Ok(ResponseView { status_code: 200, body: body_spec(payload) }),
        Err(FailureView::BadRequest(text)) => Ok(turned_away(text)),
        Err(failure) => Err(failure_text(failure)),
    }
}

/// A response or the message of an error, as a mathematical value.
pub open spec fn answer_view(made: Result<Response, Box<CustomError>>) -> Result<
    ResponseView,
    Seq<char>,
> {
    match made {
        Ok(shown) => Ok(shown@),
        Err(error) => Err(error.0@),
    }
}

/// A response with this status and body.
pub fn response(status_code: i64, body: Option<String>) -> (made: Response)
    ensures
        made.status_code == status_code,
        made.body == body,
{
    Response { status_code, body }
}

/// A response with status 400 and a text.
fn turn_away(text: &str) -> (made: Response)
    ensures
        made@ == turned_away(text@),
{
    response(400, Some(String::from_str(text)))
}

/// The response to a body that does not hold the input of its command:
/// 400 with the text `malformed request`.
pub fn malformed_request() -> (made: Response)
    ensures
        made@ == turned_away("malformed request"@),
{
    turn_away("malformed request")
}

/// The value of the path parameter `name`, or an error that names it.
pub fn path_param(params: &Vec<(String, String)>, name: &str) -> (found: Result<
    String,
    Box<CustomError>,
>)
    ensures
        match found {
            Ok(value) => value_of(params.deep_view(), name@) == Some(value@),
            Err(error) => value_of(params.deep_view(), name@) is None && error.0@
                == missing_param(name@),
        },
{
    match lookup(params, name) {
        Some(value) => {
            return Ok(value);
        },
        None => {},
    }
    let message = join("no path param: ", name);
    Err(CustomError::new(message.as_str()))
}

/// The operation that an entity and an action name, if they name one.
pub fn operation(entity: &str, action: &str) -> (found: Option<Operation>)
    ensures
        found == operation_spec(entity@, action@),
{
    let create = same(action, "create");
    let delete = same(action, "delete");
    if same(entity, "user") && create {
        Some(Operation::CreateUser)
    } else if same(entity, "story") && create {
        Some(Operation::CreateStory)
    } else if same(entity, "comment") && create {
        Some(Operation::CreateComment)
    } else if same(entity, "user") && delete {
        Some(Operation::DeleteUser)
    } else if same(entity, "story") && delete {
        Some(Operation::DeleteStory)
    } else if same(entity, "comment") && delete {
        Some(Operation::DeleteComment)
    } else {
        None
    }
}

/// Where a request leads.
pub fn route(method: Method, params: &Vec<(String, String)>, has_body: bool) -> (found: Result<
    Route,
    Box<CustomError>,
>)
    ensures
        match found {
            Ok(way) => route_spec(method, params.deep_view(), has_body) == Ok::<
                RouteView,
                Seq<char>,
            >(way@),
            Err(error) => route_spec(method, params.deep_view(), has_body) == Err::<
                RouteView,
                Seq<char>,
            >(error.0@),
        },
{
    match method {
        Method::Get => {
            let entity = match path_param(params, "entity") {
                Ok(value) => value,
                Err(error) => {
                    return Err(error);
                },
            };
            let id = match path_param(params, "id") {
                Ok(value) => value,
                Err(error) => {
                    return Err(error);
                },
            };
            if same(entity.as_str(), "stories") {
                Ok(Route::Run(Command::ListStories { user_id: id }))
            } else if same(entity.as_str(), "comments") {
                Ok(Route::Run(Command::ListComments { story_id: id }))
            } else {
                Ok(Route::Reject(turn_away("invalid request")))
            }
        },
        Method::Post => {
            let entity = match path_param(params, "entity") {
                Ok(value) => value,
                Err(error) => {
                    return Err(error);
                },
            };
            let action = match path_param(params, "action") {
                Ok(value) => value,
                Err(error) => {
                    return Err(error);
                },
            };
            if !has_body {
                return Ok(Route::Reject(turn_away("no request body")));
            }
            match operation(entity.as_str(), action.as_str()) {
                Some(found) => Ok(Route::Parse(found)),
                None => Ok(Route::Reject(turn_away("invalid request"))),
            }
        },
        Method::Other => Ok(Route::Reject(response(400, None))),
    }
}

/// The response to a command's end.
pub fn respond(outcome: Result<Payload, Failure>) -> (made: Result<Response, Box<CustomError>>)
    ensures
        answer_view(made) == respond_spec(outcome_view(outcome)),
{
    match outcome {
        Ok(payload) => Ok(response(200, payload.body())),
        Err(Failure::BadRequest(text)) => Ok(response(400, Some(text))),
        Err(failure) => {
            let message = failure.message();
            Err(CustomError::new(message.as_str()))
        },
    }
}

} // verus!
